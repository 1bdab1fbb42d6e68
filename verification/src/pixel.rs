//! The fixed pixel format: packed 32-bit `0x00RRGGBB` pixels, serialized
//! little-endian, so a pixel occupies four bytes `[B, G, R, 0]` in the wire
//! buffer handed to the compositor.

use vstd::prelude::*;

verus! {

/// Byte `j` (0 <= j < 4) of pixel `p`, in little-endian order.
pub open spec fn pixel_byte(p: u32, j: int) -> u8 {
    if j == 0 {
        (p & 0xff) as u8
    } else if j == 1 {
        ((p >> 8) & 0xff) as u8
    } else if j == 2 {
        ((p >> 16) & 0xff) as u8
    } else {
        ((p >> 24) & 0xff) as u8
    }
}

/// The little-endian byte serialization of a pixel sequence: four bytes per
/// pixel, pixel `i` at offsets `4*i .. 4*i + 4`.
pub open spec fn bytes_of(pixels: Seq<u32>) -> Seq<u8> {
    Seq::new(4 * pixels.len(), |k: int| pixel_byte(pixels[k / 4], k % 4))
}

/// Allocate a frame of `n` pixels, all zero.
pub fn zeroed_pixels(n: usize) -> (out: Vec<u32>)
    ensures
        out@ == Seq::new(n as nat, |i: int| 0u32),
{
    let mut out: Vec<u32> = Vec::new();
    let mut i: usize = 0;
    while i < n
        invariant
            i <= n,
            out@ == Seq::new(i as nat, |k: int| 0u32),
        decreases n - i,
    {
        out.push(0);
        i = i + 1;
        proof {
            assert(out@ =~= Seq::new(i as nat, |k: int| 0u32));
        }
    }
    out
}

/// Allocate a byte region of `n` bytes, all zero.
pub fn zeroed_bytes(n: usize) -> (out: Vec<u8>)
    ensures
        out@ == Seq::new(n as nat, |i: int| 0u8),
{
    let mut out: Vec<u8> = Vec::new();
    let mut i: usize = 0;
    while i < n
        invariant
            i <= n,
            out@ == Seq::new(i as nat, |k: int| 0u8),
        decreases n - i,
    {
        out.push(0);
        i = i + 1;
        proof {
            assert(out@ =~= Seq::new(i as nat, |k: int| 0u8));
        }
    }
    out
}

/// Serialize a pixel sequence to its little-endian wire bytes.
pub fn pack_pixels(pixels: &Vec<u32>) -> (out: Vec<u8>)
    requires
        4 * pixels@.len() <= usize::MAX,
    ensures
        out@ == bytes_of(pixels@),
{
    let n = pixels.len();
    let mut out: Vec<u8> = Vec::new();
    let mut i: usize = 0;
    while i < n
        invariant
            n == pixels@.len(),
            4 * n <= usize::MAX,
            i <= n,
            out@ == bytes_of(pixels@.take(i as int)),
        decreases n - i,
    {
        let p = pixels[i];
        proof {
            assert((p & 0xff) < 256 && ((p >> 8) & 0xff) < 256 && ((p >> 16) & 0xff) < 256 && ((
            p >> 24) & 0xff) < 256) by (bit_vector);
        }
        out.push((p & 0xff) as u8);
        out.push(((p >> 8) & 0xff) as u8);
        out.push(((p >> 16) & 0xff) as u8);
        out.push(((p >> 24) & 0xff) as u8);
        i = i + 1;
        proof {
            let prefix = pixels@.take(i as int);
            assert forall|k: int| 0 <= k < 4 * i implies out@[k] == pixel_byte(
                prefix[k / 4],
                k % 4,
            ) by {
                if k < 4 * (i - 1) {
                    assert(bytes_of(pixels@.take(i - 1))[k] == pixel_byte(
                        pixels@.take(i - 1)[k / 4],
                        k % 4,
                    ));
                } else {
                    assert(k / 4 == i - 1);
                }
            }
            assert(out@ =~= bytes_of(prefix));
        }
    }
    proof {
        assert(pixels@.take(n as int) =~= pixels@);
    }
    out
}

/// The serialized bytes of the pixel at logical coordinate `(x, y)` of a
/// row-major `w`-wide frame stand at byte offset `4 * (y * w + x)`, in
/// little-endian order with a zero alpha-skip byte when the pixel's top byte
/// is zero.
pub proof fn lemma_bytes_at(pixels: Seq<u32>, w: nat, x: nat, y: nat)
    requires
        x < w,
        y * w + x < pixels.len(),
    ensures
        bytes_of(pixels)[4 * (y * w + x) as int] == pixel_byte(pixels[(y * w + x) as int], 0),
        bytes_of(pixels)[4 * (y * w + x) as int + 1] == pixel_byte(pixels[(y * w + x) as int], 1),
        bytes_of(pixels)[4 * (y * w + x) as int + 2] == pixel_byte(pixels[(y * w + x) as int], 2),
        bytes_of(pixels)[4 * (y * w + x) as int + 3] == pixel_byte(pixels[(y * w + x) as int], 3),
{
    let i = (y * w + x) as int;
    assert((4 * i) / 4 == i && (4 * i) % 4 == 0);
    assert((4 * i + 1) / 4 == i && (4 * i + 1) % 4 == 1);
    assert((4 * i + 2) / 4 == i && (4 * i + 2) % 4 == 2);
    assert((4 * i + 3) / 4 == i && (4 * i + 3) % 4 == 3);
}

/// The concrete byte values of one pixel: `0x00112233` serializes to
/// `[0x33, 0x22, 0x11, 0x00]`.
pub proof fn lemma_example_pixel_bytes()
    ensures
        pixel_byte(0x00112233, 0) == 0x33,
        pixel_byte(0x00112233, 1) == 0x22,
        pixel_byte(0x00112233, 2) == 0x11,
        pixel_byte(0x00112233, 3) == 0x00,
{
    assert((0x00112233u32 & 0xff) == 0x33 && ((0x00112233u32 >> 8) & 0xff) == 0x22 && ((
    0x00112233u32 >> 16) & 0xff) == 0x11 && ((0x00112233u32 >> 24) & 0xff) == 0x00)
        by (bit_vector);
}

} // verus!
