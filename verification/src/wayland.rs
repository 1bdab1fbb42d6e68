//! The shared-memory display-protocol backend.
//!
//! Binding checks the handles' backend tags, then records the outcome of the
//! one synchronous round trip the driver makes to the display server to
//! discover the shared-memory allocator global. Presenting carves a buffer
//! region from a growable pool of shared-memory segments, copies the frame's
//! serialized pixels into it, and emits the attach / damage / commit protocol
//! sequence for the driver, choosing buffer-coordinate damage when the
//! surface's negotiated interface version allows it.

use vstd::prelude::*;

use crate::pixel::{bytes_of, pack_pixels, zeroed_bytes};
use crate::{HandleKind, NativeDisplayHandle, NativeWindowHandle, SoftBufferError};

verus! {

/// The abstract state of one shared-memory segment of the pool.
pub ghost struct SegView {
    /// Capacity in bytes of the underlying shared-memory region.
    pub cap: nat,
    /// The bytes of the buffer most recently carved from this segment — what
    /// the compositor sees once the buffer is attached and committed.
    pub bytes: Seq<u8>,
    /// Whether the segment is free for reuse: a presented segment stays in
    /// use until the compositor hands its buffer back.
    pub free: bool,
}

struct Segment {
    cap: usize,
    data: Vec<u8>,
    free: bool,
}

impl View for Segment {
    type V = SegView;

    closed spec fn view(&self) -> SegView {
        SegView { cap: self.cap as nat, bytes: self.data@, free: self.free }
    }
}

/// A free segment of capacity at least `len` can carry a buffer of `len`
/// bytes.
pub open spec fn seg_fits(s: SegView, len: nat) -> bool {
    s.free && s.cap >= len
}

/// A growable arena of shared-memory segments. Buffer regions are carved per
/// present: a free segment of sufficient capacity is reused, else the pool
/// grows by one segment; segments are retained across frames and only
/// released with the surface.
pub struct ShmPool {
    segments: Vec<Segment>,
}

impl View for ShmPool {
    type V = Seq<SegView>;

    closed spec fn view(&self) -> Seq<SegView> {
        Seq::new(self.segments@.len(), |i: int| self.segments@[i]@)
    }
}

impl ShmPool {
    /// A pool with no segments.
    pub fn new() -> (p: ShmPool)
        ensures
            p@ == Seq::<SegView>::empty(),
    {
        let p = ShmPool { segments: Vec::new() };
        proof {
            assert(p@ =~= Seq::<SegView>::empty());
        }
        p
    }

    /// The number of segments.
    pub fn len(&self) -> (n: usize)
        ensures
            n == self@.len(),
    {
        self.segments.len()
    }

    /// Read a segment's buffer bytes.
    pub fn segment_bytes(&self, idx: usize) -> (r: &Vec<u8>)
        requires
            idx < self@.len(),
        ensures
            r@ == self@[idx as int].bytes,
    {
        &self.segments[idx].data
    }

    /// Carve a buffer region of `len` bytes: if a free segment of sufficient
    /// capacity exists it is reused and marked in use, its contents left as
    /// they were; otherwise the pool grows by one fresh zero-filled segment
    /// of exactly `len` bytes.
    #[verifier::loop_isolation(false)]
    pub fn acquire(&mut self, len: usize) -> (idx: usize)
        ensures
            (exists|i: int| 0 <= i < old(self)@.len() && seg_fits(#[trigger] old(self)@[i], len as nat)) ==> (
            idx < old(self)@.len() && seg_fits(old(self)@[idx as int], len as nat) && final(self)@
                == old(self)@.update(
                idx as int,
                (SegView { free: false, ..old(self)@[idx as int] }),
            )),
            !(exists|i: int|
                0 <= i < old(self)@.len() && seg_fits(#[trigger] old(self)@[i], len as nat)) ==> (
            idx == old(self)@.len() && final(self)@ == old(self)@.push(
                (SegView { cap: len as nat, bytes: Seq::new(len as nat, |j: int| 0u8), free: false }),
            )),
    {
        let ghost orig = *self;
        let n = self.segments.len();
        let mut i: usize = 0;
        while i < n
            invariant
                *self == orig,
                n == self.segments@.len(),
                i <= n,
                forall|j: int| 0 <= j < i ==> !seg_fits(#[trigger] orig@[j], len as nat),
            decreases n - i,
        {
            if self.segments[i].free && self.segments[i].cap >= len {
                self.segments[i].free = false;
                proof {
                    assert(seg_fits(orig@[i as int], len as nat));
                    assert(self@ =~= orig@.update(
                        i as int,
                        (SegView { free: false, ..orig@[i as int] }),
                    ));
                }
                return i;
            }
            i = i + 1;
        }
        let data = zeroed_bytes(len);
        self.segments.push(Segment { cap: len, data, free: false });
        proof {
            assert(self@ =~= orig@.push(
                (SegView {
                    cap: len as nat,
                    bytes: Seq::new(len as nat, |j: int| 0u8),
                    free: false,
                }),
            ));
        }
        n
    }

    /// Copy `src` into the segment's buffer region. The region's byte length
    /// becomes exactly `src.len()`; a longer write than the segment's
    /// capacity is ruled out by contract, never truncated or padded.
    pub fn write_segment(&mut self, idx: usize, src: &Vec<u8>)
        requires
            idx < old(self)@.len(),
            src@.len() <= old(self)@[idx as int].cap,
        ensures
            final(self)@ == old(self)@.update(
                idx as int,
                (SegView { bytes: src@, ..old(self)@[idx as int] }),
            ),
    {
        let data = copy_bytes(src);
        self.segments[idx].data = data;
        proof {
            assert(self@ =~= old(self)@.update(
                idx as int,
                (SegView { bytes: src@, ..old(self)@[idx as int] }),
            ));
        }
    }

    /// Mark a segment free for reuse, once the compositor has handed its
    /// buffer back.
    pub fn release(&mut self, idx: usize)
        requires
            idx < old(self)@.len(),
        ensures
            final(self)@ == old(self)@.update(
                idx as int,
                (SegView { free: true, ..old(self)@[idx as int] }),
            ),
    {
        self.segments[idx].free = true;
        proof {
            assert(self@ =~= old(self)@.update(
                idx as int,
                (SegView { free: true, ..old(self)@[idx as int] }),
            ));
        }
    }
}

fn copy_bytes(src: &Vec<u8>) -> (out: Vec<u8>)
    ensures
        out@ == src@,
{
    let n = src.len();
    let mut out: Vec<u8> = Vec::new();
    let mut i: usize = 0;
    while i < n
        invariant
            n == src@.len(),
            i <= n,
            out@ == src@.take(i as int),
        decreases n - i,
    {
        out.push(src[i]);
        i = i + 1;
        proof {
            assert(out@ =~= src@.take(i as int));
        }
    }
    proof {
        assert(src@.take(n as int) =~= src@);
    }
    out
}

/// One protocol message of a present, as plain data for the driver to send.
#[derive(Clone, Copy, Debug, PartialEq, Eq, Structural)]
pub enum WlCommand {
    /// Attach the new buffer object to the surface at the given origin.
    Attach { x: i32, y: i32 },
    /// Mark damage in buffer pixel coordinates.
    DamageBuffer { x: i32, y: i32, width: i32, height: i32 },
    /// Mark damage in surface coordinates: the legacy call, an accepted
    /// approximation when no display scaling is in effect.
    DamageSurface { x: i32, y: i32, width: i32, height: i32 },
    /// Commit the surface, queueing the frame for the compositor.
    Commit,
}

/// The damage call a present uses: from interface version 4 on, damage can
/// be expressed in buffer coordinates; before that only the surface
/// coordinate call exists. Either way the rectangle covers the full frame.
pub open spec fn damage_call(version: u32, width: u16, height: u16) -> WlCommand {
    if version >= 4 {
        WlCommand::DamageBuffer { x: 0, y: 0, width: width as i32, height: height as i32 }
    } else {
        WlCommand::DamageSurface { x: 0, y: 0, width: width as i32, height: height as i32 }
    }
}

/// The protocol sequence of one present: attach at the origin, full-frame
/// damage, commit.
pub open spec fn present_commands(version: u32, width: u16, height: u16) -> Seq<WlCommand> {
    seq![WlCommand::Attach { x: 0, y: 0 }, damage_call(version, width, height), WlCommand::Commit]
}

/// The byte length of a `width` by `height` frame: four bytes per pixel.
pub open spec fn frame_bytes_len(width: u16, height: u16) -> nat {
    4 * (width as nat) * (height as nat)
}

/// The damage call selection, stated on its own: a surface reporting
/// interface version 4 or more is damaged in buffer coordinates, an older
/// one through the legacy surface-coordinate call, both with the full-frame
/// rectangle at the origin.
pub proof fn lemma_damage_selection(version: u32, width: u16, height: u16)
    ensures
        present_commands(version, width, height).len() == 3,
        present_commands(version, width, height)[0] == (WlCommand::Attach { x: 0, y: 0 }),
        present_commands(version, width, height)[2] == WlCommand::Commit,
        version >= 4 ==> present_commands(version, width, height)[1] == (WlCommand::DamageBuffer {
            x: 0,
            y: 0,
            width: width as i32,
            height: height as i32,
        }),
        version < 4 ==> present_commands(version, width, height)[1] == (WlCommand::DamageSurface {
            x: 0,
            y: 0,
            width: width as i32,
            height: height as i32,
        }),
{
}

/// The plain values a successful tag check extracts from the native handles.
#[derive(Clone, Copy, Debug, PartialEq, Eq, Structural)]
pub struct WaylandBind {
    /// Identity of the protocol surface object.
    pub surface: usize,
    /// Identity of the display connection.
    pub display: usize,
}

/// What the driver's one synchronous round trip to the display server came
/// back with.
#[derive(Clone, Copy, Debug, PartialEq, Eq, Structural)]
pub struct HandshakeOutcome {
    /// The round trip itself completed.
    pub roundtrip_ok: bool,
    /// The shared-memory allocator global was advertised.
    pub shm_available: bool,
    /// The pool allocator could be instantiated on that global.
    pub pool_created: bool,
    /// The negotiated version of the surface's protocol interface.
    pub surface_version: u32,
}

/// The abstract state of a bound protocol surface.
pub ghost struct WlView {
    /// Identity of the protocol surface object.
    pub surface: usize,
    /// The negotiated version of the surface's protocol interface.
    pub version: u32,
    /// The shared-memory pool.
    pub pool: Seq<SegView>,
}

/// A surface bound to a display-protocol window.
pub struct WaylandImpl {
    surface: usize,
    version: u32,
    pool: ShmPool,
}

impl View for WaylandImpl {
    type V = WlView;

    closed spec fn view(&self) -> WlView {
        WlView { surface: self.surface, version: self.version, pool: self.pool@ }
    }
}

/// The fixed shared-memory buffer format of this backend: 32-bit packed RGB
/// without alpha.
#[derive(Clone, Copy, Debug, PartialEq, Eq, Structural)]
pub enum ShmFormat {
    Xrgb8888,
}

/// What one present did: which pool segment now carries the frame's bytes,
/// the buffer request the driver makes of the real shared-memory allocator,
/// and the protocol messages to send, in order.
#[derive(Debug, PartialEq)]
pub struct PresentReceipt {
    /// Index of the pool segment the frame was written into.
    pub segment: usize,
    /// Buffer width in pixels, as the buffer request takes it.
    pub width: i32,
    /// Buffer height in pixels, as the buffer request takes it.
    pub height: i32,
    /// Row stride in bytes: `4 * width`, no padding.
    pub stride: i32,
    /// The fixed pixel format of the buffer request.
    pub format: ShmFormat,
    /// The attach / damage / commit sequence for the driver.
    pub commands: Vec<WlCommand>,
}

impl WaylandImpl {
    /// Check the native handles' backend tags.
    ///
    /// A handle tagged for another backend is rejected with
    /// `BackendMismatch`; the check comes before any native work, so a
    /// mismatched handle never reaches the display server. On success the
    /// plain handle values are returned for the driver, which performs the
    /// discovery round trip and then completes the binding through
    /// [`WaylandImpl::new_safe`].
    pub fn new(window_handle: NativeWindowHandle, display_handle: NativeDisplayHandle) -> (r:
        Result<WaylandBind, SoftBufferError>)
        ensures
            (window_handle.kind() != HandleKind::Wayland || display_handle.kind()
                != HandleKind::Wayland) ==> r == Err::<WaylandBind, SoftBufferError>(
                SoftBufferError::BackendMismatch,
            ),
            window_handle matches NativeWindowHandle::Wayland { surface } ==> (
            display_handle matches NativeDisplayHandle::Wayland { display } ==> r == Ok::<
                WaylandBind,
                SoftBufferError,
            >(WaylandBind { surface, display })),
    {
        match (window_handle, display_handle) {
            (
                NativeWindowHandle::Wayland { surface },
                NativeDisplayHandle::Wayland { display },
            ) => Ok(WaylandBind { surface, display }),
            _ => Err(SoftBufferError::BackendMismatch),
        }
    }

    /// Complete the binding from the driver's handshake outcome.
    ///
    /// A failed round trip is fatal as `ProtocolRoundTripFailed`; an absent
    /// shared-memory global as `PlatformUnsupported`; a pool allocator that
    /// could not be instantiated as `AllocationFailed`. None is retried. On
    /// success the surface starts with an empty pool and the negotiated
    /// interface version; no partially usable surface is ever returned.
    pub fn new_safe(bind: WaylandBind, outcome: HandshakeOutcome) -> (r: Result<
        WaylandImpl,
        SoftBufferError,
    >)
        ensures
            !outcome.roundtrip_ok ==> r == Err::<WaylandImpl, SoftBufferError>(
                SoftBufferError::ProtocolRoundTripFailed,
            ),
            outcome.roundtrip_ok && !outcome.shm_available ==> r == Err::<
                WaylandImpl,
                SoftBufferError,
            >(SoftBufferError::PlatformUnsupported),
            outcome.roundtrip_ok && outcome.shm_available && !outcome.pool_created ==> r == Err::<
                WaylandImpl,
                SoftBufferError,
            >(SoftBufferError::AllocationFailed),
            outcome.roundtrip_ok && outcome.shm_available && outcome.pool_created ==> (r matches Ok(
                w,
            ) && w@ == (WlView {
                surface: bind.surface,
                version: outcome.surface_version,
                pool: Seq::<SegView>::empty(),
            })),
    {
        if !outcome.roundtrip_ok {
            Err(SoftBufferError::ProtocolRoundTripFailed)
        } else if !outcome.shm_available {
            Err(SoftBufferError::PlatformUnsupported)
        } else if !outcome.pool_created {
            Err(SoftBufferError::AllocationFailed)
        } else {
            Ok(
                WaylandImpl {
                    surface: bind.surface,
                    version: outcome.surface_version,
                    pool: ShmPool::new(),
                },
            )
        }
    }

    /// The negotiated version of the surface's protocol interface.
    pub fn surface_version(&self) -> (v: u32)
        ensures
            v == self@.version,
    {
        self.version
    }

    /// The number of pool segments.
    pub fn pool_len(&self) -> (n: usize)
        ensures
            n == self@.pool.len(),
    {
        self.pool.len()
    }

    /// Read the bytes of a pool segment — what the compositor sees of the
    /// buffer carved from it.
    pub fn segment_bytes(&self, idx: usize) -> (r: &Vec<u8>)
        requires
            idx < self@.pool.len(),
        ensures
            r@ == self@.pool[idx as int].bytes,
    {
        self.pool.segment_bytes(idx)
    }

    /// Present a frame: carve a buffer region of exactly `4 * width *
    /// height` bytes from the pool, copy the serialized pixels into it, and
    /// emit attach at the origin, full-frame damage — in buffer coordinates
    /// from interface version 4 on, else in surface coordinates — and
    /// commit.
    pub fn set_buffer_safe(&mut self, buffer: &Vec<u32>, width: u16, height: u16) -> (r:
        PresentReceipt)
        requires
            width > 0,
            height > 0,
            buffer@.len() == (width as nat) * (height as nat),
            4 * (width as int) * (height as int) <= usize::MAX,
        ensures
            final(self)@.surface == old(self)@.surface,
            final(self)@.version == old(self)@.version,
            r.commands@ == present_commands(old(self)@.version, width, height),
            r.width == width as i32,
            r.height == height as i32,
            r.stride == 4 * (width as i32),
            r.format == ShmFormat::Xrgb8888,
            r.segment < final(self)@.pool.len(),
            final(self)@.pool[r.segment as int].bytes == bytes_of(buffer@),
            final(self)@.pool[r.segment as int].free == false,
            (exists|i: int|
                0 <= i < old(self)@.pool.len() && seg_fits(
                    #[trigger] old(self)@.pool[i],
                    frame_bytes_len(width, height),
                )) ==> (r.segment < old(self)@.pool.len() && seg_fits(
                old(self)@.pool[r.segment as int],
                frame_bytes_len(width, height),
            ) && final(self)@.pool
                == old(self)@.pool.update(
                r.segment as int,
                (SegView {
                    cap: old(self)@.pool[r.segment as int].cap,
                    bytes: bytes_of(buffer@),
                    free: false,
                }),
            )),
            !(exists|i: int|
                0 <= i < old(self)@.pool.len() && seg_fits(
                    #[trigger] old(self)@.pool[i],
                    frame_bytes_len(width, height),
                )) ==> (r.segment == old(self)@.pool.len() && final(self)@.pool
                == old(self)@.pool.push(
                (SegView {
                    cap: frame_bytes_len(width, height),
                    bytes: bytes_of(buffer@),
                    free: false,
                }),
            )),
    {
        proof {
            assert((width as int) * (height as int) <= usize::MAX && 4 * ((width as int) * (
            height as int)) <= usize::MAX) by (nonlinear_arith)
                requires
                    width >= 0,
                    height >= 0,
                    4 * (width as int) * (height as int) <= usize::MAX,
            ;
        }
        let count = (width as usize) * (height as usize);
        let byte_len = 4 * count;
        let bytes = pack_pixels(buffer);
        let ghost pool0 = self@.pool;
        let idx = self.pool.acquire(byte_len);
        proof {
            assert(4 * ((width as int) * (height as int)) == 4 * (width as int) * (
            height as int)) by (nonlinear_arith);
            assert(byte_len as nat == frame_bytes_len(width, height));
            assert(bytes@.len() == 4 * buffer@.len());
        }
        self.pool.write_segment(idx, &bytes);
        proof {
            let ghost need = frame_bytes_len(width, height);
            if exists|i: int| 0 <= i < pool0.len() && seg_fits(#[trigger] pool0[i], need) {
                assert(self@.pool =~= pool0.update(
                    idx as int,
                    (SegView { cap: pool0[idx as int].cap, bytes: bytes@, free: false }),
                ));
            } else {
                assert(self@.pool =~= pool0.push(
                    (SegView { cap: need, bytes: bytes@, free: false }),
                ));
            }
        }
        let mut commands: Vec<WlCommand> = Vec::new();
        commands.push(WlCommand::Attach { x: 0, y: 0 });
        if self.version >= 4 {
            commands.push(
                WlCommand::DamageBuffer { x: 0, y: 0, width: width as i32, height: height as i32 },
            );
        } else {
            commands.push(
                WlCommand::DamageSurface { x: 0, y: 0, width: width as i32, height: height as i32 },
            );
        }
        commands.push(WlCommand::Commit);
        proof {
            assert(commands@ =~= present_commands(self@.version, width, height));
        }
        PresentReceipt {
            segment: idx,
            width: width as i32,
            height: height as i32,
            stride: 4 * (width as i32),
            format: ShmFormat::Xrgb8888,
            commands,
        }
    }

    /// Present a frame. The generic present entry point of this backend:
    /// identical in behaviour to [`WaylandImpl::set_buffer_safe`].
    pub fn set_buffer(&mut self, buffer: &Vec<u32>, width: u16, height: u16) -> (r: PresentReceipt)
        requires
            width > 0,
            height > 0,
            buffer@.len() == (width as nat) * (height as nat),
            4 * (width as int) * (height as int) <= usize::MAX,
        ensures
            final(self)@.surface == old(self)@.surface,
            final(self)@.version == old(self)@.version,
            r.commands@ == present_commands(old(self)@.version, width, height),
            r.width == width as i32,
            r.height == height as i32,
            r.stride == 4 * (width as i32),
            r.format == ShmFormat::Xrgb8888,
            r.segment < final(self)@.pool.len(),
            final(self)@.pool[r.segment as int].bytes == bytes_of(buffer@),
            final(self)@.pool[r.segment as int].free == false,
            (exists|i: int|
                0 <= i < old(self)@.pool.len() && seg_fits(
                    #[trigger] old(self)@.pool[i],
                    frame_bytes_len(width, height),
                )) ==> (r.segment < old(self)@.pool.len() && seg_fits(
                old(self)@.pool[r.segment as int],
                frame_bytes_len(width, height),
            ) && final(self)@.pool
                == old(self)@.pool.update(
                r.segment as int,
                (SegView {
                    cap: old(self)@.pool[r.segment as int].cap,
                    bytes: bytes_of(buffer@),
                    free: false,
                }),
            )),
            !(exists|i: int|
                0 <= i < old(self)@.pool.len() && seg_fits(
                    #[trigger] old(self)@.pool[i],
                    frame_bytes_len(width, height),
                )) ==> (r.segment == old(self)@.pool.len() && final(self)@.pool
                == old(self)@.pool.push(
                (SegView {
                    cap: frame_bytes_len(width, height),
                    bytes: bytes_of(buffer@),
                    free: false,
                }),
            )),
    {
        self.set_buffer_safe(buffer, width, height)
    }

    /// Record that the compositor handed a presented buffer back: its
    /// segment becomes free for reuse.
    pub fn buffer_released(&mut self, idx: usize)
        requires
            idx < old(self)@.pool.len(),
        ensures
            final(self)@ == (WlView {
                pool: old(self)@.pool.update(
                    idx as int,
                    (SegView { free: true, ..old(self)@.pool[idx as int] }),
                ),
                ..old(self)@
            }),
    {
        self.pool.release(idx);
    }
}

} // verus!
