use softbuffer::pixel::{pack_pixels, zeroed_bytes, zeroed_pixels};

#[test]
fn pack_pixels_little_endian_exact() {
    let pixels: Vec<u32> = vec![0x00112233, 0xFFEEDDCC];
    let bytes = pack_pixels(&pixels);
    assert_eq!(bytes, vec![0x33, 0x22, 0x11, 0x00, 0xCC, 0xDD, 0xEE, 0xFF]);
}

#[test]
fn pack_pixels_empty() {
    let pixels: Vec<u32> = Vec::new();
    let bytes = pack_pixels(&pixels);
    assert!(bytes.is_empty());
}

#[test]
fn zeroed_allocations() {
    let px = zeroed_pixels(6);
    assert_eq!(px, vec![0u32; 6]);
    let by = zeroed_bytes(5);
    assert_eq!(by, vec![0u8; 5]);
}
