use softbuffer::wayland::{HandshakeOutcome, ShmFormat, WaylandBind, WaylandImpl, WlCommand};
use softbuffer::{NativeDisplayHandle, NativeWindowHandle, SoftBufferError};

fn outcome(version: u32) -> HandshakeOutcome {
    HandshakeOutcome {
        roundtrip_ok: true,
        shm_available: true,
        pool_created: true,
        surface_version: version,
    }
}

fn bound_surface(version: u32) -> WaylandImpl {
    let bind = WaylandImpl::new(
        NativeWindowHandle::Wayland { surface: 0x10 },
        NativeDisplayHandle::Wayland { display: 0x20 },
    )
    .unwrap();
    WaylandImpl::new_safe(bind, outcome(version)).unwrap()
}

#[test]
fn tag_check_accepts_matching_handles() {
    let bind = WaylandImpl::new(
        NativeWindowHandle::Wayland { surface: 0x11 },
        NativeDisplayHandle::Wayland { display: 0x22 },
    )
    .unwrap();
    assert_eq!(bind, WaylandBind { surface: 0x11, display: 0x22 });
}

#[test]
fn tag_check_rejects_mismatched_handles() {
    let r = WaylandImpl::new(
        NativeWindowHandle::AppKit { ns_window: 1, ns_view: 2 },
        NativeDisplayHandle::Wayland { display: 0x22 },
    );
    assert_eq!(r.err(), Some(SoftBufferError::BackendMismatch));
    let r = WaylandImpl::new(
        NativeWindowHandle::Wayland { surface: 0x11 },
        NativeDisplayHandle::AppKit,
    );
    assert_eq!(r.err(), Some(SoftBufferError::BackendMismatch));
}

#[test]
fn failed_roundtrip_is_fatal() {
    let bind = WaylandBind { surface: 1, display: 2 };
    let mut o = outcome(4);
    o.roundtrip_ok = false;
    let r = WaylandImpl::new_safe(bind, o);
    assert_eq!(r.err(), Some(SoftBufferError::ProtocolRoundTripFailed));
}

#[test]
fn absent_shm_global_is_unsupported() {
    let bind = WaylandBind { surface: 1, display: 2 };
    let mut o = outcome(4);
    o.shm_available = false;
    let r = WaylandImpl::new_safe(bind, o);
    assert_eq!(r.err(), Some(SoftBufferError::PlatformUnsupported));
}

#[test]
fn failed_pool_creation_is_allocation_failure() {
    let bind = WaylandBind { surface: 1, display: 2 };
    let mut o = outcome(4);
    o.pool_created = false;
    let r = WaylandImpl::new_safe(bind, o);
    assert_eq!(r.err(), Some(SoftBufferError::AllocationFailed));
}

#[test]
fn version_3_damages_in_surface_coordinates() {
    let mut surface = bound_surface(3);
    let pixels = vec![0u32; 4];
    let receipt = surface.set_buffer_safe(&pixels, 2, 2);
    assert_eq!(
        receipt.commands,
        vec![
            WlCommand::Attach { x: 0, y: 0 },
            WlCommand::DamageSurface { x: 0, y: 0, width: 2, height: 2 },
            WlCommand::Commit,
        ]
    );
}

#[test]
fn version_4_damages_in_buffer_coordinates() {
    let mut surface = bound_surface(4);
    let pixels = vec![0u32; 4];
    let receipt = surface.set_buffer_safe(&pixels, 2, 2);
    assert_eq!(
        receipt.commands,
        vec![
            WlCommand::Attach { x: 0, y: 0 },
            WlCommand::DamageBuffer { x: 0, y: 0, width: 2, height: 2 },
            WlCommand::Commit,
        ]
    );
}

#[test]
fn presented_bytes_round_trip() {
    let mut surface = bound_surface(4);
    let mut pixels = vec![0u32; 4];
    // logical coordinate (x, y) = (1, 1) of a 2-wide frame
    pixels[1 * 2 + 1] = 0x00112233;
    let receipt = surface.set_buffer(&pixels, 2, 2);
    let bytes = surface.segment_bytes(receipt.segment);
    assert_eq!(bytes.len(), 16);
    assert_eq!(&bytes[4 * (1 * 2 + 1)..4 * (1 * 2 + 1) + 4], &[0x33, 0x22, 0x11, 0x00]);
    assert_eq!(&bytes[0..4], &[0x00, 0x00, 0x00, 0x00]);
}

#[test]
fn pool_grows_while_buffers_are_outstanding() {
    let mut surface = bound_surface(4);
    let pixels = vec![0u32; 4];
    let first = surface.set_buffer_safe(&pixels, 2, 2);
    let second = surface.set_buffer_safe(&pixels, 2, 2);
    assert_ne!(first.segment, second.segment);
    assert_eq!(surface.pool_len(), 2);
}

#[test]
fn pool_reuses_a_released_segment() {
    let mut surface = bound_surface(4);
    let pixels = vec![0u32; 4];
    let first = surface.set_buffer_safe(&pixels, 2, 2);
    surface.buffer_released(first.segment);
    let second = surface.set_buffer_safe(&pixels, 2, 2);
    assert_eq!(first.segment, second.segment);
    assert_eq!(surface.pool_len(), 1);
}

#[test]
fn pool_reuse_respects_capacity() {
    let mut surface = bound_surface(4);
    let small = vec![0u32; 1];
    let first = surface.set_buffer_safe(&small, 1, 1);
    surface.buffer_released(first.segment);
    let large = vec![0u32; 4];
    let second = surface.set_buffer_safe(&large, 2, 2);
    assert_ne!(first.segment, second.segment);
    assert_eq!(surface.pool_len(), 2);
}

#[test]
fn negotiated_version_is_kept() {
    let surface = bound_surface(7);
    assert_eq!(surface.surface_version(), 7);
}

#[test]
fn receipt_states_the_buffer_request() {
    let mut surface = bound_surface(4);
    let pixels = vec![0u32; 6];
    let receipt = surface.set_buffer_safe(&pixels, 3, 2);
    assert_eq!(receipt.width, 3);
    assert_eq!(receipt.height, 2);
    assert_eq!(receipt.stride, 12);
    assert_eq!(receipt.format, ShmFormat::Xrgb8888);
}
