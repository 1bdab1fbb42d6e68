use softbuffer::cg::{CGImpl, CgAction};
use softbuffer::{NativeWindowHandle, SoftBufferError};

fn appkit_surface() -> CGImpl {
    CGImpl::new(NativeWindowHandle::AppKit { ns_window: 0x1000, ns_view: 0x2000 }).unwrap()
}

#[test]
fn bind_emits_one_retain_then_layer_setup() {
    let mut surface = appkit_surface();
    let actions = surface.take_actions();
    assert_eq!(
        actions,
        vec![
            CgAction::RetainWindow,
            CgAction::CreateLayer,
            CgAction::SetContentsGravityTopLeft,
            CgAction::DisableNeedsDisplayOnBoundsChange,
            CgAction::InstallAutoresizingSubview,
            CgAction::CreateColorSpace,
        ]
    );
    let later = surface.take_actions();
    assert!(later.is_empty());
}

#[test]
fn bind_rejects_mismatched_handle() {
    let r = CGImpl::new(NativeWindowHandle::Wayland { surface: 0x3000 });
    assert_eq!(r.err(), Some(SoftBufferError::BackendMismatch));
    let r = CGImpl::new(NativeWindowHandle::UiKit { ui_window: 1, ui_view: 2 });
    assert_eq!(r.err(), Some(SoftBufferError::BackendMismatch));
}

#[test]
fn resize_then_buffer_is_zeroed_and_exact() {
    let mut surface = appkit_surface();
    surface.resize(3, 2).unwrap();
    let buffer = surface.buffer_mut().unwrap();
    assert_eq!(buffer.pixels().len(), 6);
    assert!(buffer.pixels().iter().all(|&p| p == 0));
}

#[test]
fn last_resize_wins() {
    let mut surface = appkit_surface();
    surface.resize(10, 10).unwrap();
    surface.resize(2, 5).unwrap();
    let buffer = surface.buffer_mut().unwrap();
    assert_eq!(buffer.pixels().len(), 10);
}

#[test]
fn buffer_before_resize_is_a_precondition_violation() {
    let mut surface = appkit_surface();
    let r = surface.buffer_mut();
    assert_eq!(r.err(), Some(SoftBufferError::PreconditionViolated));
}

#[test]
fn age_is_always_zero() {
    let mut surface = appkit_surface();
    surface.resize(2, 2).unwrap();
    let buffer = surface.buffer_mut().unwrap();
    assert_eq!(buffer.age(), 0);
}

#[test]
fn present_never_leaks_into_next_buffer() {
    let mut surface = appkit_surface();
    surface.resize(2, 2).unwrap();
    let mut buffer = surface.buffer_mut().unwrap();
    for p in buffer.pixels_mut().iter_mut() {
        *p = 0x00ABCDEF;
    }
    buffer.present().unwrap();
    let next = surface.buffer_mut().unwrap();
    assert_eq!(next.age(), 0);
    assert!(next.pixels().iter().all(|&p| p == 0));
}

#[test]
fn present_plan_descriptor_and_bytes() {
    let mut surface = appkit_surface();
    surface.resize(2, 2).unwrap();
    let mut buffer = surface.buffer_mut().unwrap();
    buffer.pixels_mut()[1] = 0x00112233;
    let frame = buffer.present().unwrap();
    assert_eq!(frame.width, 2);
    assert_eq!(frame.height, 2);
    assert_eq!(frame.bits_per_component, 8);
    assert_eq!(frame.bits_per_pixel, 32);
    assert_eq!(frame.bytes_per_row, 8);
    assert!(frame.byte_order_little_endian);
    assert!(frame.alpha_none_skip_first);
    assert!(frame.rendering_intent_default);
    // pixel (x, y) = (1, 0) of a 2-wide frame: byte offset 4 * (0 * 2 + 1)
    assert_eq!(&frame.data[4..8], &[0x33, 0x22, 0x11, 0x00]);
    assert_eq!(
        frame.actions,
        vec![
            CgAction::TransactionBegin,
            CgAction::TransactionDisableActions,
            CgAction::SetContentsScale,
            CgAction::SetContents,
            CgAction::TransactionCommit,
        ]
    );
}

#[test]
fn present_with_damage_is_identical_to_present() {
    let mut surface = appkit_surface();
    surface.resize(2, 2).unwrap();
    let mut a = surface.buffer_mut().unwrap();
    a.pixels_mut()[0] = 0x00112233;
    let mut b = surface.buffer_mut().unwrap();
    b.pixels_mut()[0] = 0x00112233;
    let plain = a.present().unwrap();
    let empty_damage = Vec::new();
    let damaged = b.present_with_damage(&empty_damage).unwrap();
    assert_eq!(plain, damaged);
}

#[test]
fn fetch_is_unimplemented() {
    let mut surface = appkit_surface();
    assert_eq!(surface.fetch().err(), Some(SoftBufferError::Unimplemented));
}

#[test]
fn retain_count_balances_over_resize_present_cycles() {
    let pre_loop_retains: i64 = 5;
    let mut retains: i64 = pre_loop_retains;
    let mut tally = |actions: &[CgAction], retains: &mut i64| {
        for a in actions {
            match a {
                CgAction::RetainWindow => *retains += 1,
                CgAction::ReleaseWindow => *retains -= 1,
                _ => {}
            }
        }
    };
    let mut surface = appkit_surface();
    tally(&surface.take_actions(), &mut retains);
    for i in 0..100 {
        if i % 2 == 0 {
            surface.resize(2, 2).unwrap();
        } else {
            surface.resize(800, 600).unwrap();
        }
        let frame = surface.buffer_mut().unwrap().present().unwrap();
        tally(&frame.actions, &mut retains);
    }
    tally(&surface.teardown(), &mut retains);
    assert_eq!(retains, pre_loop_retains);
}
