//! The retained compositing-layer backend.
//!
//! Binding retains the native window, installs a child compositing layer and
//! caches a device color space; presenting wraps the frame's bytes in an
//! image descriptor and swaps it into the layer inside a transaction that
//! suppresses implicit animation. The backend never touches the native
//! objects itself: every native effect is emitted as a [`CgAction`] for the
//! driver to perform, in the exact order the contracts state, so the retain /
//! release discipline over the window handle is provable.

use vstd::prelude::*;

use crate::pixel::{bytes_of, pack_pixels, zeroed_pixels};
use crate::{HandleKind, NativeWindowHandle, Rect, SoftBufferError};

verus! {

/// One native effect of this backend, as plain data for the driver to
/// perform.
#[derive(Clone, Copy, Debug, PartialEq, Eq, Structural)]
pub enum CgAction {
    /// Increment the OS retain count of the native window.
    RetainWindow,
    /// Create the child compositing layer.
    CreateLayer,
    /// Anchor the layer's contents at the top-left corner.
    SetContentsGravityTopLeft,
    /// Keep a bounds change from being read as "contents need redisplay", so
    /// a buffer swap is never treated as a size change.
    DisableNeedsDisplayOnBoundsChange,
    /// Install the layer's host view as a subview that follows the window's
    /// resizing.
    InstallAutoresizingSubview,
    /// Create the device RGB color space the image descriptors reference.
    CreateColorSpace,
    /// Open a transaction.
    TransactionBegin,
    /// Disable implicit animation inside the open transaction.
    TransactionDisableActions,
    /// Match the layer's contents scale to the window's backing scale factor.
    SetContentsScale,
    /// Install the new frame's image as the layer's displayed contents.
    SetContents,
    /// Commit the transaction.
    TransactionCommit,
    /// Decrement the OS retain count of the native window.
    ReleaseWindow,
}

/// The change an action makes to the window's OS retain count.
pub open spec fn action_delta(a: CgAction) -> int {
    match a {
        CgAction::RetainWindow => 1,
        CgAction::ReleaseWindow => -1,
        _ => 0,
    }
}

/// The net change a whole action sequence makes to the window's OS retain
/// count.
pub open spec fn retain_delta(s: Seq<CgAction>) -> int
    decreases s.len(),
{
    if s.len() == 0 {
        0
    } else {
        action_delta(s[0]) + retain_delta(s.skip(1))
    }
}

/// The actions binding emits: one retain, then the layer setup.
pub open spec fn bind_trace() -> Seq<CgAction> {
    seq![
        CgAction::RetainWindow,
        CgAction::CreateLayer,
        CgAction::SetContentsGravityTopLeft,
        CgAction::DisableNeedsDisplayOnBoundsChange,
        CgAction::InstallAutoresizingSubview,
        CgAction::CreateColorSpace,
    ]
}

/// The actions one present emits: the layer mutation, wrapped in an
/// animation-suppressing transaction.
pub open spec fn present_trace() -> Seq<CgAction> {
    seq![
        CgAction::TransactionBegin,
        CgAction::TransactionDisableActions,
        CgAction::SetContentsScale,
        CgAction::SetContents,
        CgAction::TransactionCommit,
    ]
}

/// The actions teardown emits: the single release of the bind-time retain.
pub open spec fn teardown_trace() -> Seq<CgAction> {
    seq![CgAction::ReleaseWindow]
}

/// The abstract state of a bound compositing-layer surface.
pub ghost struct CGView {
    /// Identity of the retained native window.
    pub window: usize,
    /// Identity of the native content view the layer was installed under.
    pub view: usize,
    /// The logical size set by `resize`, if any.
    pub size: Option<(u32, u32)>,
    /// Native actions emitted but not yet handed to the driver.
    pub pending: Seq<CgAction>,
}

/// A surface bound to a native window through the compositing-layer backend.
pub struct CGImpl {
    window: usize,
    view: usize,
    size: Option<(u32, u32)>,
    pending: Vec<CgAction>,
}

impl View for CGImpl {
    type V = CGView;

    closed spec fn view(&self) -> CGView {
        CGView { window: self.window, view: self.view, size: self.size, pending: self.pending@ }
    }
}

impl CGImpl {
    /// A stored size is positive and small enough that a frame of
    /// `4 * width * height` bytes can be addressed.
    pub open spec fn wf(self) -> bool {
        self@.size matches Some(wh) ==> wh.0 > 0 && wh.1 > 0 && 4 * (wh.0 as int) * (
        wh.1 as int) <= usize::MAX
    }

    /// Bind a native window handle.
    ///
    /// The handle's backend tag is checked first: a handle tagged for any
    /// other backend is rejected with `BackendMismatch` before any native
    /// action is emitted. On success the surface starts with no size set and
    /// with the bind actions — exactly one window retain, then the layer
    /// setup — pending for the driver.
    pub fn new(handle: NativeWindowHandle) -> (r: Result<CGImpl, SoftBufferError>)
        ensures
            handle.kind() != HandleKind::AppKit ==> r == Err::<CGImpl, SoftBufferError>(
                SoftBufferError::BackendMismatch,
            ),
            handle matches NativeWindowHandle::AppKit { ns_window, ns_view } ==> (r matches Ok(s)
                && s@ == (CGView {
                window: ns_window,
                view: ns_view,
                size: None,
                pending: bind_trace(),
            }) && s.wf()),
    {
        match handle {
            NativeWindowHandle::AppKit { ns_window, ns_view } => {
                let mut pending: Vec<CgAction> = Vec::new();
                pending.push(CgAction::RetainWindow);
                pending.push(CgAction::CreateLayer);
                pending.push(CgAction::SetContentsGravityTopLeft);
                pending.push(CgAction::DisableNeedsDisplayOnBoundsChange);
                pending.push(CgAction::InstallAutoresizingSubview);
                pending.push(CgAction::CreateColorSpace);
                proof {
                    assert(pending@ =~= bind_trace());
                }
                Ok(CGImpl { window: ns_window, view: ns_view, size: None, pending })
            },
            _ => Err(SoftBufferError::BackendMismatch),
        }
    }

    /// Store the logical size of the next frames.
    ///
    /// A pure state update: nothing is allocated and no native action is
    /// emitted; only the last size stored before a buffer request takes
    /// effect.
    pub fn resize(&mut self, width: u32, height: u32) -> (r: Result<(), SoftBufferError>)
        requires
            width > 0,
            height > 0,
            4 * (width as int) * (height as int) <= usize::MAX,
        ensures
            r == Ok::<(), SoftBufferError>(()),
            final(self)@ == (CGView { size: Some((width, height)), ..old(self)@ }),
            final(self).wf(),
    {
        self.size = Some((width, height));
        Ok(())
    }

    /// Hand out a fresh frame to draw into.
    ///
    /// Requested before any `resize`, this is a caller bug and fails with
    /// `PreconditionViolated`; it never falls back to an empty size. With a
    /// size `(w, h)` set, the frame holds exactly `w * h` pixels, all zero:
    /// no pixel of any earlier frame is ever exposed, whatever was presented
    /// before.
    pub fn buffer_mut(&mut self) -> (r: Result<BufferImpl, SoftBufferError>)
        requires
            old(self).wf(),
        ensures
            final(self)@ == old(self)@,
            old(self)@.size is None ==> r == Err::<BufferImpl, SoftBufferError>(
                SoftBufferError::PreconditionViolated,
            ),
            old(self)@.size matches Some(wh) ==> (r matches Ok(b) && b@ == (BufView {
                width: wh.0,
                height: wh.1,
                pixels: Seq::new((wh.0 as nat) * (wh.1 as nat), |i: int| 0u32),
            }) && b.wf()),
    {
        match self.size {
            None => Err(SoftBufferError::PreconditionViolated),
            Some((width, height)) => {
                proof {
                    assert((width as int) * (height as int) <= usize::MAX) by (nonlinear_arith)
                        requires
                            width >= 0,
                            height >= 0,
                            4 * (width as int) * (height as int) <= usize::MAX,
                    ;
                }
                let count = (width as usize) * (height as usize);
                Ok(BufferImpl { width, height, buffer: zeroed_pixels(count) })
            },
        }
    }

    /// Read the presented contents back from the window.
    ///
    /// Intentionally unsupported on this backend.
    pub fn fetch(&mut self) -> (r: Result<Vec<u32>, SoftBufferError>)
        ensures
            final(self)@ == old(self)@,
            r == Err::<Vec<u32>, SoftBufferError>(SoftBufferError::Unimplemented),
    {
        Err(SoftBufferError::Unimplemented)
    }

    /// Hand the emitted-but-unperformed native actions to the driver.
    pub fn take_actions(&mut self) -> (acts: Vec<CgAction>)
        ensures
            acts@ == old(self)@.pending,
            final(self)@ == (CGView { pending: Seq::empty(), ..old(self)@ }),
    {
        let mut out: Vec<CgAction> = Vec::new();
        core::mem::swap(&mut out, &mut self.pending);
        out
    }

    /// Release the surface: emits the single release balancing the bind-time
    /// retain. Consuming `self` makes a second release impossible.
    pub fn teardown(self) -> (acts: Vec<CgAction>)
        ensures
            acts@ == teardown_trace(),
    {
        let mut out: Vec<CgAction> = Vec::new();
        out.push(CgAction::ReleaseWindow);
        proof {
            assert(out@ =~= teardown_trace());
        }
        out
    }
}

/// The abstract state of a frame under construction.
pub ghost struct BufView {
    pub width: u32,
    pub height: u32,
    /// The packed `0x00RRGGBB` pixels, row-major.
    pub pixels: Seq<u32>,
}

/// One frame's worth of packed pixels, owned exclusively by the caller until
/// a present call consumes it.
pub struct BufferImpl {
    width: u32,
    height: u32,
    buffer: Vec<u32>,
}

impl View for BufferImpl {
    type V = BufView;

    closed spec fn view(&self) -> BufView {
        BufView { width: self.width, height: self.height, pixels: self.buffer@ }
    }
}

/// The presentation plan a frame turns into: the image descriptor of the
/// packed 32-bit format, the serialized bytes, and the transaction-wrapped
/// layer mutation.
pub ghost struct CgFrameView {
    pub width: u32,
    pub height: u32,
    pub bits_per_component: u32,
    pub bits_per_pixel: u32,
    /// Row stride in bytes: `4 * width`, no padding.
    pub bytes_per_row: int,
    /// 32-bit little-endian byte order.
    pub byte_order_little_endian: bool,
    /// The alpha channel is skipped: the top byte of each pixel is ignored.
    pub alpha_none_skip_first: bool,
    pub rendering_intent_default: bool,
    /// The frame's bytes, little-endian packed.
    pub data: Seq<u8>,
    /// The native actions of the present, in order.
    pub actions: Seq<CgAction>,
}

/// The one plan a frame's pixels determine. `present` and
/// `present_with_damage` both produce exactly this plan: this backend has no
/// notion of partial damage, so a damage hint is accepted but ignored and a
/// damaged present behaves identically to a full present.
pub open spec fn cg_frame_plan(b: BufView) -> CgFrameView {
    CgFrameView {
        width: b.width,
        height: b.height,
        bits_per_component: 8,
        bits_per_pixel: 32,
        bytes_per_row: 4 * b.width,
        byte_order_little_endian: true,
        alpha_none_skip_first: true,
        rendering_intent_default: true,
        data: bytes_of(b.pixels),
        actions: present_trace(),
    }
}

/// The executable presentation plan handed to the driver.
#[derive(Debug, PartialEq)]
pub struct CgFrame {
    pub width: u32,
    pub height: u32,
    pub bits_per_component: u32,
    pub bits_per_pixel: u32,
    pub bytes_per_row: usize,
    pub byte_order_little_endian: bool,
    pub alpha_none_skip_first: bool,
    pub rendering_intent_default: bool,
    pub data: Vec<u8>,
    pub actions: Vec<CgAction>,
}

impl View for CgFrame {
    type V = CgFrameView;

    closed spec fn view(&self) -> CgFrameView {
        CgFrameView {
            width: self.width,
            height: self.height,
            bits_per_component: self.bits_per_component,
            bits_per_pixel: self.bits_per_pixel,
            bytes_per_row: self.bytes_per_row as int,
            byte_order_little_endian: self.byte_order_little_endian,
            alpha_none_skip_first: self.alpha_none_skip_first,
            rendering_intent_default: self.rendering_intent_default,
            data: self.data@,
            actions: self.actions@,
        }
    }
}

impl BufferImpl {
    /// A frame holds exactly `width * height` pixels, and a frame's bytes can
    /// be addressed.
    pub open spec fn wf(self) -> bool {
        &&& self@.width > 0
        &&& self@.height > 0
        &&& self@.pixels.len() == (self@.width as nat) * (self@.height as nat)
        &&& 4 * (self@.width as int) * (self@.height as int) <= usize::MAX
    }

    /// Read the frame's pixels.
    pub fn pixels(&self) -> (r: &[u32])
        ensures
            r@ == self@.pixels,
    {
        self.buffer.as_slice()
    }

    /// Write the frame's pixels, through a view that cannot change their
    /// number: `len == width * height` holds from the frame's creation to
    /// its consumption by a present call.
    pub fn pixels_mut(&mut self) -> (r: &mut [u32])
        ensures
            (*r)@ == old(self)@.pixels,
            final(self)@ == (BufView { pixels: (*final(r))@, ..old(self)@ }),
    {
        self.buffer.as_mut_slice()
    }

    /// The number of presents since this frame's contents were last valid.
    ///
    /// Always zero: a frame is created fresh and zeroed, so its whole extent
    /// is to be treated as undefined and repainted.
    pub fn age(&self) -> (r: u8)
        ensures
            r == 0,
    {
        0
    }

    /// Present the frame: serialize the pixels and produce the image
    /// descriptor and the transaction-wrapped layer mutation for the driver.
    /// The frame is consumed; it cannot be touched after presenting.
    pub fn present(self) -> (r: Result<CgFrame, SoftBufferError>)
        requires
            self.wf(),
        ensures
            r matches Ok(f) && f@ == cg_frame_plan(self@),
    {
        proof {
            assert(4 * self@.pixels.len() <= usize::MAX && 4 * (self@.width as int)
                <= usize::MAX) by (nonlinear_arith)
                requires
                    self@.width >= 1,
                    self@.height >= 1,
                    self@.pixels.len() == (self@.width as nat) * (self@.height as nat),
                    4 * (self@.width as int) * (self@.height as int) <= usize::MAX,
            ;
        }
        let data = pack_pixels(&self.buffer);
        let mut actions: Vec<CgAction> = Vec::new();
        actions.push(CgAction::TransactionBegin);
        actions.push(CgAction::TransactionDisableActions);
        actions.push(CgAction::SetContentsScale);
        actions.push(CgAction::SetContents);
        actions.push(CgAction::TransactionCommit);
        proof {
            assert(actions@ =~= present_trace());
        }
        Ok(
            CgFrame {
                width: self.width,
                height: self.height,
                bits_per_component: 8,
                bits_per_pixel: 32,
                bytes_per_row: (self.width as usize) * 4,
                byte_order_little_endian: true,
                alpha_none_skip_first: true,
                rendering_intent_default: true,
                data,
                actions,
            },
        )
    }

    /// Present the frame with a damage hint.
    ///
    /// This backend has no notion of partial damage: the hint — empty or not
    /// — is ignored, and the produced plan is identical to the one `present`
    /// produces for the same frame.
    pub fn present_with_damage(self, damage: &Vec<Rect>) -> (r: Result<CgFrame, SoftBufferError>)
        requires
            self.wf(),
        ensures
            r matches Ok(f) && f@ == cg_frame_plan(self@),
    {
        let _ = damage;
        self.present()
    }
}

/// Appending action sequences adds their retain deltas.
pub proof fn lemma_retain_delta_concat(a: Seq<CgAction>, b: Seq<CgAction>)
    ensures
        retain_delta(a + b) == retain_delta(a) + retain_delta(b),
    decreases a.len(),
{
    if a.len() == 0 {
        assert(a + b =~= b);
    } else {
        assert((a + b).skip(1) =~= a.skip(1) + b);
        lemma_retain_delta_concat(a.skip(1), b);
    }
}

/// A sequence of retain-neutral actions has retain delta zero.
pub proof fn lemma_retain_delta_neutral(s: Seq<CgAction>)
    requires
        forall|i: int| 0 <= i < s.len() ==> action_delta(#[trigger] s[i]) == 0,
    ensures
        retain_delta(s) == 0,
    decreases s.len(),
{
    if s.len() > 0 {
        assert forall|i: int| 0 <= i < s.skip(1).len() implies action_delta(
            #[trigger] s.skip(1)[i],
        ) == 0 by {
            assert(s.skip(1)[i] == s[i + 1]);
        }
        lemma_retain_delta_neutral(s.skip(1));
    }
}

/// Binding retains the window exactly once.
pub proof fn lemma_bind_trace_delta()
    ensures
        retain_delta(bind_trace()) == 1,
{
    let s = bind_trace();
    assert forall|i: int| 0 <= i < s.skip(1).len() implies action_delta(#[trigger] s.skip(1)[i])
        == 0 by {
        assert(s.skip(1)[i] == s[i + 1]);
    }
    lemma_retain_delta_neutral(s.skip(1));
    assert(retain_delta(s) == action_delta(s[0]) + retain_delta(s.skip(1)));
}

/// A present never retains or releases the window.
pub proof fn lemma_present_trace_delta()
    ensures
        retain_delta(present_trace()) == 0,
{
    lemma_retain_delta_neutral(present_trace());
}

/// Teardown releases the window exactly once.
pub proof fn lemma_teardown_trace_delta()
    ensures
        retain_delta(teardown_trace()) == -1,
{
    let s = teardown_trace();
    assert(s.skip(1) =~= Seq::<CgAction>::empty());
    assert(retain_delta(s) == action_delta(s[0]) + retain_delta(s.skip(1)));
}

/// A concatenation of retain-balanced frame traces is retain-balanced.
pub proof fn lemma_retain_delta_flatten_zero(frames: Seq<Seq<CgAction>>)
    requires
        forall|i: int| 0 <= i < frames.len() ==> retain_delta(#[trigger] frames[i]) == 0,
    ensures
        retain_delta(frames.flatten()) == 0,
    decreases frames.len(),
{
    if frames.len() == 0 {
        assert(frames.flatten() =~= Seq::<CgAction>::empty());
    } else {
        assert(frames.flatten() == frames.first() + frames.drop_first().flatten());
        assert forall|i: int| 0 <= i < frames.drop_first().len() implies retain_delta(
            #[trigger] frames.drop_first()[i],
        ) == 0 by {
            assert(frames.drop_first()[i] == frames[i + 1]);
        }
        lemma_retain_delta_flatten_zero(frames.drop_first());
        lemma_retain_delta_concat(frames.first(), frames.drop_first().flatten());
    }
}

/// Over a whole surface lifetime — one bind, any number of presented frames,
/// one teardown — the window's OS retain count returns to its pre-bind value:
/// the session's native actions have retain delta zero.
pub proof fn lemma_session_retain_balanced(
    bind: Seq<CgAction>,
    frames: Seq<Seq<CgAction>>,
    close: Seq<CgAction>,
)
    requires
        retain_delta(bind) == 1,
        forall|i: int| 0 <= i < frames.len() ==> retain_delta(#[trigger] frames[i]) == 0,
        retain_delta(close) == -1,
    ensures
        retain_delta(bind + frames.flatten() + close) == 0,
{
    lemma_retain_delta_flatten_zero(frames);
    lemma_retain_delta_concat(bind, frames.flatten());
    lemma_retain_delta_concat(bind + frames.flatten(), close);
}

} // verus!
