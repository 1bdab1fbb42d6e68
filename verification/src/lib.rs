//! Software rendering to a native window surface.
//!
//! The crate models the per-backend surface/buffer lifecycle of a
//! software-rendered window: a surface is bound to a tagged native handle,
//! sized through `resize`, written through a freshly zeroed pixel buffer, and
//! presented through a backend-specific command sequence. Two backends are
//! covered: a retained compositing-layer backend (`cg`) and a shared-memory
//! display-protocol backend (`wayland`). The backends never touch the native
//! objects themselves; every native effect is returned to the caller as plain
//! command data, so the decision logic here is verified for every input.

use vstd::prelude::*;

pub mod cg;
pub mod pixel;
pub mod wayland;

verus! {

/// The failure taxonomy shared by every public entry point.
///
/// No raw platform error code crosses this boundary: the driver that talks to
/// the native side maps each failure to one of these before it reaches the
/// application.
#[derive(Clone, Copy, Debug, PartialEq, Eq, Structural)]
pub enum SoftBufferError {
    /// The native handle is tagged for a different backend than the one asked
    /// to bind it. A caller bug; no native call is attempted.
    BackendMismatch,
    /// A required global or service is absent on this platform. Fatal for the
    /// surface, never retried.
    PlatformUnsupported,
    /// The synchronous handshake with the display server failed.
    ProtocolRoundTripFailed,
    /// The backend could not allocate a presentation resource.
    AllocationFailed,
    /// The operation is intentionally unsupported on this backend.
    Unimplemented,
    /// A caller-side contract was broken, such as requesting a buffer before
    /// any size was set.
    PreconditionViolated,
}

/// An axis-aligned damage rectangle, in buffer pixels.
#[derive(Clone, Copy, Debug, PartialEq, Eq, Structural)]
pub struct Rect {
    pub x: u32,
    pub y: u32,
    pub width: u32,
    pub height: u32,
}

/// The backend a native handle is tagged for.
#[derive(Clone, Copy, Debug, PartialEq, Eq, Structural)]
pub enum HandleKind {
    AppKit,
    UiKit,
    Wayland,
}

/// A native window handle, reduced to the plain values the bind logic reads:
/// the backend tag and the address-sized identities of the native objects.
#[derive(Clone, Copy, Debug, PartialEq, Eq, Structural)]
pub enum NativeWindowHandle {
    /// A macOS window and its content view.
    AppKit { ns_window: usize, ns_view: usize },
    /// An iOS window and its content view.
    UiKit { ui_window: usize, ui_view: usize },
    /// A display-protocol surface object.
    Wayland { surface: usize },
}

impl NativeWindowHandle {
    /// The backend this handle is tagged for.
    pub open spec fn kind(self) -> HandleKind {
        match self {
            NativeWindowHandle::AppKit { .. } => HandleKind::AppKit,
            NativeWindowHandle::UiKit { .. } => HandleKind::UiKit,
            NativeWindowHandle::Wayland { .. } => HandleKind::Wayland,
        }
    }
}

/// A native display handle, reduced in the same way.
#[derive(Clone, Copy, Debug, PartialEq, Eq, Structural)]
pub enum NativeDisplayHandle {
    AppKit,
    UiKit,
    /// A display-protocol connection object.
    Wayland { display: usize },
}

impl NativeDisplayHandle {
    /// The backend this handle is tagged for.
    pub open spec fn kind(self) -> HandleKind {
        match self {
            NativeDisplayHandle::AppKit => HandleKind::AppKit,
            NativeDisplayHandle::UiKit => HandleKind::UiKit,
            NativeDisplayHandle::Wayland { .. } => HandleKind::Wayland,
        }
    }
}

} // verus!
