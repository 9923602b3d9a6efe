//! Whether Windows capture can use Desktop Duplication.

use vstd::prelude::*;
use crate::platform::DisplayServer;

verus! {

/// The capture method Windows allows.
#[derive(Debug, Clone, Copy, PartialEq, Eq, Structural)]
pub enum WindowsDisplayEnvironment {
    Direct3D11,
    GdiRequired,
}

/// The display server a Windows capture method corresponds to.
pub open spec fn windows_display_server_of(e: WindowsDisplayEnvironment) -> DisplayServer {
    match e {
        WindowsDisplayEnvironment::Direct3D11 => DisplayServer::WindowsDesktop,
        WindowsDisplayEnvironment::GdiRequired => DisplayServer::WindowsHeadlessOrVm,
    }
}

impl WindowsDisplayEnvironment {
    /// Chooses the capture method: GDI when forced, in a remote desktop
    /// session (`remote_session()`), or when a Desktop Duplication test
    /// capture fails (`d3d11_available()`); each check is made only when the
    /// ones before it did not decide.
    pub fn probe<R: Fn() -> bool, D: Fn() -> bool>(
        force_gdi: bool,
        _is_hardware_encoder: bool,
        remote_session: R,
        d3d11_available: D,
    ) -> (r: Self)
        requires
            remote_session.requires(()),
            d3d11_available.requires(()),
        ensures
            force_gdi ==> r == WindowsDisplayEnvironment::GdiRequired,
            !force_gdi ==> exists|remote: bool|
                #[trigger] remote_session.ensures((), remote) && (remote ==> r
                    == WindowsDisplayEnvironment::GdiRequired) && (!remote ==> exists|d3d: bool|
                    #[trigger] d3d11_available.ensures((), d3d) && r == (if d3d {
                        WindowsDisplayEnvironment::Direct3D11
                    } else {
                        WindowsDisplayEnvironment::GdiRequired
                    })),
    {
        if force_gdi {
            return WindowsDisplayEnvironment::GdiRequired;
        }
        let remote = remote_session();
        if remote {
            return WindowsDisplayEnvironment::GdiRequired;
        }
        let d3d = d3d11_available();
        if !d3d {
            return WindowsDisplayEnvironment::GdiRequired;
        }
        WindowsDisplayEnvironment::Direct3D11
    }

    /// The display server this capture method corresponds to.
    pub fn to_display_server(self) -> (r: DisplayServer)
        ensures
            r == windows_display_server_of(self),
    {
        match self {
            WindowsDisplayEnvironment::Direct3D11 => DisplayServer::WindowsDesktop,
            WindowsDisplayEnvironment::GdiRequired => DisplayServer::WindowsHeadlessOrVm,
        }
    }
}

/// The test pipeline whose pausing tells whether Desktop Duplication works.
pub const D3D11_TEST_PIPELINE: &'static str = "d3d11screencapturesrc num-buffers=1 ! fakesink sync=false";

/// How pausing the test pipeline went.
#[derive(Debug, Clone, Copy, PartialEq, Eq, Structural)]
pub enum PauseOutcome {
    /// The pipeline paused at once.
    Success,
    /// The pipeline is pausing asynchronously.
    Async,
    /// The pipeline paused without prerolling (a live source).
    NoPreroll,
    /// The state change failed.
    Failure,
}

/// Whether Desktop Duplication works, from how the test pipeline did: it
/// must have been built (`outcome` is `None` otherwise) and have paused at
/// once or, when pausing asynchronously, have settled (`settled()`, asked
/// only then) within the wait.
pub fn duplication_usable<S: Fn() -> bool>(outcome: Option<PauseOutcome>, settled: S) -> (r: bool)
    requires
        settled.requires(()),
    ensures
        match outcome {
            Some(PauseOutcome::Success) => r,
            Some(PauseOutcome::Async) => settled.ensures((), r),
            _ => !r,
        },
{
    match outcome {
        Some(PauseOutcome::Success) => true,
        Some(PauseOutcome::Async) => settled(),
        _ => false,
    }
}

} // verus!
