//! Which desktop a Linux session runs.

use vstd::prelude::*;
use crate::platform::DisplayServer;
use crate::text::{ascii_lower, eq_ignore_ascii_case, trim, trim_str};

verus! {

/// The desktop of a Linux session.
#[derive(Debug, Clone, Copy, PartialEq, Eq, Structural)]
pub enum LinuxDisplayEnvironment {
    Wayland,
    X11,
    Headless,
}

/// The display server a Linux desktop corresponds to.
pub open spec fn display_server_of(e: LinuxDisplayEnvironment) -> DisplayServer {
    match e {
        LinuxDisplayEnvironment::Wayland => DisplayServer::Wayland,
        LinuxDisplayEnvironment::X11 => DisplayServer::X11,
        LinuxDisplayEnvironment::Headless => DisplayServer::Unknown,
    }
}

impl LinuxDisplayEnvironment {
    /// The display server this desktop corresponds to.
    pub fn to_display_server(self) -> (r: DisplayServer)
        ensures
            r == display_server_of(self),
    {
        match self {
            LinuxDisplayEnvironment::Wayland => DisplayServer::Wayland,
            LinuxDisplayEnvironment::X11 => DisplayServer::X11,
            LinuxDisplayEnvironment::Headless => DisplayServer::Unknown,
        }
    }
}


/// The session variables that decide the desktop, as read from the
/// environment (`None` when a variable is unset or not valid Unicode).
pub struct SessionVars {
    pub xdg_session_type: Option<String>,
    pub wayland_display: Option<String>,
    pub xdg_runtime_dir: Option<String>,
    pub display: Option<String>,
}

/// Whether `v`, trimmed, names `word` regardless of ASCII case.
pub open spec fn names(v: Seq<char>, word: Seq<char>) -> bool {
    ascii_lower(trim(v)) == ascii_lower(word)
}

/// Whether `f` may answer `b` when asked whether the Wayland socket
/// `display` exists in `runtime_dir`.
pub open spec fn socket_answered<F: Fn(&str, &str) -> bool>(f: F, runtime_dir: Seq<char>, display: Seq<char>, b: bool) -> bool {
    exists|r: &str, d: &str| r@ == runtime_dir && d@ == display && #[trigger] f.ensures((r, d), b)
}

/// Whether a Wayland session is active, given the answer `socket` of the
/// socket check (read only when `XDG_RUNTIME_DIR` is set): an explicit
/// session type `x11` or `wayland` decides; otherwise a non-empty
/// `WAYLAND_DISPLAY` does, through the socket check when the runtime
/// directory is known.
pub open spec fn wayland_active(vars: SessionVars, socket: bool) -> bool {
    if vars.xdg_session_type is Some && names(vars.xdg_session_type->0@, "x11"@) {
        false
    } else if vars.xdg_session_type is Some && names(vars.xdg_session_type->0@, "wayland"@) {
        true
    } else if vars.wayland_display is Some && trim(vars.wayland_display->0@).len() > 0 {
        if vars.xdg_runtime_dir is Some { socket } else { true }
    } else {
        false
    }
}

/// Whether the socket check is consulted for these variables.
pub open spec fn asks_socket(vars: SessionVars) -> bool {
    &&& !(vars.xdg_session_type is Some && names(vars.xdg_session_type->0@, "x11"@))
    &&& !(vars.xdg_session_type is Some && names(vars.xdg_session_type->0@, "wayland"@))
    &&& vars.wayland_display is Some && trim(vars.wayland_display->0@).len() > 0
    &&& vars.xdg_runtime_dir is Some
}

/// Whether an X11 display is set: `DISPLAY` is non-empty once trimmed.
pub open spec fn x11_active(vars: SessionVars) -> bool {
    vars.display is Some && trim(vars.display->0@).len() > 0
}

/// The desktop, given the answer of the socket check.
pub open spec fn probe_spec(vars: SessionVars, socket: bool) -> LinuxDisplayEnvironment {
    if wayland_active(vars, socket) {
        LinuxDisplayEnvironment::Wayland
    } else if x11_active(vars) {
        LinuxDisplayEnvironment::X11
    } else {
        LinuxDisplayEnvironment::Headless
    }
}

fn names_word(v: &str, word: &str) -> (r: bool)
    ensures
        r == names(v@, word@),
{
    let t = trim_str(v);
    eq_ignore_ascii_case(t.as_str(), word)
}

fn is_wayland_active<F: Fn(&str, &str) -> bool>(vars: &SessionVars, socket_exists: &F) -> (r: bool)
    requires
        forall|a: &str, b: &str| #[trigger] socket_exists.requires((a, b)),
    ensures
        asks_socket(*vars) ==> exists|b: bool|
            #[trigger] socket_answered(*socket_exists, vars.xdg_runtime_dir->0@, trim(vars.wayland_display->0@), b)
                && r == b,
        !asks_socket(*vars) ==> r == wayland_active(*vars, false),
{
    if let Some(session_type) = &vars.xdg_session_type {
        if names_word(session_type.as_str(), "x11") {
            return false;
        }
        if names_word(session_type.as_str(), "wayland") {
            return true;
        }
    }
    if let Some(wayland_display) = &vars.wayland_display {
        let trimmed = trim_str(wayland_display.as_str());
        if trimmed.unicode_len() > 0 {
            if let Some(runtime_dir) = &vars.xdg_runtime_dir {
                let b = socket_exists(runtime_dir.as_str(), trimmed.as_str());
                assert(socket_answered(*socket_exists, vars.xdg_runtime_dir->0@, trim(vars.wayland_display->0@), b));
                return b;
            }
            return true;
        }
    }
    false
}

fn is_x11_active(vars: &SessionVars) -> (r: bool)
    ensures
        r == x11_active(*vars),
{
    if let Some(v) = &vars.display {
        trim_str(v.as_str()).unicode_len() > 0
    } else {
        false
    }
}

impl LinuxDisplayEnvironment {
    /// The desktop of the session that `vars` describe; `socket_exists(dir,
    /// name)` says whether the Wayland socket `name` exists in the runtime
    /// directory `dir`, and is asked only when those decide.
    pub fn probe<F: Fn(&str, &str) -> bool>(vars: &SessionVars, socket_exists: F) -> (r: Self)
        requires
            forall|a: &str, b: &str| #[trigger] socket_exists.requires((a, b)),
        ensures
            !asks_socket(*vars) ==> r == probe_spec(*vars, false),
            asks_socket(*vars) ==> exists|b: bool|
                #[trigger] socket_answered(socket_exists, vars.xdg_runtime_dir->0@, trim(vars.wayland_display->0@), b)
                    && r == probe_spec(*vars, b),
    {
        let w = is_wayland_active(vars, &socket_exists);
        if w {
            LinuxDisplayEnvironment::Wayland
        } else if is_x11_active(vars) {
            LinuxDisplayEnvironment::X11
        } else {
            LinuxDisplayEnvironment::Headless
        }
    }
}

} // verus!
