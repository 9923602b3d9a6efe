use ferrumcast::ipc::OutboundMessage;
use ferrumcast::platform::linux::display::{LinuxDisplayEnvironment, SessionVars};
use ferrumcast::platform::linux::{
    approval_notice, effective_token, portal_wanted, startup_token, LinuxBackend, PortalDecision,
    PortalNegotiation, PortalReply, PortalStream,
};
use ferrumcast::platform::windows::display::{duplication_usable, PauseOutcome, WindowsDisplayEnvironment};
use ferrumcast::platform::windows::hypervisor_present;
use ferrumcast::platform::DisplayServer;
use std::cell::Cell;

fn s(v: &str) -> Option<String> {
    Some(v.to_string())
}

fn vars(session: Option<&str>, wayland: Option<&str>, runtime: Option<&str>, display: Option<&str>) -> SessionVars {
    SessionVars {
        xdg_session_type: session.map(|v| v.to_string()),
        wayland_display: wayland.map(|v| v.to_string()),
        xdg_runtime_dir: runtime.map(|v| v.to_string()),
        display: display.map(|v| v.to_string()),
    }
}

#[test]
fn token_file_location() {
    assert_eq!(
        LinuxBackend::resolve_token_file_path(Some("/home/u/.cfg"), Some("/home/u")),
        "/home/u/.cfg/ferrumcast.token"
    );
    assert_eq!(LinuxBackend::resolve_token_file_path(Some("/etc/"), None), "/etc/ferrumcast.token");
    assert_eq!(LinuxBackend::resolve_token_file_path(Some(""), Some("/home/u")), "ferrumcast.token");
    assert_eq!(
        LinuxBackend::resolve_token_file_path(None, Some("/home/u")),
        "/home/u/.config/ferrumcast.token"
    );
    assert_eq!(LinuxBackend::resolve_token_file_path(None, Some("/")), "/.config/ferrumcast.token");
    assert_eq!(LinuxBackend::resolve_token_file_path(None, None), "/tmp/ferrumcast.token");
}

#[test]
fn token_file_location_matches_pathbuf() {
    for base in ["/a/b", "/a/b/", "", "rel", "/"] {
        let want = std::path::PathBuf::from(base).join("ferrumcast.token");
        assert_eq!(
            LinuxBackend::resolve_token_file_path(Some(base), None),
            want.to_str().unwrap(),
            "{}",
            base
        );
        let want = std::path::PathBuf::from(base).join(".config").join("ferrumcast.token");
        assert_eq!(LinuxBackend::resolve_token_file_path(None, Some(base)), want.to_str().unwrap(), "{}", base);
    }
}

#[test]
fn portal_only_for_wayland_video() {
    assert!(portal_wanted(LinuxDisplayEnvironment::Wayland, false));
    assert!(!portal_wanted(LinuxDisplayEnvironment::Wayland, true));
    assert!(!portal_wanted(LinuxDisplayEnvironment::X11, false));
    assert!(!portal_wanted(LinuxDisplayEnvironment::Headless, false));
}

#[test]
fn tokens() {
    assert_eq!(startup_token(s("cli"), s("saved")), s("cli"));
    assert_eq!(startup_token(None, s("saved\n")), s("saved\n"));
    assert_eq!(startup_token(None, None), None);
    assert_eq!(effective_token(s("given"), s("saved")), s("given"));
    assert_eq!(effective_token(None, s("  saved\n")), s("saved"));
    assert_eq!(effective_token(None, s(" \n")), None);
    assert_eq!(effective_token(None, None), None);
}

#[test]
fn approval_notice_only_without_token() {
    assert_eq!(approval_notice(&None), Some(OutboundMessage::WaitingForPortalApproval));
    assert_eq!(approval_notice(&s("t")), None);
}

#[test]
fn refused_saved_token_is_retried_once() {
    let mut n = PortalNegotiation::new(&s("old"));
    assert_eq!(n, PortalNegotiation { offered_token: true, retried: false });
    assert_eq!(n.on_reply(PortalReply::Refused), PortalDecision::RetryWithoutToken);
    assert!(n.retried);
    assert_eq!(n.on_reply(PortalReply::Refused), PortalDecision::GiveUp);
}

#[test]
fn refusal_without_token_gives_up() {
    let mut n = PortalNegotiation::new(&None);
    assert_eq!(n.on_reply(PortalReply::Refused), PortalDecision::GiveUp);
}

#[test]
fn granted_stream_is_captured() {
    let mut n = PortalNegotiation::new(&None);
    let d = n.on_reply(PortalReply::Granted { node_id: 55, fd: 9, restore_token: s("new") });
    assert_eq!(d, PortalDecision::Capture { stream: PortalStream { node_id: 55, fd: 9 }, persist: s("new") });
    let mut n = PortalNegotiation::new(&s("old"));
    assert_eq!(n.on_reply(PortalReply::Refused), PortalDecision::RetryWithoutToken);
    let d = n.on_reply(PortalReply::Granted { node_id: 1, fd: 2, restore_token: None });
    assert_eq!(d, PortalDecision::Capture { stream: PortalStream { node_id: 1, fd: 2 }, persist: None });
}

#[test]
fn linux_session_detection() {
    let never = |_d: &str, _n: &str| -> bool { panic!("socket check not expected") };
    assert_eq!(
        LinuxDisplayEnvironment::probe(&vars(Some("x11"), Some("wayland-0"), None, Some(":0")), never),
        LinuxDisplayEnvironment::X11
    );
    assert_eq!(
        LinuxDisplayEnvironment::probe(&vars(Some(" Wayland "), None, None, None), never),
        LinuxDisplayEnvironment::Wayland
    );
    assert_eq!(
        LinuxDisplayEnvironment::probe(&vars(Some("X11"), None, None, None), never),
        LinuxDisplayEnvironment::Headless
    );
    assert_eq!(
        LinuxDisplayEnvironment::probe(&vars(None, Some("wayland-1"), None, None), never),
        LinuxDisplayEnvironment::Wayland
    );
    assert_eq!(
        LinuxDisplayEnvironment::probe(&vars(Some("tty"), Some(" "), None, Some(":1")), never),
        LinuxDisplayEnvironment::X11
    );
    assert_eq!(LinuxDisplayEnvironment::probe(&vars(None, None, None, None), never), LinuxDisplayEnvironment::Headless);
}

#[test]
fn linux_session_socket_check() {
    let asked = Cell::new(false);
    let present = |dir: &str, name: &str| -> bool {
        asked.set(true);
        assert_eq!(dir, "/run/user/1000");
        assert_eq!(name, "wayland-0");
        true
    };
    assert_eq!(
        LinuxDisplayEnvironment::probe(&vars(None, Some(" wayland-0 "), Some("/run/user/1000"), None), present),
        LinuxDisplayEnvironment::Wayland
    );
    assert!(asked.get());
    let absent = |_d: &str, _n: &str| -> bool { false };
    assert_eq!(
        LinuxDisplayEnvironment::probe(&vars(None, Some("wayland-0"), Some("/run/user/1000"), Some(":0")), absent),
        LinuxDisplayEnvironment::X11
    );
}

#[test]
fn linux_display_servers() {
    assert_eq!(LinuxDisplayEnvironment::Wayland.to_display_server(), DisplayServer::Wayland);
    assert_eq!(LinuxDisplayEnvironment::X11.to_display_server(), DisplayServer::X11);
    assert_eq!(LinuxDisplayEnvironment::Headless.to_display_server(), DisplayServer::Unknown);
}

#[test]
fn windows_capture_method() {
    let never = || -> bool { panic!("not expected") };
    assert_eq!(WindowsDisplayEnvironment::probe(true, false, never, never), WindowsDisplayEnvironment::GdiRequired);
    assert_eq!(
        WindowsDisplayEnvironment::probe(false, true, || true, never),
        WindowsDisplayEnvironment::GdiRequired
    );
    assert_eq!(
        WindowsDisplayEnvironment::probe(false, true, || false, || false),
        WindowsDisplayEnvironment::GdiRequired
    );
    assert_eq!(
        WindowsDisplayEnvironment::probe(false, false, || false, || true),
        WindowsDisplayEnvironment::Direct3D11
    );
    assert_eq!(WindowsDisplayEnvironment::Direct3D11.to_display_server(), DisplayServer::WindowsDesktop);
    assert_eq!(WindowsDisplayEnvironment::GdiRequired.to_display_server(), DisplayServer::WindowsHeadlessOrVm);
}

#[test]
fn duplication_test_verdict() {
    let never = || -> bool { panic!("not expected") };
    assert!(duplication_usable(Some(PauseOutcome::Success), never));
    assert!(duplication_usable(Some(PauseOutcome::Async), || true));
    assert!(!duplication_usable(Some(PauseOutcome::Async), || false));
    assert!(!duplication_usable(Some(PauseOutcome::NoPreroll), never));
    assert!(!duplication_usable(Some(PauseOutcome::Failure), never));
    assert!(!duplication_usable(None, never));
}

#[test]
fn hypervisor_bit() {
    assert!(hypervisor_present(0x8000_0000));
    assert!(hypervisor_present(0xffff_ffff));
    assert!(!hypervisor_present(0x7fff_ffff));
    assert!(!hypervisor_present(0));
}
