use ferrumcast::gdi_capture::{cursor_draw_origin, gdi_frame_layout, GdiFrameClock, GDI_FRAME_DURATION_NS};
use ferrumcast::input::{
    mouse_button_plan, mouse_button_to_linux_code, mouse_button_to_win32_event, ButtonAction, MouseButton,
    Win32MouseStep,
};
use ferrumcast::ipc::{request_payload, IpcServer, OutboundMessage, MAX_LINE_BYTES};
use ferrumcast::stream::{
    active_encoder_name, bus_error_message, encoder_after_restart, find_capture_source, on_bus_event, BusEvent,
    TelemetryCounters,
};
use ferrumcast::text::{eq_ignore_ascii_case, join_strings, parse_u32, push_i32, push_u64, str_eq, to_ascii_lower, trim_str};

#[test]
fn linux_button_codes() {
    assert_eq!(mouse_button_to_linux_code(&MouseButton::Left), 0x110);
    assert_eq!(mouse_button_to_linux_code(&MouseButton::Right), 0x111);
    assert_eq!(mouse_button_to_linux_code(&MouseButton::Middle), 0x112);
    assert_eq!(mouse_button_to_linux_code(&MouseButton::Back), 0x113);
    assert_eq!(mouse_button_to_linux_code(&MouseButton::Forward), 0x114);
    assert_eq!(mouse_button_to_linux_code(&MouseButton::Task), 0x117);
    assert_eq!(mouse_button_to_linux_code(&MouseButton::Extra(0x120)), 0x120);
    assert_eq!(mouse_button_to_linux_code(&MouseButton::Extra(65535)), 65535);
}

#[test]
fn win32_button_events() {
    assert_eq!(mouse_button_to_win32_event(&MouseButton::Left, true), (0x0002, 0));
    assert_eq!(mouse_button_to_win32_event(&MouseButton::Left, false), (0x0004, 0));
    assert_eq!(mouse_button_to_win32_event(&MouseButton::Right, true), (0x0008, 0));
    assert_eq!(mouse_button_to_win32_event(&MouseButton::Middle, false), (0x0040, 0));
    assert_eq!(mouse_button_to_win32_event(&MouseButton::Back, true), (0x0080, 1));
    assert_eq!(mouse_button_to_win32_event(&MouseButton::Forward, false), (0x0100, 2));
    assert_eq!(mouse_button_to_win32_event(&MouseButton::Task, true), (0x0080, 2));
    assert_eq!(mouse_button_to_win32_event(&MouseButton::Extra(7), false), (0x0100, 7));
}

#[test]
fn button_plans() {
    let down = Win32MouseStep::Send { flags: 0x0008, data: 0 };
    let up = Win32MouseStep::Send { flags: 0x0010, data: 0 };
    assert_eq!(mouse_button_plan(&MouseButton::Right, ButtonAction::Down), vec![down]);
    assert_eq!(mouse_button_plan(&MouseButton::Right, ButtonAction::Up), vec![up]);
    assert_eq!(
        mouse_button_plan(&MouseButton::Right, ButtonAction::Click),
        vec![down, Win32MouseStep::Pause { millis: 10 }, up]
    );
    assert_eq!(
        mouse_button_plan(&MouseButton::Right, ButtonAction::DoubleClick),
        vec![
            down,
            Win32MouseStep::Pause { millis: 10 },
            up,
            Win32MouseStep::Pause { millis: 50 },
            down,
            Win32MouseStep::Pause { millis: 10 },
            up
        ]
    );
}

#[test]
fn request_lines() {
    assert_eq!(request_payload("  {\"type\":\"STOP_STREAM\"}\r\n"), Some("{\"type\":\"STOP_STREAM\"}".to_string()));
    assert_eq!(request_payload(" \t\r\n"), None);
    assert_eq!(request_payload(""), None);
    assert_eq!(request_payload("\u{3000}x\u{a0}"), Some("x".to_string()));
    assert_eq!(MAX_LINE_BYTES, 1024 * 1024);
}

#[test]
fn ipc_server_path() {
    assert_eq!(IpcServer::new("/tmp/ferrumcast.sock").path(), "/tmp/ferrumcast.sock");
}

#[test]
fn encoder_names_of_pipelines() {
    assert_eq!(active_encoder_name(true, Some("x264enc".to_string())), "x264enc");
    assert_eq!(active_encoder_name(true, None), "unknown");
    assert_eq!(active_encoder_name(false, Some("x264enc".to_string())), "none");
    assert_eq!(encoder_after_restart("x264enc".to_string(), false, None), "x264enc");
    assert_eq!(encoder_after_restart("x264enc".to_string(), true, Some("nvh264enc".to_string())), "nvh264enc");
    assert_eq!(encoder_after_restart("x264enc".to_string(), true, None), "unknown");
}

#[test]
fn capture_source_search_order() {
    assert_eq!(find_capture_source(|n: &str| n == "ximagesrc0" || n == "pipewiresrc0"), Some("pipewiresrc0"));
    assert_eq!(find_capture_source(|n: &str| n == "gdi_src"), Some("gdi_src"));
    assert_eq!(find_capture_source(|_n: &str| true), Some("d3d11screencapturesrc0"));
    assert_eq!(find_capture_source(|_n: &str| false), None);
}

#[test]
fn telemetry_counts() {
    let mut t = TelemetryCounters::new();
    t.on_captured();
    t.on_captured();
    t.on_encoder_input();
    t.on_encoder_output(1000, false);
    t.on_encoder_output(200, true);
    t.on_encoder_output(300, true);
    let snap = t.take();
    assert_eq!(
        snap,
        TelemetryCounters { captured: 2, encoder_in: 1, encoder_out: 3, key_frames: 1, delta_frames: 2, bytes: 1500 }
    );
    assert_eq!(t, TelemetryCounters::new());
}

#[test]
fn telemetry_counts_wrap() {
    let mut t = TelemetryCounters { captured: u32::MAX, encoder_in: 0, encoder_out: 0, key_frames: 0, delta_frames: 0, bytes: u64::MAX };
    t.on_captured();
    t.on_encoder_output(2, true);
    assert_eq!(t.captured, 0);
    assert_eq!(t.bytes, 1);
}

#[test]
fn bus_messages() {
    let m = bus_error_message(Some("/GstPipeline:pipeline0/GstX264Enc:video_encoder"), "Internal data stream error.", "Some(\"gst x\")");
    assert_eq!(
        m,
        "Error from element /GstPipeline:pipeline0/GstX264Enc:video_encoder: Internal data stream error. | Debug context: Some(\"gst x\")"
    );
    assert_eq!(bus_error_message(None, "e", "None"), "Error from element unknown: e | Debug context: None");
    assert_eq!(
        on_bus_event(BusEvent::Error { message: "boom".to_string() }),
        (Some(OutboundMessage::StreamError { message: "boom".to_string() }), false)
    );
    assert_eq!(on_bus_event(BusEvent::EndOfStream), (None, false));
    assert_eq!(on_bus_event(BusEvent::Warning), (None, true));
    assert_eq!(on_bus_event(BusEvent::Other), (None, true));
}

#[test]
fn gdi_frames() {
    let l = gdi_frame_layout(1920, 1080);
    assert_eq!(l.row_bytes, 7680);
    assert_eq!(l.frame_bytes, 8_294_400);
    assert_eq!(l.header_height, -1080);
    assert_eq!(cursor_draw_origin(100, 50, 3, 4), (97, 46));
    assert_eq!(cursor_draw_origin(0, 0, 10, 10), (-10, -10));
    let mut clock = GdiFrameClock::new();
    assert_eq!(clock.next_frame(), (0, GDI_FRAME_DURATION_NS));
    assert_eq!(clock.next_frame(), (33_333_333, 33_333_333));
    assert_eq!(clock.pts, 66_666_666);
}

#[test]
fn text_helpers() {
    assert_eq!(parse_u32("42"), Some(42));
    assert_eq!(parse_u32("+0"), Some(0));
    assert_eq!(parse_u32("1_000"), None);
    assert_eq!(parse_u32("٣"), None);
    assert_eq!(trim_str("\u{2009} a b \u{85}"), "a b");
    assert!(str_eq("abc", "abc"));
    assert!(!str_eq("abc", "abd"));
    assert_eq!(to_ascii_lower("AbÇ-Z"), "abÇ-z");
    assert!(eq_ignore_ascii_case("NvEnC", "nvenc"));
    assert!(!eq_ignore_ascii_case("ÉA", "éa"));
    let mut s = String::new();
    push_u64(&mut s, 18_446_744_073_709_551_615);
    s.push(' ');
    push_i32(&mut s, i32::MIN);
    assert_eq!(s, "18446744073709551615 -2147483648");
    assert_eq!(join_strings(&vec!["a".to_string(), "b".to_string()], ", "), "a, b");
    assert_eq!(join_strings(&Vec::new(), ","), "");
}

#[test]
fn number_rendering_reads_back() {
    for n in [0u32, 7, 10, 99, 100, 65535, 4294967295] {
        let mut s = String::new();
        ferrumcast::text::push_u32(&mut s, n);
        assert_eq!(s, n.to_string());
        assert_eq!(parse_u32(&s), Some(n));
    }
}
