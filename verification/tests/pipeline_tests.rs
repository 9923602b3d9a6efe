use ferrumcast::config::StreamConfig;
use ferrumcast::pipeline::encoders::{EncoderKind, NvencEncoder, VideoEncoder, X264Encoder};
use ferrumcast::pipeline::generic::scale_caps;
use ferrumcast::pipeline::{client_list, format_multiudpsink, PipelineBuilder, PlatformContext};
use ferrumcast::platform::linux::display::LinuxDisplayEnvironment;
use ferrumcast::platform::linux::{LinuxBackend, PortalStream};
use ferrumcast::platform::windows::WindowsBackend;
use ferrumcast::platform::{DisplayServer, PlatformBackend};

const OPUS: &str = " ! queue max-size-buffers=5 max-size-bytes=0 max-size-time=0 leaky=downstream ! audioconvert ! audioresample ! opusenc inband-fec=true frame-size=10 audio-type=2051 bitrate=128000 ! rtpopuspay";
const SRTP: &str = " ! srtpenc key=\"abc\" rtp-cipher=aes-128-icm rtp-auth=hmac-sha1-80 rtcp-cipher=aes-128-icm rtcp-auth=hmac-sha1-80";
const LEAKY: &str = "queue max-size-buffers=1 max-size-bytes=0 max-size-time=0 leaky=downstream";
const H264_TAIL: &str = " ! video/x-h264,profile=constrained-baseline ! h264parse config-interval=-1 disable-passthrough=true ! video/x-h264,stream-format=byte-stream,alignment=au ! queue max-size-buffers=1 max-size-bytes=0 max-size-time=0 ! rtph264pay mtu=1200 config-interval=-1 pt=96 aggregate-mode=zero-latency";
const H265_TAIL: &str = " ! video/x-h265 ! h265parse config-interval=-1 disable-passthrough=true ! video/x-h265,stream-format=byte-stream,alignment=au ! queue max-size-buffers=1 max-size-bytes=0 max-size-time=0 ! rtph265pay mtu=1200 config-interval=-1 pt=96 aggregate-mode=zero-latency";

fn x11() -> LinuxBackend {
    LinuxBackend::new(LinuxDisplayEnvironment::X11, None)
}

#[test]
fn multiudpsink_defaults_to_localhost() {
    assert_eq!(
        format_multiudpsink("", 5004, 2097152),
        "multiudpsink clients=\"127.0.0.1:5004\" sync=false async=false buffer-size=2097152"
    );
    assert_eq!(
        format_multiudpsink(" , ,", 5006, 7),
        "multiudpsink clients=\"127.0.0.1:5006\" sync=false async=false buffer-size=7"
    );
}

#[test]
fn multiudpsink_lists_every_host() {
    assert_eq!(
        format_multiudpsink(" 10.0.0.2 ,, 10.0.0.3:9000,host", 5004, 1),
        "multiudpsink clients=\"10.0.0.2:5004,10.0.0.3:9000,host:5004\" sync=false async=false buffer-size=1"
    );
    assert_eq!(client_list("::1,a", 5006), vec!["[::1]:5006", "a:5006"]);
    assert_eq!(client_list("", 5006), Vec::<String>::new());
}

#[test]
fn ipv6_destinations_get_the_port() {
    assert_eq!(
        format_multiudpsink("::1", 5004, 2097152),
        "multiudpsink clients=\"[::1]:5004\" sync=false async=false buffer-size=2097152"
    );
    assert_eq!(
        client_list("fe80::1, [2001:db8::2], [2001:db8::3]:7000, 192.168.0.9:6000, host", 5004),
        vec!["[fe80::1]:5004", "[2001:db8::2]:5004", "[2001:db8::3]:7000", "192.168.0.9:6000", "host:5004"]
    );    assert_eq!(client_list("[abc, [a:b:c, a]b", 5004), vec!["[abc:5004", "[a:b:c", "a]b:5004"]);
}

#[test]
fn scale_caps_forms() {
    let c = StreamConfig::default();
    assert_eq!(scale_caps(&c, None, false, None), "video/x-raw,format=I420 ! ");
    assert_eq!(scale_caps(&c, None, true, None), "video/x-raw,format=NV12 ! ");
    assert_eq!(scale_caps(&c, Some("BGRA"), true, None), "video/x-raw,format=BGRA ! ");
    let mut s = StreamConfig::default();
    s.width = Some(1280);
    s.height = Some(720);
    s.framerate = Some(30);
    assert_eq!(
        scale_caps(&s, Some("NV12"), true, None),
        "videoscale ! videorate ! video/x-raw,framerate=30/1,width=1280,height=720,format=NV12 ! "
    );
    assert_eq!(
        scale_caps(&s, Some("NV12"), true, Some("video/x-raw(memory:GLMemory)")),
        "video/x-raw(memory:GLMemory),framerate=30/1,width=1280,height=720,format=NV12 ! "
    );
    let mut z = StreamConfig::default();
    z.width = Some(0);
    z.framerate = Some(0);
    z.height = Some(480);
    assert_eq!(scale_caps(&z, None, false, None), "videoscale ! video/x-raw,height=480,format=I420 ! ");
}

#[test]
fn linux_x11_default_pipeline() {
    let cfg = StreamConfig::default();
    let p = PipelineBuilder::build_pipeline(&cfg, &X264Encoder, &x11());
    let video = format!(
        "ximagesrc use-damage=true show-pointer=true do-timestamp=true ! {} ! videoconvert n-threads=0 ! video/x-raw,format=I420 ! x264enc name=video_encoder {}{}",
        LEAKY,
        X264Encoder.encode_params(&cfg),
        H264_TAIL
    );
    let want = format!(
        "{} ! multiudpsink clients=\"127.0.0.1:5004\" sync=false async=false buffer-size=2097152 pulsesrc buffer-time=10000 latency-time=10000{} ! multiudpsink clients=\"127.0.0.1:5006\" sync=false async=false buffer-size=1048576",
        video, OPUS
    );
    assert_eq!(p, want);
}

#[test]
fn linux_portal_nvenc_pipeline_with_srtp() {
    let mut cfg = StreamConfig::default();
    cfg.width = Some(1280);
    cfg.height = Some(720);
    cfg.framerate = Some(60);
    cfg.audio = false;
    cfg.srtp_key = Some("abc".to_string());
    let backend = LinuxBackend::new(LinuxDisplayEnvironment::Wayland, Some(PortalStream { node_id: 42, fd: 17 }));
    let p = PipelineBuilder::build_pipeline(&cfg, &NvencEncoder, &backend);
    let want = format!(
        "pipewiresrc fd=17 path=42 do-timestamp=true always-copy=false ! {} ! glupload ! glcolorconvert ! video/x-raw(memory:GLMemory),framerate=60/1,width=1280,height=720,format=NV12 ! nvh264enc name=video_encoder bitrate=6000 zerolatency=true rc-lookahead=0 spatial-aq=false temporal-aq=false preset=p4 tune=ultra-low-latency rc=cbr-ld-hq key-int-max=60 b-frames=0 ref=1{}{} ! multiudpsink clients=\"127.0.0.1:5004\" sync=false async=false buffer-size=2097152",
        LEAKY, H264_TAIL, SRTP
    );
    assert_eq!(p, want);
}

#[test]
fn linux_wayland_without_portal_uses_test_source() {
    let mut cfg = StreamConfig::default();
    cfg.audio = false;
    let backend = LinuxBackend::new(LinuxDisplayEnvironment::Wayland, None);
    let p = PipelineBuilder::build_pipeline(&cfg, &EncoderKind::X265, &backend);
    let want = format!(
        "videotestsrc is-live=true ! {} ! videoconvert n-threads=0 ! video/x-raw,format=I420 ! x265enc name=video_encoder bitrate=6000 speed-preset=ultrafast tune=zerolatency key-int-max=60 option-string=bframes=0{} ! multiudpsink clients=\"127.0.0.1:5004\" sync=false async=false buffer-size=2097152",
        LEAKY, H265_TAIL
    );
    assert_eq!(p, want);
}

#[test]
fn audio_only_pipeline() {
    let mut cfg = StreamConfig::default();
    cfg.audio_only = true;
    cfg.srtp_key = Some("abc".to_string());
    cfg.client_host = "a, b:9, ,".to_string();
    let p = PipelineBuilder::build_pipeline(&cfg, &X264Encoder, &x11());
    let want = format!(
        "pulsesrc buffer-time=10000 latency-time=10000{}{} ! multiudpsink clients=\"a:5006,b:9\" sync=false async=false buffer-size=2097152",
        OPUS, SRTP
    );
    assert_eq!(p, want);
    let same = PipelineBuilder::build_pipeline(&cfg, &NvencEncoder, &WindowsBackend::new(false, false));
    assert_eq!(
        same,
        format!(
            "wasapisrc loopback=true low-latency=true do-timestamp=true{}{} ! multiudpsink clients=\"a:5006,b:9\" sync=false async=false buffer-size=2097152",
            OPUS, SRTP
        )
    );
}

#[test]
fn audio_bitrate_in_bits_per_second() {
    let mut cfg = StreamConfig::default();
    cfg.audio_only = true;
    cfg.audio_bitrate = 64;
    let p = PipelineBuilder::build_pipeline(&cfg, &X264Encoder, &x11());
    assert!(p.contains("opusenc inband-fec=true frame-size=10 audio-type=2051 bitrate=64000 ! rtpopuspay"));
}

#[test]
fn srtp_covers_video_and_audio() {
    let mut cfg = StreamConfig::default();
    cfg.srtp_key = Some("abc".to_string());
    let p = PipelineBuilder::build_pipeline(&cfg, &X264Encoder, &x11());
    assert_eq!(p.matches("srtpenc key=\"abc\"").count(), 2);
    cfg.srtp_key = None;
    let p = PipelineBuilder::build_pipeline(&cfg, &X264Encoder, &x11());
    assert!(!p.contains("srtpenc"));
}

#[test]
fn windows_desktop_software_encoder_downloads_frames() {
    let mut cfg = StreamConfig::default();
    cfg.monitor_index = 1;
    cfg.audio = false;
    let p = PipelineBuilder::build_pipeline(&cfg, &X264Encoder, &WindowsBackend::new(false, false));
    let want = format!(
        "d3d11screencapturesrc show-cursor=true monitor-index=1 ! {} ! d3d11convert ! d3d11download ! videoconvert n-threads=0 ! video/x-raw,format=NV12 ! video/x-raw,format=I420 ! x264enc name=video_encoder {}{} ! multiudpsink clients=\"127.0.0.1:5004\" sync=false async=false buffer-size=2097152",
        LEAKY,
        X264Encoder.encode_params(&cfg),
        H264_TAIL
    );
    assert_eq!(p, want);
}

#[test]
fn windows_gpu_encoder_stays_in_d3d11_memory() {
    let mut cfg = StreamConfig::default();
    cfg.audio = false;
    cfg.show_cursor = false;
    let backend = WindowsBackend::new(false, false);
    let p = PipelineBuilder::build_pipeline(&cfg, &NvencEncoder, &backend);
    let want = format!(
        "d3d11screencapturesrc show-cursor=false monitor-index=0 ! {} ! d3d11convert ! video/x-raw(memory:D3D11Memory),format=NV12 ! nvh264enc name=video_encoder {}{} ! multiudpsink clients=\"127.0.0.1:5004\" sync=false async=false buffer-size=2097152",
        LEAKY,
        NvencEncoder.encode_params(&cfg),
        H264_TAIL
    );
    assert_eq!(p, want);
}

#[test]
fn windows_vm_software_encoder_uses_gdi() {
    let mut cfg = StreamConfig::default();
    cfg.audio = false;
    cfg.width = Some(1280);
    let p = PipelineBuilder::build_pipeline(&cfg, &X264Encoder, &WindowsBackend::new(true, false));
    let want = format!(
        "appsrc name=gdi_src format=time is-live=true do-timestamp=true block=false max-bytes=20000000 ! {} ! videoconvert n-threads=0 ! videoscale ! video/x-raw,width=1280,format=I420 ! x264enc name=video_encoder {}{} ! multiudpsink clients=\"127.0.0.1:5004\" sync=false async=false buffer-size=2097152",
        LEAKY,
        X264Encoder.encode_params(&cfg),
        H264_TAIL
    );
    assert_eq!(p, want);
}

#[test]
fn windows_vm_uses_gdi_even_with_gpu_encoder() {
    let cfg = StreamConfig::default();
    for backend in [WindowsBackend::new(false, true), WindowsBackend::new(true, false)] {
        let v = backend.build_video_source(&cfg, &NvencEncoder);
        assert!(v.pipeline_fragment.starts_with("appsrc name=gdi_src"));
        assert_eq!(v.preferred_converter, "videoconvert n-threads=0");
        assert_eq!(v.preferred_memory_feature, None);
    }
}

#[test]
fn windows_gdi_flag_forces_gdi() {
    let mut cfg = StreamConfig::default();
    cfg.gdi = true;
    let v = WindowsBackend::new(false, false).build_video_source(&cfg, &NvencEncoder);
    assert!(v.pipeline_fragment.starts_with("appsrc name=gdi_src"));
    assert_eq!(v.preferred_converter, "videoconvert n-threads=0");
    assert_eq!(v.preferred_memory_feature, None);
    assert_eq!(v.raw_caps_filter, None);
}

#[test]
fn display_servers() {
    assert_eq!(WindowsBackend::new(false, false).detect_display_server(), DisplayServer::WindowsDesktop);
    assert_eq!(WindowsBackend::new(true, false).detect_display_server(), DisplayServer::WindowsHeadlessOrVm);
    assert_eq!(WindowsBackend::new(false, true).detect_display_server(), DisplayServer::WindowsHeadlessOrVm);
    assert_eq!(x11().detect_display_server(), DisplayServer::X11);
    assert_eq!(LinuxBackend::new(LinuxDisplayEnvironment::Headless, None).detect_display_server(), DisplayServer::Unknown);
}

#[test]
fn audio_sources() {
    assert_eq!(x11().build_audio_source(&StreamConfig::default()), "pulsesrc buffer-time=10000 latency-time=10000");
    assert_eq!(
        WindowsBackend::new(false, false).build_audio_source(&StreamConfig::default()),
        "wasapisrc loopback=true low-latency=true do-timestamp=true"
    );
    assert_eq!(ferrumcast::pipeline::linux::audio_source(), "pulsesrc buffer-time=10000 latency-time=10000");
    assert_eq!(
        ferrumcast::pipeline::windows::audio_source(),
        "wasapisrc loopback=true low-latency=true do-timestamp=true"
    );
}

#[test]
fn context_video_sources() {
    let portal = PlatformContext { portal_info: Some((7, 3)), wayland_session: true };
    assert_eq!(
        ferrumcast::pipeline::linux::video_source(&portal, true, 0),
        format!("pipewiresrc fd=3 path=7 do-timestamp=true always-copy=false ! {}", LEAKY)
    );
    let wayland = PlatformContext { portal_info: None, wayland_session: true };
    assert_eq!(
        ferrumcast::pipeline::linux::video_source(&wayland, true, 0),
        format!("videotestsrc is-live=true ! {}", LEAKY)
    );
    let x = PlatformContext { portal_info: None, wayland_session: false };
    assert_eq!(
        ferrumcast::pipeline::linux::video_source(&x, false, 0),
        format!("ximagesrc use-damage=true show-pointer=false do-timestamp=true ! {}", LEAKY)
    );
    assert_eq!(
        ferrumcast::pipeline::windows::video_source(&x, false, true, 2),
        format!("d3d11screencapturesrc show-cursor=true monitor-index=2 ! {}", LEAKY)
    );
    assert_eq!(
        ferrumcast::pipeline::windows::video_source(&x, true, true, 2),
        format!("appsrc name=gdi_src format=time is-live=true do-timestamp=true block=false max-bytes=20000000 ! {}", LEAKY)
    );
}

#[test]
fn probe_through_builder() {
    let caps = PipelineBuilder::probe_capabilities(|e: &str| e == "vah264enc");
    assert_eq!(caps.encoders, vec!["vah264"]);
}
