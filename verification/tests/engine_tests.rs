use ferrumcast::config::{Capabilities, ConfigStore, EncoderChoice, StreamConfig};
use ferrumcast::engine::{
    handle_inbound, on_switch_failed, pipeline_for_config, restart_reply, switch_monitor_index, EngineAction,
};
use ferrumcast::ipc::{InboundMessage, OutboundMessage};
use ferrumcast::pipeline::encoders::{resolve_encoder, HostOs};
use ferrumcast::pipeline::PipelineBuilder;
use ferrumcast::platform::linux::display::LinuxDisplayEnvironment;
use ferrumcast::platform::linux::LinuxBackend;

fn caps() -> Capabilities {
    Capabilities { encoders: vec!["vah264".to_string(), "x264".to_string()] }
}

fn x11() -> LinuxBackend {
    LinuxBackend::new(LinuxDisplayEnvironment::X11, None)
}

fn switch(direction: &str) -> InboundMessage {
    InboundMessage::SwitchDisplay { direction: direction.to_string() }
}

#[test]
fn monitor_index_steps() {
    assert_eq!(switch_monitor_index(0, "next"), 1);
    assert_eq!(switch_monitor_index(5, "prev"), 4);
    assert_eq!(switch_monitor_index(0, "prev"), 0);
    assert_eq!(switch_monitor_index(u32::MAX, "next"), u32::MAX);
    assert_eq!(switch_monitor_index(3, "up"), 3);
    assert_eq!(switch_monitor_index(3, "Next"), 3);
}

#[test]
fn pipeline_for_config_resolves_the_encoder() {
    let cfg = StreamConfig::default();
    let enc = resolve_encoder(&cfg.encoder, &caps(), HostOs::Linux);
    assert_eq!(
        pipeline_for_config(&cfg, &caps(), HostOs::Linux, &x11()),
        PipelineBuilder::build_pipeline(&cfg, &enc, &x11())
    );
    assert!(pipeline_for_config(&cfg, &caps(), HostOs::Linux, &x11()).contains("vah264enc name=video_encoder"));
}

#[test]
fn restart_keeps_the_new_configuration() {
    let mut store = ConfigStore::new();
    let mut cfg = StreamConfig::default();
    cfg.encoder = EncoderChoice::X264;
    cfg.bitrate = 3000;
    let want_pipe = pipeline_for_config(&cfg, &caps(), HostOs::Linux, &x11());
    let action = handle_inbound(&mut store, &caps(), HostOs::Linux, &x11(), InboundMessage::RestartPipeline(cfg.clone()));
    assert_eq!(action, EngineAction::RestartPipeline { pipeline: want_pipe });
    assert_eq!(store.get(), cfg);
}

#[test]
fn configure_only_updates_bitrate() {
    let mut store = ConfigStore::new();
    let mut cfg = StreamConfig::default();
    cfg.bitrate = 4500;
    let action = handle_inbound(&mut store, &caps(), HostOs::Linux, &x11(), InboundMessage::ConfigureStream(cfg.clone()));
    assert_eq!(action, EngineAction::UpdateBitrate { bitrate: 4500 });
    assert_eq!(store.get(), cfg);
}

#[test]
fn switch_display_next_and_prev() {
    let mut store = ConfigStore::new();
    let action = handle_inbound(&mut store, &caps(), HostOs::Linux, &x11(), switch("next"));
    let mut on_one = StreamConfig::default();
    on_one.monitor_index = 1;
    assert_eq!(store.get(), on_one);
    assert_eq!(
        action,
        EngineAction::SwitchDisplay { pipeline: pipeline_for_config(&on_one, &caps(), HostOs::Linux, &x11()) }
    );
    let action = handle_inbound(&mut store, &caps(), HostOs::Linux, &x11(), switch("prev"));
    assert_eq!(store.get(), StreamConfig::default());
    assert!(matches!(action, EngineAction::SwitchDisplay { .. }));
}

#[test]
fn switch_display_without_change_does_nothing() {
    let mut store = ConfigStore::new();
    let action = handle_inbound(&mut store, &caps(), HostOs::Linux, &x11(), switch("prev"));
    assert_eq!(action, EngineAction::Ignore);
    assert_eq!(store.get(), StreamConfig::default());
    let action = handle_inbound(&mut store, &caps(), HostOs::Linux, &x11(), switch("sideways"));
    assert_eq!(action, EngineAction::Ignore);
    assert_eq!(store.get(), StreamConfig::default());
}

#[test]
fn failed_switch_falls_back_to_first_monitor() {
    let mut store = ConfigStore::new();
    let mut cfg = StreamConfig::default();
    cfg.monitor_index = 2;
    cfg.bitrate = 7000;
    store.set(cfg);
    let fallback = on_switch_failed(&mut store, &caps(), HostOs::Linux, &x11());
    let mut first = StreamConfig::default();
    first.bitrate = 7000;
    assert_eq!(store.get(), first);
    assert_eq!(fallback, Some(pipeline_for_config(&first, &caps(), HostOs::Linux, &x11())));
    assert_eq!(on_switch_failed(&mut store, &caps(), HostOs::Linux, &x11()), None);
    assert_eq!(store.get(), first);
}

#[test]
fn other_requests() {
    let mut store = ConfigStore::new();
    let c = caps();
    assert_eq!(handle_inbound(&mut store, &c, HostOs::Linux, &x11(), InboundMessage::StopStream), EngineAction::StopStream);
    assert_eq!(handle_inbound(&mut store, &c, HostOs::Linux, &x11(), InboundMessage::ForceKeyframe), EngineAction::ForceKeyframe);
    assert_eq!(
        handle_inbound(&mut store, &c, HostOs::Linux, &x11(), InboundMessage::GetCapabilities),
        EngineAction::SendCapabilities(caps())
    );
    assert_eq!(handle_inbound(&mut store, &c, HostOs::Linux, &x11(), InboundMessage::RequestOffer), EngineAction::Ignore);
    assert_eq!(
        handle_inbound(
            &mut store,
            &c,
            HostOs::Linux,
            &x11(),
            InboundMessage::SetRemoteSdp { sdp: "v=0".to_string(), sdp_type: "answer".to_string() }
        ),
        EngineAction::Ignore
    );
    assert_eq!(
        handle_inbound(
            &mut store,
            &c,
            HostOs::Linux,
            &x11(),
            InboundMessage::AddIceCandidate { candidate: "c".to_string(), mid: None, mline_index: Some(0) }
        ),
        EngineAction::Ignore
    );
    assert_eq!(store.get(), StreamConfig::default());
}

#[test]
fn restart_replies() {
    assert_eq!(
        restart_reply(None, "vah264enc".to_string()),
        OutboundMessage::ConfigAck { active_encoder: "vah264enc".to_string() }
    );
    assert_eq!(
        restart_reply(Some("no element \"foo\""), "x".to_string()),
        OutboundMessage::StreamError { message: "restart failed: no element \"foo\"".to_string() }
    );
}
