//! How the daemon answers each control request: which configuration it
//! keeps, which pipeline it starts and what it tells the controlling
//! application. The daemon's event loop performs the returned action and
//! hands its outcome back here.

use vstd::prelude::*;
use crate::config::{Capabilities, ConfigStore, StreamConfig, views};
use crate::ipc::{InboundMessage, OutboundMessage};
use crate::pipeline::{PipelineBuilder, pipeline_spec};
use crate::pipeline::encoders::{HostOs, resolve_encoder, resolve_spec};
use crate::platform::PlatformBackend;
use crate::text::str_eq;

verus! {

/// What the event loop does next.
#[derive(Debug, PartialEq)]
pub enum EngineAction {
    /// Stop the running pipeline; the daemon stays up.
    StopStream,
    /// Replace the running pipeline, then acknowledge or report the failure.
    RestartPipeline { pipeline: String },
    /// Set the running encoder's bitrate (kbit/s), then acknowledge.
    UpdateBitrate { bitrate: u32 },
    /// Replace the running pipeline with one on another monitor; on failure
    /// fall back as [`on_switch_failed`] says.
    SwitchDisplay { pipeline: String },
    /// Send this capability list.
    SendCapabilities(Capabilities),
    /// Ask the encoder for a key frame.
    ForceKeyframe,
    /// Nothing to do.
    Ignore,
}

/// An [`EngineAction`] with its text as characters.
pub enum ActionView {
    StopStream,
    RestartPipeline(Seq<char>),
    UpdateBitrate(u32),
    SwitchDisplay(Seq<char>),
    SendCapabilities(Seq<Seq<char>>),
    ForceKeyframe,
    Ignore,
}

impl View for EngineAction {
    type V = ActionView;

    open spec fn view(&self) -> ActionView {
        match self {
            EngineAction::StopStream => ActionView::StopStream,
            EngineAction::RestartPipeline { pipeline } => ActionView::RestartPipeline(pipeline@),
            EngineAction::UpdateBitrate { bitrate } => ActionView::UpdateBitrate(*bitrate),
            EngineAction::SwitchDisplay { pipeline } => ActionView::SwitchDisplay(pipeline@),
            EngineAction::SendCapabilities(c) => ActionView::SendCapabilities(views(c.encoders@)),
            EngineAction::ForceKeyframe => ActionView::ForceKeyframe,
            EngineAction::Ignore => ActionView::Ignore,
        }
    }
}

/// The pipeline that a configuration gives on this machine: the encoder
/// that the choice resolves to among the available ones, and the
/// platform's capture and audio sources.
pub open spec fn pipeline_for<P: PlatformBackend>(
    cfg: StreamConfig,
    caps: Seq<Seq<char>>,
    os: HostOs,
    platform: P,
) -> Seq<char> {
    let k = resolve_spec(cfg.encoder, caps, os);
    pipeline_spec(cfg, k, platform.video_source_spec(cfg, k), platform.audio_source_spec(cfg))
}

/// The pipeline description for a configuration on this machine.
pub fn pipeline_for_config<P: PlatformBackend>(
    cfg: &StreamConfig,
    caps: &Capabilities,
    os: HostOs,
    platform: &P,
) -> (r: String)
    ensures
        r@ == pipeline_for(*cfg, views(caps.encoders@), os, *platform),
{
    let enc = resolve_encoder(&cfg.encoder, caps, os);
    PipelineBuilder::build_pipeline(cfg, &enc, platform)
}

/// The monitor index after a switch request: one up for `next` (stopping
/// at the largest index), one down for `prev` (stopping at 0), unchanged
/// for any other direction.
pub open spec fn switched_index(index: u32, direction: Seq<char>) -> u32 {
    if direction == "next"@ {
        if index == u32::MAX { index } else { (index + 1) as u32 }
    } else if direction == "prev"@ {
        if index == 0 { index } else { (index - 1) as u32 }
    } else {
        index
    }
}

/// The monitor index after a switch request in `direction`.
pub fn switch_monitor_index(index: u32, direction: &str) -> (r: u32)
    ensures
        r == switched_index(index, direction@),
{
    if str_eq(direction, "next") {
        index.saturating_add(1)
    } else if str_eq(direction, "prev") {
        index.saturating_sub(1)
    } else {
        index
    }
}

/// A configuration shown on another monitor.
pub open spec fn on_monitor(cfg: StreamConfig, index: u32) -> StreamConfig {
    StreamConfig { monitor_index: index, ..cfg }
}

/// The configuration kept and the action taken for one request, given the
/// configuration before it: a restart or a new configuration is kept and,
/// for a restart, its pipeline started; a bitrate change only updates the
/// running encoder; a display switch keeps and starts the configuration on
/// the next or previous monitor when that index differs; the capability
/// list is sent as probed; the signalling requests of the peer connection
/// are not served by this daemon and change nothing.
pub open spec fn engine_step<P: PlatformBackend>(
    cfg: StreamConfig,
    msg: InboundMessage,
    caps: Seq<Seq<char>>,
    os: HostOs,
    platform: P,
) -> (StreamConfig, ActionView) {
    match msg {
        InboundMessage::StopStream => (cfg, ActionView::StopStream),
        InboundMessage::RestartPipeline(c) => (
            c,
            ActionView::RestartPipeline(pipeline_for(c, caps, os, platform)),
        ),
        InboundMessage::ConfigureStream(c) => (c, ActionView::UpdateBitrate(c.bitrate)),
        InboundMessage::SwitchDisplay { direction } => {
            let idx = switched_index(cfg.monitor_index, direction@);
            if idx == cfg.monitor_index {
                (cfg, ActionView::Ignore)
            } else {
                let c = on_monitor(cfg, idx);
                (c, ActionView::SwitchDisplay(pipeline_for(c, caps, os, platform)))
            }
        },
        InboundMessage::GetCapabilities => (cfg, ActionView::SendCapabilities(caps)),
        InboundMessage::ForceKeyframe => (cfg, ActionView::ForceKeyframe),
        _ => (cfg, ActionView::Ignore),
    }
}

/// Serves one request: updates the stored configuration and returns what
/// the event loop does next.
pub fn handle_inbound<P: PlatformBackend>(
    store: &mut ConfigStore,
    caps: &Capabilities,
    os: HostOs,
    platform: &P,
    msg: InboundMessage,
) -> (r: EngineAction)
    ensures
        (final(store)@, r@) == engine_step(old(store)@, msg, views(caps.encoders@), os, *platform),
{
    match msg {
        InboundMessage::StopStream => EngineAction::StopStream,
        InboundMessage::RestartPipeline(cfg) => {
            let pipeline = pipeline_for_config(&cfg, caps, os, platform);
            store.set(cfg);
            EngineAction::RestartPipeline { pipeline }
        },
        InboundMessage::ConfigureStream(cfg) => {
            let bitrate = cfg.bitrate;
            store.set(cfg);
            EngineAction::UpdateBitrate { bitrate }
        },
        InboundMessage::SwitchDisplay { direction } => {
            let mut cfg = store.get();
            let prev = cfg.monitor_index;
            let idx = switch_monitor_index(prev, direction.as_str());
            if idx == prev {
                EngineAction::Ignore
            } else {
                cfg.monitor_index = idx;
                let pipeline = pipeline_for_config(&cfg, caps, os, platform);
                store.set(cfg);
                EngineAction::SwitchDisplay { pipeline }
            }
        },
        InboundMessage::GetCapabilities => EngineAction::SendCapabilities(caps.clone()),
        InboundMessage::ForceKeyframe => EngineAction::ForceKeyframe,
        _ => EngineAction::Ignore,
    }
}

/// After a display switch failed to start: a configuration on a monitor
/// other than the first falls back to the first monitor, which is kept and
/// whose pipeline is started; on the first monitor nothing more is tried.
pub open spec fn after_failed_switch<P: PlatformBackend>(
    cfg: StreamConfig,
    caps: Seq<Seq<char>>,
    os: HostOs,
    platform: P,
) -> (StreamConfig, Option<Seq<char>>) {
    if cfg.monitor_index != 0 {
        let c = on_monitor(cfg, 0);
        (c, Some(pipeline_for(c, caps, os, platform)))
    } else {
        (cfg, None)
    }
}

/// Falls back to the first monitor after a failed display switch and
/// returns the pipeline to start, if any.
pub fn on_switch_failed<P: PlatformBackend>(
    store: &mut ConfigStore,
    caps: &Capabilities,
    os: HostOs,
    platform: &P,
) -> (r: Option<String>)
    ensures
        (final(store)@, match r {
            Some(p) => Some(p@),
            None => None,
        }) == after_failed_switch(old(store)@, views(caps.encoders@), os, *platform),
{
    let mut cfg = store.get();
    if cfg.monitor_index != 0 {
        cfg.monitor_index = 0;
        let pipeline = pipeline_for_config(&cfg, caps, os, platform);
        store.set(cfg);
        Some(pipeline)
    } else {
        None
    }
}

/// What the controlling application is told after a pipeline restart: an
/// acknowledgement naming the running encoder, or the failure.
pub open spec fn restart_reply_spec(error: Option<Seq<char>>, encoder: Seq<char>) -> (bool, Seq<char>) {
    match error {
        None => (true, encoder),
        Some(e) => (false, "restart failed: "@ + e),
    }
}

/// The notice after a restart (or a bitrate change, which always succeeds
/// as far as the application is told): `ConfigAck` with the running
/// encoder's name when `error` is `None`, else `StreamError`.
pub fn restart_reply(error: Option<&str>, encoder: String) -> (r: OutboundMessage)
    ensures
        match r {
            OutboundMessage::ConfigAck { active_encoder } => restart_reply_spec(
                match error { Some(e) => Some(e@), None => None },
                encoder@,
            ) == (true, active_encoder@),
            OutboundMessage::StreamError { message } => restart_reply_spec(
                match error { Some(e) => Some(e@), None => None },
                encoder@,
            ) == (false, message@),
            _ => false,
        },
{
    match error {
        None => OutboundMessage::ConfigAck { active_encoder: encoder },
        Some(e) => {
            let mut message = String::from_str("restart failed: ");
            message.append(e);
            OutboundMessage::StreamError { message }
        },
    }
}

/// A switch to the next monitor followed by a switch to the previous one
/// gives back the configuration before them, unless the index was already
/// the largest one.
pub proof fn law_next_then_prev_restores<P: PlatformBackend>(
    cfg: StreamConfig,
    next: InboundMessage,
    prev: InboundMessage,
    caps: Seq<Seq<char>>,
    os: HostOs,
    platform: P,
)
    requires
        next matches InboundMessage::SwitchDisplay { direction } && direction@ == "next"@,
        prev matches InboundMessage::SwitchDisplay { direction } && direction@ == "prev"@,
        cfg.monitor_index < u32::MAX,
    ensures
        engine_step(engine_step(cfg, next, caps, os, platform).0, prev, caps, os, platform).0 == cfg,
{
    reveal_strlit("next");
    reveal_strlit("prev");
    assert("prev"@ != "next"@) by {
        assert("prev"@[0] != "next"@[0]);
    }
    let c1 = engine_step(cfg, next, caps, os, platform).0;
    assert(c1 == on_monitor(cfg, (cfg.monitor_index + 1) as u32));
    assert(engine_step(c1, prev, caps, os, platform).0 == on_monitor(c1, cfg.monitor_index));
}

/// A switch to the previous monitor followed by a switch to the next one
/// gives back the configuration before them, unless the index was 0.
pub proof fn law_prev_then_next_restores<P: PlatformBackend>(
    cfg: StreamConfig,
    next: InboundMessage,
    prev: InboundMessage,
    caps: Seq<Seq<char>>,
    os: HostOs,
    platform: P,
)
    requires
        next matches InboundMessage::SwitchDisplay { direction } && direction@ == "next"@,
        prev matches InboundMessage::SwitchDisplay { direction } && direction@ == "prev"@,
        cfg.monitor_index > 0,
    ensures
        engine_step(engine_step(cfg, prev, caps, os, platform).0, next, caps, os, platform).0 == cfg,
{
    reveal_strlit("next");
    reveal_strlit("prev");
    assert("prev"@ != "next"@) by {
        assert("prev"@[0] != "next"@[0]);
    }
    let c1 = engine_step(cfg, prev, caps, os, platform).0;
    assert(c1 == on_monitor(cfg, (cfg.monitor_index - 1) as u32));
    assert(engine_step(c1, next, caps, os, platform).0 == on_monitor(c1, cfg.monitor_index));
}

/// A display switch changes the stored configuration in its monitor index
/// only, and keeps it within one step of the index before.
pub proof fn law_switch_moves_one_monitor<P: PlatformBackend>(
    cfg: StreamConfig,
    msg: InboundMessage,
    caps: Seq<Seq<char>>,
    os: HostOs,
    platform: P,
)
    requires
        msg is SwitchDisplay,
    ensures
        engine_step(cfg, msg, caps, os, platform).0 == on_monitor(
            cfg,
            engine_step(cfg, msg, caps, os, platform).0.monitor_index,
        ),
        cfg.monitor_index - 1 <= engine_step(cfg, msg, caps, os, platform).0.monitor_index
            <= cfg.monitor_index + 1,
{
}

/// A restart or a configuration request leaves the same configuration and
/// the same action, whatever configuration was stored before it.
pub proof fn law_new_configuration_ignores_old<P: PlatformBackend>(
    before1: StreamConfig,
    before2: StreamConfig,
    msg: InboundMessage,
    caps: Seq<Seq<char>>,
    os: HostOs,
    platform: P,
)
    requires
        msg is RestartPipeline || msg is ConfigureStream,
    ensures
        engine_step(before1, msg, caps, os, platform) == engine_step(before2, msg, caps, os, platform),
{
}

/// Only restart, configuration and display-switch requests change the
/// stored configuration.
pub proof fn law_other_requests_keep_configuration<P: PlatformBackend>(
    cfg: StreamConfig,
    msg: InboundMessage,
    caps: Seq<Seq<char>>,
    os: HostOs,
    platform: P,
)
    requires
        !(msg is RestartPipeline || msg is ConfigureStream || msg is SwitchDisplay),
    ensures
        engine_step(cfg, msg, caps, os, platform).0 == cfg,
{
}

/// After a failed display switch the stored configuration is on the first
/// monitor and otherwise unchanged.
pub proof fn law_failed_switch_returns_to_first_monitor<P: PlatformBackend>(
    cfg: StreamConfig,
    caps: Seq<Seq<char>>,
    os: HostOs,
    platform: P,
)
    ensures
        after_failed_switch(cfg, caps, os, platform).0 == on_monitor(cfg, 0),
{
}


/// The pipeline an action starts is always the pipeline of the
/// configuration stored after the step, a bitrate change carries the
/// stored bitrate, and the capability list sent is the probed one.
pub proof fn law_actions_follow_the_stored_configuration<P: PlatformBackend>(
    cfg: StreamConfig,
    msg: InboundMessage,
    caps: Seq<Seq<char>>,
    os: HostOs,
    platform: P,
)
    ensures
        match engine_step(cfg, msg, caps, os, platform).1 {
            ActionView::RestartPipeline(p) => p == pipeline_for(
                engine_step(cfg, msg, caps, os, platform).0,
                caps,
                os,
                platform,
            ),
            ActionView::SwitchDisplay(p) => p == pipeline_for(
                engine_step(cfg, msg, caps, os, platform).0,
                caps,
                os,
                platform,
            ) && engine_step(cfg, msg, caps, os, platform).0.monitor_index != cfg.monitor_index,
            ActionView::UpdateBitrate(b) => b == engine_step(cfg, msg, caps, os, platform).0.bitrate,
            ActionView::SendCapabilities(c) => c == caps,
            _ => true,
        },
{
}

} // verus!
