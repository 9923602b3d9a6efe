//! Windows: Desktop Duplication or GDI capture.

pub mod display;

use vstd::prelude::*;
use crate::config::StreamConfig;
use crate::pipeline::encoders::{EncoderKind, VideoEncoder, gpu_asic_of};
use crate::platform::{DisplayServer, PlatformBackend, VideoSourceDescriptor, VideoSourceView, bool_text, push_bool};
use crate::text::{dec, push_u32};
use crate::pipeline::{holds_text, lemma_holds_middle};

verus! {

/// The Windows platform backend, with what it learned about the machine:
/// whether it runs in a remote desktop session and whether a hypervisor is
/// present.
pub struct WindowsBackend {
    pub remote_session: bool,
    pub hypervisor: bool,
}

/// The GDI grabber's application source.
pub open spec fn gdi_fragment() -> Seq<char> {
    "appsrc name=gdi_src format=time is-live=true do-timestamp=true block=false max-bytes=20000000 ! queue max-size-buffers=1 max-size-bytes=0 max-size-time=0 leaky=downstream"@
}

/// The Desktop Duplication source for a monitor.
pub open spec fn d3d11_fragment(cfg: StreamConfig) -> Seq<char> {
    "d3d11screencapturesrc show-cursor="@ + bool_text(cfg.show_cursor) + " monitor-index="@ + dec(
        cfg.monitor_index as nat,
    ) + " ! queue max-size-buffers=1 max-size-bytes=0 max-size-time=0 leaky=downstream"@
}

/// The Windows capture source: GDI when asked for, or on a virtual machine
/// or in a remote session; otherwise Desktop Duplication,
/// kept in D3D11 memory for GPU encoders and downloaded to NV12 for others.
pub open spec fn windows_video_source(
    remote_session: bool,
    hypervisor: bool,
    cfg: StreamConfig,
    encoder: EncoderKind,
) -> VideoSourceView {
    let hw = gpu_asic_of(encoder);
    let is_vm = hypervisor || remote_session;
    if cfg.gdi || is_vm {
        VideoSourceView {
            pipeline_fragment: gdi_fragment(),
            preferred_memory_feature: None,
            preferred_converter: "videoconvert n-threads=0"@,
            raw_caps_filter: None,
        }
    } else if hw {
        VideoSourceView {
            pipeline_fragment: d3d11_fragment(cfg),
            preferred_memory_feature: Some("video/x-raw(memory:D3D11Memory)"@),
            preferred_converter: "d3d11convert"@,
            raw_caps_filter: None,
        }
    } else {
        VideoSourceView {
            pipeline_fragment: d3d11_fragment(cfg),
            preferred_memory_feature: None,
            preferred_converter: "d3d11convert ! d3d11download ! videoconvert n-threads=0"@,
            raw_caps_filter: Some("video/x-raw,format=NV12 ! "@),
        }
    }
}

/// The Windows audio capture element.
pub open spec fn windows_audio_source() -> Seq<char> {
    "wasapisrc loopback=true low-latency=true do-timestamp=true"@
}

/// Whether bit 31 of ECX from CPUID leaf 1, the hypervisor-present bit, is
/// set.
pub open spec fn hypervisor_bit(ecx: u32) -> bool {
    ecx >= 0x8000_0000
}

/// Whether CPUID leaf 1 reports a hypervisor in `ecx`.
pub fn hypervisor_present(ecx: u32) -> (r: bool)
    ensures
        r == hypervisor_bit(ecx),
{
    let r = (ecx & 0x8000_0000) != 0;
    assert(((ecx & 0x8000_0000) != 0) == (ecx >= 0x8000_0000)) by (bit_vector);
    r
}

fn d3d11_source(cfg: &StreamConfig) -> (r: String)
    ensures
        r@ == d3d11_fragment(*cfg),
{
    let mut s = String::new();
    s.append("d3d11screencapturesrc show-cursor=");
    push_bool(&mut s, cfg.show_cursor);
    s.append(" monitor-index=");
    push_u32(&mut s, cfg.monitor_index);
    s.append(" ! queue max-size-buffers=1 max-size-bytes=0 max-size-time=0 leaky=downstream");
    assert(s@ =~= d3d11_fragment(*cfg));
    s
}

impl WindowsBackend {
    /// A backend for a machine with the given traits.
    pub fn new(remote_session: bool, hypervisor: bool) -> (r: Self)
        ensures
            r.remote_session == remote_session,
            r.hypervisor == hypervisor,
    {
        WindowsBackend { remote_session, hypervisor }
    }
}

impl PlatformBackend for WindowsBackend {
    open spec fn display_server_spec(&self) -> DisplayServer {
        if self.remote_session || self.hypervisor {
            DisplayServer::WindowsHeadlessOrVm
        } else {
            DisplayServer::WindowsDesktop
        }
    }

    open spec fn video_source_spec(&self, cfg: StreamConfig, encoder: EncoderKind) -> VideoSourceView {
        windows_video_source(self.remote_session, self.hypervisor, cfg, encoder)
    }

    open spec fn audio_source_spec(&self, cfg: StreamConfig) -> Seq<char> {
        windows_audio_source()
    }

    fn detect_display_server(&self) -> (r: DisplayServer) {
        if self.remote_session || self.hypervisor {
            DisplayServer::WindowsHeadlessOrVm
        } else {
            DisplayServer::WindowsDesktop
        }
    }

    fn build_video_source<E: VideoEncoder>(&self, cfg: &StreamConfig, encoder: &E) -> (r:
        VideoSourceDescriptor) {
        let is_hardware_encoder = encoder.is_gpu_asic();
        let is_vm = self.hypervisor || self.remote_session;
        let use_gdi = cfg.gdi || is_vm;
        if use_gdi {
            VideoSourceDescriptor {
                pipeline_fragment: String::from_str(
                    "appsrc name=gdi_src format=time is-live=true do-timestamp=true block=false max-bytes=20000000 ! queue max-size-buffers=1 max-size-bytes=0 max-size-time=0 leaky=downstream",
                ),
                preferred_memory_feature: None,
                preferred_converter: String::from_str("videoconvert n-threads=0"),
                raw_caps_filter: None,
            }
        } else if is_hardware_encoder {
            VideoSourceDescriptor {
                pipeline_fragment: d3d11_source(cfg),
                preferred_memory_feature: Some("video/x-raw(memory:D3D11Memory)"),
                preferred_converter: String::from_str("d3d11convert"),
                raw_caps_filter: None,
            }
        } else {
            let mut filter = String::from_str("video/x-raw,format=");
            filter.append("NV12");
            filter.append(" ! ");
            assert(filter@ =~= "video/x-raw,format=NV12 ! "@) by {
                reveal_strlit("video/x-raw,format=");
                reveal_strlit("NV12");
                reveal_strlit(" ! ");
                reveal_strlit("video/x-raw,format=NV12 ! ");
            }
            VideoSourceDescriptor {
                pipeline_fragment: d3d11_source(cfg),
                preferred_memory_feature: None,
                preferred_converter: String::from_str(
                    "d3d11convert ! d3d11download ! videoconvert n-threads=0",
                ),
                raw_caps_filter: Some(filter),
            }
        }
    }

    fn build_audio_source(&self, cfg: &StreamConfig) -> (r: String) {
        String::from_str("wasapisrc loopback=true low-latency=true do-timestamp=true")
    }
}


/// Frames come from the GDI grabber exactly when it is asked for, or when
/// the machine is virtual or the session remote, whatever the encoder.
pub proof fn law_gdi_when_forced_or_virtual(
    remote_session: bool,
    hypervisor: bool,
    cfg: StreamConfig,
    encoder: EncoderKind,
)
    ensures
        (windows_video_source(remote_session, hypervisor, cfg, encoder).pipeline_fragment == gdi_fragment())
            <==> (cfg.gdi || remote_session || hypervisor),
{
    reveal_strlit("appsrc name=gdi_src format=time is-live=true do-timestamp=true block=false max-bytes=20000000 ! queue max-size-buffers=1 max-size-bytes=0 max-size-time=0 leaky=downstream");
    reveal_strlit("d3d11screencapturesrc show-cursor=");
    let d = d3d11_fragment(cfg);
    assert(d[0] != gdi_fragment()[0]);
}


/// Desktop Duplication captures the configured monitor with the cursor
/// shown as configured.
pub proof fn law_duplication_captures_the_configured_monitor(
    remote_session: bool,
    hypervisor: bool,
    cfg: StreamConfig,
    encoder: EncoderKind,
)
    requires
        !cfg.gdi,
        !remote_session,
        !hypervisor,
    ensures
        holds_text(
            windows_video_source(remote_session, hypervisor, cfg, encoder).pipeline_fragment,
            "show-cursor="@ + bool_text(cfg.show_cursor) + " monitor-index="@ + dec(cfg.monitor_index as nat) + " "@,
        ),
{
    let f = windows_video_source(remote_session, hypervisor, cfg, encoder).pipeline_fragment;
    let t = "show-cursor="@ + bool_text(cfg.show_cursor) + " monitor-index="@ + dec(cfg.monitor_index as nat) + " "@;
    let front = "d3d11screencapturesrc show-cursor="@;
    let src = "d3d11screencapturesrc "@;
    let lit = " ! queue max-size-buffers=1 max-size-bytes=0 max-size-time=0 leaky=downstream"@;
    assert(front =~= src + "show-cursor="@ && lit =~= " "@ + lit.skip(1)) by {
        reveal_strlit("d3d11screencapturesrc show-cursor=");
        reveal_strlit("d3d11screencapturesrc ");
        reveal_strlit("show-cursor=");
        reveal_strlit(" ! queue max-size-buffers=1 max-size-bytes=0 max-size-time=0 leaky=downstream");
        reveal_strlit(" ");
    }
    assert(f == d3d11_fragment(cfg));
    assert(f =~= src + t + lit.skip(1));
    lemma_holds_middle(src, t, lit.skip(1));
}

} // verus!
