//! What each operating system contributes to a pipeline: the capture
//! source, the converter in front of the encoder and the audio source.

pub mod linux;
pub mod windows;

use vstd::prelude::*;
use crate::config::StreamConfig;
use crate::pipeline::encoders::{EncoderKind, VideoEncoder};

verus! {

/// The kind of desktop the daemon captures.
#[derive(Debug, Clone, Copy, PartialEq, Eq, Structural)]
pub enum DisplayServer {
    Wayland,
    X11,
    WindowsDesktop,
    WindowsHeadlessOrVm,
    Unknown,
}

/// The capture part of a pipeline and how its frames reach the encoder.
#[derive(Debug, PartialEq)]
pub struct VideoSourceDescriptor {
    pub pipeline_fragment: String,
    pub preferred_memory_feature: Option<&'static str>,
    pub preferred_converter: String,
    pub raw_caps_filter: Option<String>,
}

/// The character view of a [`VideoSourceDescriptor`].
pub struct VideoSourceView {
    pub pipeline_fragment: Seq<char>,
    pub preferred_memory_feature: Option<Seq<char>>,
    pub preferred_converter: Seq<char>,
    pub raw_caps_filter: Option<Seq<char>>,
}

impl View for VideoSourceDescriptor {
    type V = VideoSourceView;

    open spec fn view(&self) -> VideoSourceView {
        VideoSourceView {
            pipeline_fragment: self.pipeline_fragment@,
            preferred_memory_feature: match self.preferred_memory_feature {
                Some(m) => Some(m@),
                None => None,
            },
            preferred_converter: self.preferred_converter@,
            raw_caps_filter: match self.raw_caps_filter {
                Some(f) => Some(f@),
                None => None,
            },
        }
    }
}

/// The operating-system side of pipeline construction.
pub trait PlatformBackend {
    /// The display server this backend captures.
    spec fn display_server_spec(&self) -> DisplayServer;

    /// The capture source for a configuration and encoder.
    spec fn video_source_spec(&self, cfg: StreamConfig, encoder: EncoderKind) -> VideoSourceView;

    /// The audio capture element for a configuration.
    spec fn audio_source_spec(&self, cfg: StreamConfig) -> Seq<char>;

    /// The display server this backend captures.
    fn detect_display_server(&self) -> (r: DisplayServer)
        ensures
            r == self.display_server_spec(),
    ;

    /// The capture source for a configuration and encoder.
    fn build_video_source<E: VideoEncoder>(&self, cfg: &StreamConfig, encoder: &E) -> (r:
        VideoSourceDescriptor)
        ensures
            r@ == self.video_source_spec(*cfg, encoder.kind_spec()),
    ;

    /// The audio capture element for a configuration.
    fn build_audio_source(&self, cfg: &StreamConfig) -> (r: String)
        ensures
            r@ == self.audio_source_spec(*cfg),
    ;
}

/// `true` or `false`, as the pipeline text writes a boolean.
pub open spec fn bool_text(b: bool) -> Seq<char> {
    if b { "true"@ } else { "false"@ }
}

/// Appends `true` or `false`.
pub fn push_bool(s: &mut String, b: bool)
    ensures
        final(s)@ == old(s)@ + bool_text(b),
{
    if b {
        s.append("true");
    } else {
        s.append("false");
    }
}

} // verus!
