//! Linux: X11 or Wayland (through the desktop portal) capture.

pub mod display;

use vstd::prelude::*;
use crate::config::StreamConfig;
use crate::pipeline::encoders::{EncoderKind, VideoEncoder, nvenc_of};
use crate::platform::{DisplayServer, PlatformBackend, VideoSourceDescriptor, VideoSourceView, bool_text, push_bool};
use crate::ipc::OutboundMessage;
use crate::pipeline::{holds_text, lemma_holds_middle};
use crate::text::{dec, dec_int, push_char, push_i32, push_u32, trim, trim_str};
use display::LinuxDisplayEnvironment;

verus! {

/// The PipeWire stream that the screencast portal granted.
#[derive(Debug, Clone, Copy, PartialEq, Eq, Structural)]
pub struct PortalStream {
    pub node_id: u32,
    pub fd: i32,
}

/// The Linux platform backend.
#[derive(Debug, PartialEq)]
pub struct LinuxBackend {
    pub display_env: LinuxDisplayEnvironment,
    pub portal_capture: Option<PortalStream>,
}

/// The queue placed after the capture element.
pub open spec fn linux_capture_queue(zero_latency: bool) -> Seq<char> {
    if zero_latency {
        "queue max-size-buffers=1 max-size-bytes=0 max-size-time=0 leaky=downstream"@
    } else {
        "queue max-size-buffers=3 max-size-bytes=0 max-size-time=33000000"@
    }
}

/// The Linux capture source: the portal's PipeWire stream when there is one,
/// a test source on Wayland without it, the X11 root window otherwise; NVENC
/// gets frames uploaded to GL memory, other encoders get system memory.
pub open spec fn linux_video_source(
    env: LinuxDisplayEnvironment,
    portal: Option<PortalStream>,
    cfg: StreamConfig,
    encoder: EncoderKind,
) -> VideoSourceView {
    let queue = linux_capture_queue(true);
    let fragment = match portal {
        Some(p) => "pipewiresrc fd="@ + dec_int(p.fd as int) + " path="@ + dec(p.node_id as nat)
            + " do-timestamp=true always-copy=false ! "@ + queue,
        None => if env == LinuxDisplayEnvironment::Wayland {
            "videotestsrc is-live=true ! "@ + queue
        } else {
            "ximagesrc use-damage=true show-pointer="@ + bool_text(cfg.show_cursor)
                + " do-timestamp=true ! "@ + queue
        },
    };
    if nvenc_of(encoder) {
        VideoSourceView {
            pipeline_fragment: fragment,
            preferred_memory_feature: Some("video/x-raw(memory:GLMemory)"@),
            preferred_converter: "glupload ! glcolorconvert"@,
            raw_caps_filter: None,
        }
    } else {
        VideoSourceView {
            pipeline_fragment: fragment,
            preferred_memory_feature: None,
            preferred_converter: "videoconvert n-threads=0"@,
            raw_caps_filter: None,
        }
    }
}

/// The Linux audio capture element.
pub open spec fn linux_audio_source() -> Seq<char> {
    "pulsesrc buffer-time=10000 latency-time=10000"@
}

impl PlatformBackend for LinuxBackend {
    open spec fn display_server_spec(&self) -> DisplayServer {
        display::display_server_of(self.display_env)
    }

    open spec fn video_source_spec(&self, cfg: StreamConfig, encoder: EncoderKind) -> VideoSourceView {
        linux_video_source(self.display_env, self.portal_capture, cfg, encoder)
    }

    open spec fn audio_source_spec(&self, cfg: StreamConfig) -> Seq<char> {
        linux_audio_source()
    }

    fn detect_display_server(&self) -> (r: DisplayServer) {
        self.display_env.to_display_server()
    }

    fn build_video_source<E: VideoEncoder>(&self, cfg: &StreamConfig, encoder: &E) -> (r:
        VideoSourceDescriptor) {
        let is_nvenc = encoder.is_nvenc();
        let queue_cap: &str = if encoder.is_zero_latency_capable() {
            "queue max-size-buffers=1 max-size-bytes=0 max-size-time=0 leaky=downstream"
        } else {
            "queue max-size-buffers=3 max-size-bytes=0 max-size-time=33000000"
        };
        let mut fragment = String::new();
        match self.portal_capture {
            Some(p) => {
                fragment.append("pipewiresrc fd=");
                push_i32(&mut fragment, p.fd);
                fragment.append(" path=");
                push_u32(&mut fragment, p.node_id);
                fragment.append(" do-timestamp=true always-copy=false ! ");
            },
            None => {
                if self.display_env == LinuxDisplayEnvironment::Wayland {
                    fragment.append("videotestsrc is-live=true ! ");
                } else {
                    fragment.append("ximagesrc use-damage=true show-pointer=");
                    push_bool(&mut fragment, cfg.show_cursor);
                    fragment.append(" do-timestamp=true ! ");
                }
            },
        }
        fragment.append(queue_cap);
        let spec_view = Ghost(linux_video_source(self.display_env, self.portal_capture, *cfg, encoder.kind_spec()));
        assert(fragment@ =~= spec_view@.pipeline_fragment);
        if is_nvenc {
            VideoSourceDescriptor {
                pipeline_fragment: fragment,
                preferred_memory_feature: Some("video/x-raw(memory:GLMemory)"),
                preferred_converter: String::from_str("glupload ! glcolorconvert"),
                raw_caps_filter: None,
            }
        } else {
            VideoSourceDescriptor {
                pipeline_fragment: fragment,
                preferred_memory_feature: None,
                preferred_converter: String::from_str("videoconvert n-threads=0"),
                raw_caps_filter: None,
            }
        }
    }

    fn build_audio_source(&self, cfg: &StreamConfig) -> (r: String) {
        String::from_str("pulsesrc buffer-time=10000 latency-time=10000")
    }
}

impl LinuxBackend {
    /// A backend for `display_env`, capturing the portal stream when there
    /// is one.
    pub fn new(display_env: LinuxDisplayEnvironment, portal_capture: Option<PortalStream>) -> (r: Self)
        ensures
            r.display_env == display_env,
            r.portal_capture == portal_capture,
    {
        LinuxBackend { display_env, portal_capture }
    }
}

/// Whether the backend asks the screencast portal for a stream: on Wayland
/// only, and never for an audio-only stream.
pub open spec fn portal_wanted_spec(env: LinuxDisplayEnvironment, audio_only: bool) -> bool {
    env == LinuxDisplayEnvironment::Wayland && !audio_only
}

/// Whether the backend asks the screencast portal for a stream.
pub fn portal_wanted(env: LinuxDisplayEnvironment, audio_only: bool) -> (r: bool)
    ensures
        r == portal_wanted_spec(env, audio_only),
{
    env == LinuxDisplayEnvironment::Wayland && !audio_only
}

/// The token the daemon starts with: the one on the command line, else the
/// saved file's contents as they are.
pub open spec fn startup_token_spec(given: Option<Seq<char>>, saved: Option<Seq<char>>) -> Option<Seq<char>> {
    match given {
        Some(t) => Some(t),
        None => saved,
    }
}

/// The token the daemon starts with, from the command line or the saved
/// file.
pub fn startup_token(given: Option<String>, saved: Option<String>) -> (r: Option<String>)
    ensures
        opt_chars(r) == startup_token_spec(opt_chars(given), opt_chars(saved)),
{
    match given {
        Some(t) => Some(t),
        None => saved,
    }
}

/// The characters of an optional string.
pub open spec fn opt_chars(o: Option<String>) -> Option<Seq<char>> {
    match o {
        Some(s) => Some(s@),
        None => None,
    }
}

/// The restore token offered to the portal: the token the daemon started
/// with, else the saved one without surrounding white space, unless that
/// leaves it empty.
pub open spec fn effective_token_spec(initial: Option<Seq<char>>, saved: Option<Seq<char>>) -> Option<Seq<char>> {
    match initial {
        Some(t) => Some(t),
        None => match saved {
            Some(s) => if trim(s).len() == 0 { None } else { Some(trim(s)) },
            None => None,
        },
    }
}

/// The restore token offered to the portal.
pub fn effective_token(initial: Option<String>, saved: Option<String>) -> (r: Option<String>)
    ensures
        opt_chars(r) == effective_token_spec(opt_chars(initial), opt_chars(saved)),
{
    match initial {
        Some(t) => Some(t),
        None => match saved {
            Some(s) => {
                let t = trim_str(s.as_str());
                if t.unicode_len() == 0 {
                    None
                } else {
                    Some(t)
                }
            },
            None => None,
        },
    }
}

/// The notice sent while the portal asks the user for permission: only a
/// request without a restore token makes the portal ask.
pub fn approval_notice(token: &Option<String>) -> (r: Option<OutboundMessage>)
    ensures
        token is None <==> r is Some,
        r matches Some(m) ==> m is WaitingForPortalApproval,
{
    match token {
        None => Some(OutboundMessage::WaitingForPortalApproval),
        Some(_) => None,
    }
}

/// What the screencast portal answered a request.
#[derive(Debug, PartialEq)]
pub enum PortalReply {
    /// The user granted a PipeWire stream; the portal may hand out a token
    /// that restores the grant later.
    Granted { node_id: u32, fd: i32, restore_token: Option<String> },
    /// The request failed or was refused.
    Refused,
}

/// What the backend does after a portal answer.
#[derive(Debug, PartialEq)]
pub enum PortalDecision {
    /// Delete the saved token and ask again without one.
    RetryWithoutToken,
    /// Capture `stream`; a `persist` token is saved and announced to the
    /// controlling application.
    Capture { stream: PortalStream, persist: Option<String> },
    /// Go on without portal capture.
    GiveUp,
}

/// The state of the portal negotiation at start-up: whether the first
/// request offered a saved token, and whether the one retry without it was
/// made.
#[derive(Debug, PartialEq)]
pub struct PortalNegotiation {
    pub offered_token: bool,
    pub retried: bool,
}

impl PortalNegotiation {
    /// The negotiation before the first request, which offers `token`.
    pub fn new(token: &Option<String>) -> (r: Self)
        ensures
            r.offered_token == token is Some,
            !r.retried,
    {
        PortalNegotiation { offered_token: token.is_some(), retried: false }
    }

    /// The decision on a portal answer: a granted stream is captured (and
    /// its restore token kept); a refusal of a request that offered a saved
    /// token is retried once without it; any other refusal gives up.
    pub fn on_reply(&mut self, reply: PortalReply) -> (d: PortalDecision)
        ensures
            final(self).offered_token == old(self).offered_token,
            match reply {
                PortalReply::Granted { node_id, fd, restore_token } => {
                    &&& d matches PortalDecision::Capture { stream, persist }
                    &&& stream == (PortalStream { node_id, fd })
                    &&& persist == restore_token
                    &&& final(self).retried == old(self).retried
                },
                PortalReply::Refused => if old(self).offered_token && !old(self).retried {
                    d is RetryWithoutToken && final(self).retried
                } else {
                    d is GiveUp && final(self).retried == old(self).retried
                },
            },
    {
        match reply {
            PortalReply::Granted { node_id, fd, restore_token } => PortalDecision::Capture {
                stream: PortalStream { node_id, fd },
                persist: restore_token,
            },
            PortalReply::Refused => {
                if self.offered_token && !self.retried {
                    self.retried = true;
                    PortalDecision::RetryWithoutToken
                } else {
                    PortalDecision::GiveUp
                }
            },
        }
    }
}

/// `name` appended to the path `base` as `PathBuf::push` does on Unix for
/// a relative name: with a `/` between them unless `base` is empty or
/// already ends in one.
pub open spec fn path_join(base: Seq<char>, name: Seq<char>) -> Seq<char> {
    if base.len() == 0 || base.last() == '/' {
        base + name
    } else {
        base.push('/') + name
    }
}

/// Where the portal restore token is saved: `ferrumcast.token` in
/// `$XDG_CONFIG_HOME`, else in `$HOME/.config`, else in `/tmp`.
pub open spec fn token_path_spec(xdg_config_home: Option<Seq<char>>, home: Option<Seq<char>>) -> Seq<char> {
    match xdg_config_home {
        Some(x) => path_join(x, "ferrumcast.token"@),
        None => match home {
            Some(h) => path_join(path_join(h, ".config"@), "ferrumcast.token"@),
            None => "/tmp/ferrumcast.token"@,
        },
    }
}

fn join_path(base: &str, name: &str) -> (r: String)
    ensures
        r@ == path_join(base@, name@),
{
    let mut s = String::from_str(base);
    let n = base.unicode_len();
    if n > 0 && base.get_char(n - 1) != '/' {
        push_char(&mut s, '/');
    }
    s.append(name);
    s
}

impl LinuxBackend {
    /// Where the portal restore token is saved, from the values of
    /// `XDG_CONFIG_HOME` and `HOME` (`None` when unset).
    pub fn resolve_token_file_path(xdg_config_home: Option<&str>, home: Option<&str>) -> (r: String)
        ensures
            r@ == token_path_spec(
                match xdg_config_home { Some(x) => Some(x@), None => None },
                match home { Some(h) => Some(h@), None => None },
            ),
    {
        match xdg_config_home {
            Some(x) => join_path(x, "ferrumcast.token"),
            None => match home {
                Some(h) => {
                    let dir = join_path(h, ".config");
                    join_path(dir.as_str(), "ferrumcast.token")
                },
                None => String::from_str("/tmp/ferrumcast.token"),
            },
        }
    }
}


/// What the Linux capture source reads: the granted PipeWire stream (its
/// file descriptor and node) when there is one; on X11 without one, the
/// root window with the pointer shown exactly when the configuration shows
/// the cursor, so that configurations differing in the cursor setting get
/// different sources.
pub proof fn law_linux_source_follows_the_session(
    env: LinuxDisplayEnvironment,
    portal: Option<PortalStream>,
    cfg: StreamConfig,
    other: StreamConfig,
    encoder: EncoderKind,
)
    ensures
        portal matches Some(p) ==> holds_text(
            linux_video_source(env, portal, cfg, encoder).pipeline_fragment,
            "pipewiresrc fd="@ + dec_int(p.fd as int) + " path="@ + dec(p.node_id as nat) + " "@,
        ),
        portal is None && env != LinuxDisplayEnvironment::Wayland ==> holds_text(
            linux_video_source(env, portal, cfg, encoder).pipeline_fragment,
            "show-pointer="@ + bool_text(cfg.show_cursor) + " "@,
        ),
        portal is None && env != LinuxDisplayEnvironment::Wayland && other.show_cursor != cfg.show_cursor
            ==> linux_video_source(env, portal, cfg, encoder).pipeline_fragment != linux_video_source(
            env,
            portal,
            other,
            encoder,
        ).pipeline_fragment,
{
    let f = linux_video_source(env, portal, cfg, encoder).pipeline_fragment;
    let queue = linux_capture_queue(true);
    match portal {
        Some(p) => {
            let t = "pipewiresrc fd="@ + dec_int(p.fd as int) + " path="@ + dec(p.node_id as nat) + " "@;
            let lit = " do-timestamp=true always-copy=false ! "@;
            assert(lit =~= " "@ + lit.skip(1)) by {
                reveal_strlit(" do-timestamp=true always-copy=false ! ");
                reveal_strlit(" ");
            }
            assert(f =~= Seq::<char>::empty() + t + (lit.skip(1) + queue));
            lemma_holds_middle(Seq::<char>::empty(), t, lit.skip(1) + queue);
        },
        None => {
            if env != LinuxDisplayEnvironment::Wayland {
                let head = "ximagesrc use-damage=true show-pointer="@;
                let src = "ximagesrc use-damage=true "@;
                let shown = cfg.show_cursor;
                let t = "show-pointer="@ + bool_text(shown) + " "@;
                let lit = " do-timestamp=true ! "@;
                assert(lit =~= " "@ + lit.skip(1) && head =~= src + "show-pointer="@) by {
                    reveal_strlit(" do-timestamp=true ! ");
                    reveal_strlit(" ");
                    reveal_strlit("ximagesrc use-damage=true show-pointer=");
                    reveal_strlit("ximagesrc use-damage=true ");
                    reveal_strlit("show-pointer=");
                }
                assert(f =~= src + t + (lit.skip(1) + queue));
                lemma_holds_middle(src, t, lit.skip(1) + queue);
                if other.show_cursor != cfg.show_cursor {
                    let g = linux_video_source(env, portal, other, encoder).pipeline_fragment;
                    reveal_strlit("ximagesrc use-damage=true show-pointer=");
                    reveal_strlit("true");
                    reveal_strlit("false");
                    assert(f[head.len() as int] == bool_text(cfg.show_cursor)[0]);
                    assert(g[head.len() as int] == bool_text(other.show_cursor)[0]);
                }
            }
        },
    }
}

} // verus!
