//! Assembly of the GStreamer pipeline description for a stream.

pub mod encoders;
pub mod generic;
pub mod linux;
pub mod rate;
pub mod windows;

use vstd::prelude::*;
use crate::config::{CANDIDATE_COUNT, Capabilities, StreamConfig, capabilities_spec, probe_answered, views};
use crate::pipeline::encoders::{
    VideoEncoder, EncoderKind, element_of, params_of, pre_caps_of, is_software, is_h265,
};
use crate::pipeline::generic::{scale_caps, scale_caps_spec};
use crate::platform::{PlatformBackend, VideoSourceDescriptor, VideoSourceView};
use crate::text::{
    dec, trim, split_on, join_with, push_u32, trim_str, push_char,
    join_strings, str_eq, push_u64,
};

verus! {

/// Builds pipeline descriptions and probes encoder capabilities.
pub struct PipelineBuilder;

/// What the simple capture-source helpers know of the session: the PipeWire
/// node and descriptor that the screencast portal granted, if any, and
/// whether a Wayland display is set.
pub struct PlatformContext {
    pub portal_info: Option<(u32, i32)>,
    pub wayland_session: bool,
}

/// How many times `c` occurs in `s`.
pub open spec fn count_char(s: Seq<char>, c: char) -> nat
    decreases s.len(),
{
    if s.len() == 0 {
        0
    } else {
        count_char(s.drop_last(), c) + if s.last() == c { 1nat } else { 0nat }
    }
}

/// Whether a host starts with `[`, as a bracketed IPv6 address such as
/// `[::1]` or `[::1]:5000` does.
pub open spec fn bracketed(host: Seq<char>) -> bool {
    host.len() > 0 && host[0] == '['
}

/// The UDP destination written for one client host: a host without `:`
/// gets `:port`; so does a bracketed IPv6 address without a port (one
/// ending in `]`); a bare IPv6 address (two or more `:`, no brackets) is put
/// in brackets and gets `:port`; any other host, which holds a `:`, names its
/// port already and is kept as given.
pub open spec fn client_entry(host: Seq<char>, port: u16) -> Seq<char> {
    if count_char(host, ':') == 0 {
        host + ":"@ + dec(port as nat)
    } else if bracketed(host) && host.last() == ']' {
        host + ":"@ + dec(port as nat)
    } else if !bracketed(host) && count_char(host, ':') >= 2 {
        "["@ + host + "]:"@ + dec(port as nat)
    } else {
        host
    }
}

fn count_colons(s: &str) -> (n: usize)
    ensures
        n == count_char(s@, ':'),
{
    let len = s.unicode_len();
    let mut n: usize = 0;
    let mut i: usize = 0;
    while i < len
        invariant
            len == s@.len(),
            i <= len,
            n == count_char(s@.take(i as int), ':'),
            n <= i,
        decreases len - i,
    {
        assert(s@.take(i + 1).drop_last() =~= s@.take(i as int));
        if s.get_char(i) == ':' {
            n = n + 1;
        }
        i = i + 1;
    }
    assert(s@.take(len as int) =~= s@);
    n
}

proof fn lemma_count_means_contains(s: Seq<char>, c: char)
    requires
        count_char(s, c) > 0,
    ensures
        s.contains(c),
    decreases s.len(),
{
    if s.last() == c {
        assert(s[s.len() - 1] == c);
    } else {
        lemma_count_means_contains(s.drop_last(), c);
        let k = choose|k: int| 0 <= k < s.drop_last().len() && s.drop_last()[k] == c;
        assert(s[k] == c);
    }
}

/// No UDP destination is written without a port: every one holds the `:`
/// that separates the port, whatever host it was given.
pub proof fn law_every_destination_has_a_port(host: Seq<char>, port: u16)
    ensures
        client_entry(host, port).contains(':'),
{
    reveal_strlit("[");
    reveal_strlit("]:");
    reveal_strlit(":");
    let d = dec(port as nat);
    let e = client_entry(host, port);
    if count_char(host, ':') == 0 || (bracketed(host) && host.last() == ']') {
        assert(e[host.len() as int] == ':');
    } else if !bracketed(host) && count_char(host, ':') >= 2 {
        assert(e[(host.len() + 2) as int] == ':');
    } else {
        lemma_count_means_contains(host, ':');
    }
}

proof fn lemma_split_without_separator(s: Seq<char>, sep: char)
    requires
        !s.contains(sep),
    ensures
        split_on(s, sep) == seq![s],
    decreases s.len(),
{
    if s.len() > 0 {
        assert(!s.drop_last().contains(sep)) by {
            if s.drop_last().contains(sep) {
                let k = choose|k: int| 0 <= k < s.drop_last().len() && s.drop_last()[k] == sep;
                assert(s[k] == sep);
            }
        }
        lemma_split_without_separator(s.drop_last(), sep);
        assert(s.last() != sep) by {
            if s.last() == sep {
                assert(s[s.len() - 1] == sep);
            }
        }
        assert(s.drop_last().push(s.last()) =~= s);
        assert(seq![s.drop_last()].update(0, s) =~= seq![s]);
    } else {
        assert(s =~= Seq::<char>::empty());
    }
}

/// A host list naming one host without a port sends to that host, and to
/// it alone, on the given port.
pub proof fn law_single_host_gets_the_port(host: Seq<char>, port: u16, buffer_size: u32)
    requires
        host.len() > 0,
        trim(host) == host,
        !host.contains(','),
        !host.contains(':'),
    ensures
        clients_of(host, port) == seq![host + ":"@ + dec(port as nat)],
        multiudpsink_spec(host, port, buffer_size) == "multiudpsink clients=\""@ + host + ":"@ + dec(port as nat)
            + "\" sync=false async=false buffer-size="@ + dec(buffer_size as nat),
{
    lemma_split_without_separator(host, ',');
    if count_char(host, ':') > 0 {
        lemma_count_means_contains(host, ':');
    }
    let pieces = seq![host];
    assert(pieces.drop_last() =~= Seq::<Seq<char>>::empty());
    assert(client_entries(pieces, port) == client_entries(Seq::<Seq<char>>::empty(), port).push(client_entry(host, port)));
    assert(client_entries(pieces, port) =~= seq![host + ":"@ + dec(port as nat)]);
    let list = seq![host + ":"@ + dec(port as nat)];
    assert(join_with(list, ","@) == list[0]);
}

/// UDP destinations for a list of raw host pieces: each piece trimmed,
/// empty pieces dropped, the others written by [`client_entry`].
pub open spec fn client_entries(pieces: Seq<Seq<char>>, port: u16) -> Seq<Seq<char>>
    decreases pieces.len(),
{
    if pieces.len() == 0 {
        seq![]
    } else {
        let rest = client_entries(pieces.drop_last(), port);
        let h = trim(pieces.last());
        if h.len() == 0 {
            rest
        } else {
            rest.push(client_entry(h, port))
        }
    }
}

/// UDP destinations for a comma-separated host list.
pub open spec fn clients_of(hosts: Seq<char>, port: u16) -> Seq<Seq<char>> {
    client_entries(split_on(hosts, ','), port)
}

/// The `multiudpsink` element that sends to every host of a comma-separated
/// list on `port` (to `127.0.0.1` when the list names no host).
pub open spec fn multiudpsink_spec(hosts: Seq<char>, port: u16, buffer_size: u32) -> Seq<char> {
    let clients = clients_of(hosts, port);
    let list = if clients.len() == 0 {
        "127.0.0.1:"@ + dec(port as nat)
    } else {
        join_with(clients, ","@)
    };
    "multiudpsink clients=\""@ + list + "\" sync=false async=false buffer-size="@ + dec(
        buffer_size as nat,
    )
}

fn add_client(clients: &mut Vec<String>, piece: &str, port: u16)
    ensures
        final(clients)@.map_values(|e: String| e@) == (if trim(piece@).len() == 0 {
            old(clients)@.map_values(|e: String| e@)
        } else {
            old(clients)@.map_values(|e: String| e@).push(client_entry(trim(piece@), port))
        }),
{
    let h = trim_str(piece);
    if h.unicode_len() == 0 {
        return;
    }
    let n = h.unicode_len();
    let is_bracketed = h.get_char(0) == '[';
    let colons = count_colons(h.as_str());
    let e = if colons == 0 || (is_bracketed && h.get_char(n - 1) == ']') {
        let mut e = h.clone();
        e.append(":");
        push_u32(&mut e, port as u32);
        e
    } else if !is_bracketed && colons >= 2 {
        let mut e = String::from_str("[");
        e.append(h.as_str());
        e.append("]:");
        push_u32(&mut e, port as u32);
        e
    } else {
        h
    };
    assert(e@ == client_entry(trim(piece@), port));
    clients.push(e);
    assert(final(clients)@.map_values(|e: String| e@) =~= old(clients)@.map_values(|e: String| e@).push(
        client_entry(trim(piece@), port),
    ));
}

/// UDP destinations for a comma-separated host list.
pub fn client_list(hosts: &str, port: u16) -> (r: Vec<String>)
    ensures
        r@.map_values(|e: String| e@) == clients_of(hosts@, port),
{
    let n = hosts.unicode_len();
    let mut clients: Vec<String> = Vec::new();
    let mut cur = String::new();
    let ghost mut done: Seq<Seq<char>> = seq![];
    let mut i: usize = 0;
    while i < n
        invariant
            n == hosts@.len(),
            i <= n,
            split_on(hosts@.take(i as int), ',') == done.push(cur@),
            clients@.map_values(|e: String| e@) == client_entries(done, port),
        decreases n - i,
    {
        let c = hosts.get_char(i);
        let ghost prev = hosts@.take(i as int);
        assert(hosts@.take(i + 1).drop_last() =~= prev);
        assert(hosts@.take(i + 1).last() == c);
        if c == ',' {
            add_client(&mut clients, cur.as_str(), port);
            proof {
                assert(done.push(cur@).drop_last() =~= done);
                done = done.push(cur@);
            }
            cur = String::new();
            assert(split_on(hosts@.take(i + 1), ',') =~= done.push(cur@));
        } else {
            let ghost old_cur = cur@;
            push_char(&mut cur, c);
            assert(split_on(hosts@.take(i + 1), ',') =~= done.push(cur@));
        }
        i = i + 1;
    }
    assert(hosts@.take(n as int) =~= hosts@);
    add_client(&mut clients, cur.as_str(), port);
    assert(done.push(cur@).drop_last() =~= done);
    clients
}

/// The `multiudpsink` element that sends to every host of a comma-separated
/// list on `port` (to `127.0.0.1` when the list names no host).
pub fn format_multiudpsink(client_hosts_raw: &str, port: u16, buffer_size: u32) -> (r: String)
    ensures
        r@ == multiudpsink_spec(client_hosts_raw@, port, buffer_size),
{
    let clients = client_list(client_hosts_raw, port);
    let mut s = String::new();
    s.append("multiudpsink clients=\"");
    if clients.len() == 0 {
        s.append("127.0.0.1:");
        push_u32(&mut s, port as u32);
    } else {
        let joined = join_strings(&clients, ",");
        s.append(joined.as_str());
    }
    s.append("\" sync=false async=false buffer-size=");
    push_u32(&mut s, buffer_size);
    assert(s@ =~= multiudpsink_spec(client_hosts_raw@, port, buffer_size));
    s
}


/// The audio bitrate in bit/s for a bitrate in kbit/s (the product wraps
/// around at 2^32, as the release build computes it).
pub open spec fn audio_bps(kbps: u32) -> u32 {
    ((kbps as int * 1000) % 0x1_0000_0000) as u32
}

/// The Opus audio branch from a capture element.
pub open spec fn opus_branch(src: Seq<char>, bps: u32) -> Seq<char> {
    src + " ! queue max-size-buffers=5 max-size-bytes=0 max-size-time=0 leaky=downstream ! audioconvert ! audioresample ! opusenc inband-fec=true frame-size=10 audio-type=2051 bitrate="@
        + dec(bps as nat) + " ! rtpopuspay"@
}

/// A branch followed by SRTP encryption with `key`.
pub open spec fn with_srtp(branch: Seq<char>, key: Seq<char>) -> Seq<char> {
    branch + " ! srtpenc key=\""@ + key
        + "\" rtp-cipher=aes-128-icm rtp-auth=hmac-sha1-80 rtcp-cipher=aes-128-icm rtcp-auth=hmac-sha1-80"@
}

/// A branch, encrypted when the configuration has an SRTP key.
pub open spec fn maybe_srtp(branch: Seq<char>, cfg: StreamConfig) -> Seq<char> {
    match cfg.srtp_key {
        Some(k) => with_srtp(branch, k@),
        None => branch,
    }
}

/// The video branch: capture, conversion, caps, encoder, parser and RTP
/// payloader for the encoder's codec.
pub open spec fn video_branch(cfg: StreamConfig, k: EncoderKind, vs: VideoSourceView) -> Seq<char> {
    let base_caps = scale_caps_spec(cfg, pre_caps_of(k), !is_software(k), vs.preferred_memory_feature);
    let caps = match vs.raw_caps_filter {
        Some(f) => f + base_caps,
        None => base_caps,
    };
    let head = vs.pipeline_fragment + " ! "@ + vs.preferred_converter + " ! "@ + caps + element_of(k)
        + " name=video_encoder "@ + params_of(k, cfg);
    let queue = "queue max-size-buffers="@ + dec(cfg.queue_max_buffers as nat)
        + " max-size-bytes=0 max-size-time="@ + dec(cfg.queue_max_time_ns as nat);
    if is_h265(k) {
        head
            + " ! video/x-h265 ! h265parse config-interval=-1 disable-passthrough=true ! video/x-h265,stream-format=byte-stream,alignment=au ! "@
            + queue + " ! rtph265pay mtu="@ + dec(cfg.rtp_mtu as nat) + " config-interval=-1 pt=96 aggregate-mode="@
            + cfg.aggregate_mode@
    } else {
        head
            + " ! video/x-h264,profile=constrained-baseline ! h264parse config-interval=-1 disable-passthrough=true ! video/x-h264,stream-format=byte-stream,alignment=au ! "@
            + queue + " ! rtph264pay mtu="@ + dec(cfg.rtp_mtu as nat) + " config-interval=-1 pt=96 aggregate-mode="@
            + cfg.aggregate_mode@
    }
}

/// RTP port of the video stream.
pub const VIDEO_PORT: u16 = 5004;

/// RTP port of the audio stream.
pub const AUDIO_PORT: u16 = 5006;

/// Socket buffer size of the audio sender next to a video stream.
pub const AUDIO_SINK_BUFFER: u32 = 1048576;

/// The whole pipeline description. Audio-only streams send Opus to every
/// client on the audio port; other streams send the encoded video on the
/// video port and, when audio is on, Opus on the audio port; every branch
/// is SRTP-encrypted when the configuration has a key.
pub open spec fn pipeline_spec(
    cfg: StreamConfig,
    k: EncoderKind,
    vs: VideoSourceView,
    audio_src: Seq<char>,
) -> Seq<char> {
    let audio = maybe_srtp(opus_branch(audio_src, audio_bps(cfg.audio_bitrate)), cfg);
    if cfg.audio_only {
        audio + " ! "@ + multiudpsink_spec(cfg.client_host@, AUDIO_PORT, cfg.udp_buffer_size)
    } else {
        let video = maybe_srtp(video_branch(cfg, k, vs), cfg);
        let audio_part = if cfg.audio {
            " "@ + audio + " ! "@ + multiudpsink_spec(cfg.client_host@, AUDIO_PORT, AUDIO_SINK_BUFFER)
        } else {
            seq![]
        };
        video + " ! "@ + multiudpsink_spec(cfg.client_host@, VIDEO_PORT, cfg.udp_buffer_size) + audio_part
    }
}

fn build_opus_branch(src: &str, bps: u32) -> (r: String)
    ensures
        r@ == opus_branch(src@, bps),
{
    let mut s = String::from_str(src);
    s.append(
        " ! queue max-size-buffers=5 max-size-bytes=0 max-size-time=0 leaky=downstream ! audioconvert ! audioresample ! opusenc inband-fec=true frame-size=10 audio-type=2051 bitrate=",
    );
    push_u32(&mut s, bps);
    s.append(" ! rtpopuspay");
    assert(s@ =~= opus_branch(src@, bps));
    s
}

fn add_srtp(branch: String, cfg: &StreamConfig) -> (r: String)
    ensures
        r@ == maybe_srtp(branch@, *cfg),
{
    match &cfg.srtp_key {
        Some(key) => {
            let mut s = branch;
            s.append(" ! srtpenc key=\"");
            s.append(key.as_str());
            s.append(
                "\" rtp-cipher=aes-128-icm rtp-auth=hmac-sha1-80 rtcp-cipher=aes-128-icm rtcp-auth=hmac-sha1-80",
            );
            assert(s@ =~= with_srtp(branch@, key@));
            s
        },
        None => branch,
    }
}

fn build_video_branch<E: VideoEncoder>(cfg: &StreamConfig, enc: &E, vs: &VideoSourceDescriptor) -> (r: String)
    ensures
        r@ == video_branch(*cfg, enc.kind_spec(), vs@),
{
    let base_caps = scale_caps(cfg, enc.pre_caps(), enc.is_hardware(), vs.preferred_memory_feature);
    let mut s = String::from_str(vs.pipeline_fragment.as_str());
    s.append(" ! ");
    s.append(vs.preferred_converter.as_str());
    s.append(" ! ");
    if let Some(f) = &vs.raw_caps_filter {
        s.append(f.as_str());
    }
    s.append(base_caps.as_str());
    s.append(enc.gst_element());
    s.append(" name=video_encoder ");
    let params = enc.encode_params(cfg);
    s.append(params.as_str());
    let h265 = str_eq(enc.codec_name(), "h265");
    proof {
        reveal_strlit("h265");
        reveal_strlit("h264");
    }
    assert(h265 == is_h265(enc.kind_spec())) by {
        assert("h264"@ != "h265"@) by {
            assert("h264"@[3] != "h265"@[3]);
        }
    }
    assert(crate::pipeline::encoders::opt_view(vs.preferred_memory_feature) == vs@.preferred_memory_feature);
    let ghost caps_spec = match vs@.raw_caps_filter {
        Some(f) => f + base_caps@,
        None => base_caps@,
    };
    assert(s@ =~= vs@.pipeline_fragment + " ! "@ + vs@.preferred_converter + " ! "@ + caps_spec + element_of(enc.kind_spec())
        + " name=video_encoder "@ + params_of(enc.kind_spec(), *cfg));
    if h265 {
        s.append(
            " ! video/x-h265 ! h265parse config-interval=-1 disable-passthrough=true ! video/x-h265,stream-format=byte-stream,alignment=au ! ",
        );
    } else {
        s.append(
            " ! video/x-h264,profile=constrained-baseline ! h264parse config-interval=-1 disable-passthrough=true ! video/x-h264,stream-format=byte-stream,alignment=au ! ",
        );
    }
    s.append("queue max-size-buffers=");
    push_u32(&mut s, cfg.queue_max_buffers);
    s.append(" max-size-bytes=0 max-size-time=");
    push_u64(&mut s, cfg.queue_max_time_ns);
    if h265 {
        s.append(" ! rtph265pay mtu=");
    } else {
        s.append(" ! rtph264pay mtu=");
    }
    push_u32(&mut s, cfg.rtp_mtu);
    s.append(" config-interval=-1 pt=96 aggregate-mode=");
    s.append(cfg.aggregate_mode.as_str());
    assert(s@ =~= video_branch(*cfg, enc.kind_spec(), vs@));
    s
}

impl PipelineBuilder {
    /// The pipeline description for a configuration, an encoder and a
    /// platform.
    pub fn build_pipeline<E: VideoEncoder, P: PlatformBackend>(
        cfg: &StreamConfig,
        enc: &E,
        platform: &P,
    ) -> (r: String)
        ensures
            r@ == pipeline_spec(
                *cfg,
                enc.kind_spec(),
                platform.video_source_spec(*cfg, enc.kind_spec()),
                platform.audio_source_spec(*cfg),
            ),
    {
        let audio_bitrate = cfg.audio_bitrate.wrapping_mul(1000);
        assert(audio_bitrate == audio_bps(cfg.audio_bitrate));
        let udp_buf = cfg.udp_buffer_size;
        if cfg.audio_only {
            let src = platform.build_audio_source(cfg);
            let audio = add_srtp(build_opus_branch(src.as_str(), audio_bitrate), cfg);
            let sink = format_multiudpsink(cfg.client_host.as_str(), AUDIO_PORT, udp_buf);
            let mut s = audio;
            s.append(" ! ");
            s.append(sink.as_str());
            return s;
        }
        let video_desc = platform.build_video_source(cfg, enc);
        let video = add_srtp(build_video_branch(cfg, enc, &video_desc), cfg);
        let video_sink = format_multiudpsink(cfg.client_host.as_str(), VIDEO_PORT, udp_buf);
        let mut s = video;
        s.append(" ! ");
        s.append(video_sink.as_str());
        if cfg.audio {
            let src = platform.build_audio_source(cfg);
            let audio = add_srtp(build_opus_branch(src.as_str(), audio_bitrate), cfg);
            let audio_sink = format_multiudpsink(cfg.client_host.as_str(), AUDIO_PORT, AUDIO_SINK_BUFFER);
            s.append(" ");
            s.append(audio.as_str());
            s.append(" ! ");
            s.append(audio_sink.as_str());
        }
        s
    }
}


impl PipelineBuilder {
    /// The encoders this machine offers, probed with `instantiable` (see
    /// [`crate::config::probe_capabilities`]).
    pub fn probe_capabilities<F: Fn(&str) -> bool>(instantiable: F) -> (r: Capabilities)
        requires
            forall|e: &str| #[trigger] instantiable.requires((e,)),
        ensures
            exists|ok: Seq<bool>|
                {
                    &&& ok.len() == CANDIDATE_COUNT
                    &&& forall|i: int|
                        0 <= i < CANDIDATE_COUNT ==> #[trigger] probe_answered(instantiable, i, ok[i])
                    &&& views(r.encoders@) == capabilities_spec(ok)
                },
    {
        crate::config::probe_capabilities(instantiable)
    }
}


/// An audio-only stream starts no video: its pipeline is the same whatever
/// the encoder and the capture source.
pub proof fn law_audio_only_has_no_video(
    cfg: StreamConfig,
    k1: EncoderKind,
    k2: EncoderKind,
    vs1: VideoSourceView,
    vs2: VideoSourceView,
    audio_src: Seq<char>,
)
    requires
        cfg.audio_only,
    ensures
        pipeline_spec(cfg, k1, vs1, audio_src) == pipeline_spec(cfg, k2, vs2, audio_src),
{
}


/// Whether `t` occurs in `s`.
pub open spec fn holds_text(s: Seq<char>, t: Seq<char>) -> bool {
    exists|i: int| 0 <= i && i + t.len() <= s.len() && #[trigger] s.subrange(i, i + t.len()) == t
}

pub(crate) proof fn lemma_holds_middle(a: Seq<char>, t: Seq<char>, b: Seq<char>)
    ensures
        holds_text(a + t + b, t),
{
    let s = a + t + b;
    assert(s.subrange(a.len() as int, (a.len() + t.len()) as int) =~= t);
}

pub(crate) proof fn lemma_holds_extend(s: Seq<char>, u: Seq<char>, t: Seq<char>)
    requires
        holds_text(s, t),
    ensures
        holds_text(s + u, t),
{
    let i = choose|i: int| 0 <= i && i + t.len() <= s.len() && #[trigger] s.subrange(i, i + t.len()) == t;
    assert((s + u).subrange(i, i + t.len()) =~= s.subrange(i, i + t.len()));
}

proof fn lemma_video_branch_names_its_encoder(cfg: StreamConfig, k: EncoderKind, vs: VideoSourceView)
    ensures
        holds_text(video_branch(cfg, k, vs), element_of(k) + " name=video_encoder "@),
{
    let t = element_of(k) + " name=video_encoder "@;
    let base_caps = scale_caps_spec(cfg, pre_caps_of(k), !is_software(k), vs.preferred_memory_feature);
    let caps = match vs.raw_caps_filter {
        Some(f) => f + base_caps,
        None => base_caps,
    };
    let before = vs.pipeline_fragment + " ! "@ + vs.preferred_converter + " ! "@ + caps;
    let head = before + element_of(k) + " name=video_encoder "@ + params_of(k, cfg);
    assert(head =~= before + t + params_of(k, cfg));
    lemma_holds_middle(before, t, params_of(k, cfg));
    let vb = video_branch(cfg, k, vs);
    let rest = vb.subrange(head.len() as int, vb.len() as int);
    assert(vb =~= head + rest);
    lemma_holds_extend(head, rest, t);
}

/// Every pipeline that streams video runs its encoder under the element
/// name `video_encoder`, which live bitrate changes and key frame requests
/// look up.
#[verifier::spinoff_prover]
#[verifier::rlimit(40)]
pub proof fn law_video_pipeline_names_its_encoder(
    cfg: StreamConfig,
    k: EncoderKind,
    vs: VideoSourceView,
    audio_src: Seq<char>,
)
    requires
        !cfg.audio_only,
    ensures
        holds_text(pipeline_spec(cfg, k, vs, audio_src), element_of(k) + " name=video_encoder "@),
{
    let t = element_of(k) + " name=video_encoder "@;
    let vb = video_branch(cfg, k, vs);
    lemma_video_branch_names_its_encoder(cfg, k, vs);
    let video = maybe_srtp(vb, cfg);
    let rest_video = video.subrange(vb.len() as int, video.len() as int);
    assert(video =~= vb + rest_video);
    lemma_holds_extend(vb, rest_video, t);
    let p = pipeline_spec(cfg, k, vs, audio_src);
    let rest = p.subrange(video.len() as int, p.len() as int);
    assert(p =~= video + rest);
    lemma_holds_extend(video, rest, t);
}


/// Whether `s` ends with `t`.
pub open spec fn ends_with(s: Seq<char>, t: Seq<char>) -> bool {
    t.len() <= s.len() && s.subrange(s.len() - t.len(), s.len() as int) == t
}

proof fn lemma_ends_with_concat(a: Seq<char>, t: Seq<char>)
    ensures
        ends_with(a + t, t),
{
    assert((a + t).subrange(a.len() as int, (a + t).len() as int) =~= t);
}

proof fn lemma_opus_literal_split()
    ensures
        " ! queue max-size-buffers=5 max-size-bytes=0 max-size-time=0 leaky=downstream ! audioconvert ! audioresample ! opusenc inband-fec=true frame-size=10 audio-type=2051 bitrate="@ == " ! queue max-size-buffers=5 max-size-bytes=0 max-size-time=0 leaky=downstream ! audioconvert ! audioresample ! opusenc inband-fec=true frame-size=10 audio-type=2051"@ + " bitrate="@,
{
    reveal_strlit(" ! queue max-size-buffers=5 max-size-bytes=0 max-size-time=0 leaky=downstream ! audioconvert ! audioresample ! opusenc inband-fec=true frame-size=10 audio-type=2051 bitrate=");
    reveal_strlit(" ! queue max-size-buffers=5 max-size-bytes=0 max-size-time=0 leaky=downstream ! audioconvert ! audioresample ! opusenc inband-fec=true frame-size=10 audio-type=2051");
    reveal_strlit(" bitrate=");
    assert(" ! queue max-size-buffers=5 max-size-bytes=0 max-size-time=0 leaky=downstream ! audioconvert ! audioresample ! opusenc inband-fec=true frame-size=10 audio-type=2051 bitrate="@ =~= " ! queue max-size-buffers=5 max-size-bytes=0 max-size-time=0 leaky=downstream ! audioconvert ! audioresample ! opusenc inband-fec=true frame-size=10 audio-type=2051"@ + " bitrate="@);
}

proof fn lemma_srtp_literal_split()
    ensures
        "\" rtp-cipher=aes-128-icm rtp-auth=hmac-sha1-80 rtcp-cipher=aes-128-icm rtcp-auth=hmac-sha1-80"@
            == "\""@ + " rtp-cipher=aes-128-icm rtp-auth=hmac-sha1-80 rtcp-cipher=aes-128-icm rtcp-auth=hmac-sha1-80"@,
{
    reveal_strlit("\" rtp-cipher=aes-128-icm rtp-auth=hmac-sha1-80 rtcp-cipher=aes-128-icm rtcp-auth=hmac-sha1-80");
    reveal_strlit("\"");
    reveal_strlit(" rtp-cipher=aes-128-icm rtp-auth=hmac-sha1-80 rtcp-cipher=aes-128-icm rtcp-auth=hmac-sha1-80");
    assert("\" rtp-cipher=aes-128-icm rtp-auth=hmac-sha1-80 rtcp-cipher=aes-128-icm rtcp-auth=hmac-sha1-80"@
        =~= "\""@ + " rtp-cipher=aes-128-icm rtp-auth=hmac-sha1-80 rtcp-cipher=aes-128-icm rtcp-auth=hmac-sha1-80"@);
}

proof fn lemma_codec_literal_split(h265: bool)
    ensures
        h265 ==> " ! video/x-h265 ! h265parse config-interval=-1 disable-passthrough=true ! video/x-h265,stream-format=byte-stream,alignment=au ! "@ == " ! "@ + " ! video/x-h265 ! h265parse config-interval=-1 disable-passthrough=true ! video/x-h265,stream-format=byte-stream,alignment=au ! "@.skip(3),
        !h265 ==> " ! video/x-h264,profile=constrained-baseline ! h264parse config-interval=-1 disable-passthrough=true ! video/x-h264,stream-format=byte-stream,alignment=au ! "@ == " ! "@ + " ! video/x-h264,profile=constrained-baseline ! h264parse config-interval=-1 disable-passthrough=true ! video/x-h264,stream-format=byte-stream,alignment=au ! "@.skip(3),
{
    reveal_strlit(" ! video/x-h265 ! h265parse config-interval=-1 disable-passthrough=true ! video/x-h265,stream-format=byte-stream,alignment=au ! ");
    reveal_strlit(" ! video/x-h264,profile=constrained-baseline ! h264parse config-interval=-1 disable-passthrough=true ! video/x-h264,stream-format=byte-stream,alignment=au ! ");
    reveal_strlit(" ! ");
    assert(" ! video/x-h265 ! h265parse config-interval=-1 disable-passthrough=true ! video/x-h265,stream-format=byte-stream,alignment=au ! "@ =~= " ! "@ + " ! video/x-h265 ! h265parse config-interval=-1 disable-passthrough=true ! video/x-h265,stream-format=byte-stream,alignment=au ! "@.skip(3));
    assert(" ! video/x-h264,profile=constrained-baseline ! h264parse config-interval=-1 disable-passthrough=true ! video/x-h264,stream-format=byte-stream,alignment=au ! "@ =~= " ! "@ + " ! video/x-h264,profile=constrained-baseline ! h264parse config-interval=-1 disable-passthrough=true ! video/x-h264,stream-format=byte-stream,alignment=au ! "@.skip(3));
}

/// What a pipeline sends where: video goes to every configured host on the
/// video port through the configured socket buffer; audio next to video
/// goes to the same hosts on the audio port and closes the pipeline; an
/// audio-only stream ends with its sink to the same hosts on the audio
/// port.
#[verifier::spinoff_prover]
#[verifier::rlimit(40)]
pub proof fn law_streams_reach_the_configured_clients(
    cfg: StreamConfig,
    k: EncoderKind,
    vs: VideoSourceView,
    audio_src: Seq<char>,
)
    ensures
        !cfg.audio_only ==> holds_text(
            pipeline_spec(cfg, k, vs, audio_src),
            " ! "@ + multiudpsink_spec(cfg.client_host@, VIDEO_PORT, cfg.udp_buffer_size),
        ),
        !cfg.audio_only && cfg.audio ==> ends_with(
            pipeline_spec(cfg, k, vs, audio_src),
            " ! "@ + multiudpsink_spec(cfg.client_host@, AUDIO_PORT, AUDIO_SINK_BUFFER),
        ),
        cfg.audio_only ==> ends_with(
            pipeline_spec(cfg, k, vs, audio_src),
            " ! "@ + multiudpsink_spec(cfg.client_host@, AUDIO_PORT, cfg.udp_buffer_size),
        ),
{
    let p = pipeline_spec(cfg, k, vs, audio_src);
    let audio = maybe_srtp(opus_branch(audio_src, audio_bps(cfg.audio_bitrate)), cfg);
    if cfg.audio_only {
        let t = " ! "@ + multiudpsink_spec(cfg.client_host@, AUDIO_PORT, cfg.udp_buffer_size);
        assert(p =~= audio + t);
        lemma_ends_with_concat(audio, t);
    } else {
        let video = maybe_srtp(video_branch(cfg, k, vs), cfg);
        let vt = " ! "@ + multiudpsink_spec(cfg.client_host@, VIDEO_PORT, cfg.udp_buffer_size);
        let at = " ! "@ + multiudpsink_spec(cfg.client_host@, AUDIO_PORT, AUDIO_SINK_BUFFER);
        if cfg.audio {
            assert(p =~= video + vt + (" "@ + audio + at));
            lemma_holds_middle(video, vt, " "@ + audio + at);
            assert(p =~= (video + vt + " "@ + audio) + at);
            lemma_ends_with_concat(video + vt + " "@ + audio, at);
        } else {
            assert(p =~= video + vt + Seq::<char>::empty());
            lemma_holds_middle(video, vt, Seq::<char>::empty());
        }
    }
}

/// Whenever a stream carries audio, the Opus encoder runs at the configured
/// audio bitrate in bit/s (kbit/s times 1000, wrapping at 2^32).
#[verifier::spinoff_prover]
#[verifier::rlimit(40)]
pub proof fn law_audio_runs_at_the_configured_bitrate(
    cfg: StreamConfig,
    k: EncoderKind,
    vs: VideoSourceView,
    audio_src: Seq<char>,
)
    requires
        cfg.audio_only || cfg.audio,
    ensures
        holds_text(
            pipeline_spec(cfg, k, vs, audio_src),
            " bitrate="@ + dec(((cfg.audio_bitrate as int * 1000) % 0x1_0000_0000) as nat) + " ! rtpopuspay"@,
        ),
{
    let p = pipeline_spec(cfg, k, vs, audio_src);
    let t = " bitrate="@ + dec(((cfg.audio_bitrate as int * 1000) % 0x1_0000_0000) as nat) + " ! rtpopuspay"@;
    let opus_front = " ! queue max-size-buffers=5 max-size-bytes=0 max-size-time=0 leaky=downstream ! audioconvert ! audioresample ! opusenc inband-fec=true frame-size=10 audio-type=2051"@;
    lemma_opus_literal_split();
    let head = audio_src + opus_front;
    let ob = opus_branch(audio_src, audio_bps(cfg.audio_bitrate));
    assert(ob =~= head + t);
    let audio = maybe_srtp(ob, cfg);
    let ra = audio.subrange(ob.len() as int, audio.len() as int);
    assert(audio =~= head + t + ra);
    let at = " ! "@ + multiudpsink_spec(cfg.client_host@, AUDIO_PORT, if cfg.audio_only { cfg.udp_buffer_size } else { AUDIO_SINK_BUFFER });
    if cfg.audio_only {
        assert(p =~= head + t + (ra + at));
        lemma_holds_middle(head, t, ra + at);
    } else {
        let video = maybe_srtp(video_branch(cfg, k, vs), cfg);
        let vt = " ! "@ + multiudpsink_spec(cfg.client_host@, VIDEO_PORT, cfg.udp_buffer_size);
        assert(p =~= (video + vt + " "@ + head) + t + (ra + at));
        lemma_holds_middle(video + vt + " "@ + head, t, ra + at);
    }
}

/// A stream with an SRTP key encrypts with exactly that key, on every
/// branch it carries.
#[verifier::spinoff_prover]
#[verifier::rlimit(40)]
pub proof fn law_srtp_uses_the_configured_key(
    cfg: StreamConfig,
    k: EncoderKind,
    vs: VideoSourceView,
    audio_src: Seq<char>,
)
    requires
        cfg.srtp_key is Some,
    ensures
        holds_text(pipeline_spec(cfg, k, vs, audio_src), " ! srtpenc key=\""@ + cfg.srtp_key->0@ + "\""@),
{
    let key = cfg.srtp_key->0@;
    let t = " ! srtpenc key=\""@ + key + "\""@;
    let tail = " rtp-cipher=aes-128-icm rtp-auth=hmac-sha1-80 rtcp-cipher=aes-128-icm rtcp-auth=hmac-sha1-80"@;
    lemma_srtp_literal_split();
    let p = pipeline_spec(cfg, k, vs, audio_src);
    let ob = opus_branch(audio_src, audio_bps(cfg.audio_bitrate));
    if cfg.audio_only {
        let at = " ! "@ + multiudpsink_spec(cfg.client_host@, AUDIO_PORT, cfg.udp_buffer_size);
        assert(p =~= ob + t + (tail + at));
        lemma_holds_middle(ob, t, tail + at);
    } else {
        let vb = video_branch(cfg, k, vs);
        let video = maybe_srtp(vb, cfg);
        assert(video =~= vb + t + tail);
        let rest = p.subrange(video.len() as int, p.len() as int);
        assert(p =~= video + rest);
        assert(p =~= vb + t + (tail + rest));
        lemma_holds_middle(vb, t, tail + rest);
    }
}

spec fn caps_before_encoder(cfg: StreamConfig, k: EncoderKind, vs: VideoSourceView) -> Seq<char> {
    let base_caps = scale_caps_spec(cfg, pre_caps_of(k), !is_software(k), vs.preferred_memory_feature);
    let caps = match vs.raw_caps_filter {
        Some(f) => f + base_caps,
        None => base_caps,
    };
    vs.pipeline_fragment + " ! "@ + vs.preferred_converter + " ! "@ + caps
}

spec fn branch_after_encoder(cfg: StreamConfig, k: EncoderKind) -> Seq<char> {
    let queue = "queue max-size-buffers="@ + dec(cfg.queue_max_buffers as nat)
        + " max-size-bytes=0 max-size-time="@ + dec(cfg.queue_max_time_ns as nat);
    if is_h265(k) {
        " ! video/x-h265 ! h265parse config-interval=-1 disable-passthrough=true ! video/x-h265,stream-format=byte-stream,alignment=au ! "@.skip(3) + queue + " ! rtph265pay mtu="@ + dec(cfg.rtp_mtu as nat)
            + " config-interval=-1 pt=96 aggregate-mode="@ + cfg.aggregate_mode@
    } else {
        " ! video/x-h264,profile=constrained-baseline ! h264parse config-interval=-1 disable-passthrough=true ! video/x-h264,stream-format=byte-stream,alignment=au ! "@.skip(3) + queue + " ! rtph264pay mtu="@ + dec(cfg.rtp_mtu as nat)
            + " config-interval=-1 pt=96 aggregate-mode="@ + cfg.aggregate_mode@
    }
}

proof fn lemma_branch_regroup(
    pre: Seq<char>,
    elem: Seq<char>,
    name: Seq<char>,
    params: Seq<char>,
    lit: Seq<char>,
    queue: Seq<char>,
    pay: Seq<char>,
    d: Seq<char>,
    c: Seq<char>,
    agg: Seq<char>,
)
    requires
        lit == " ! "@ + lit.skip(3),
    ensures
        pre + elem + name + params + lit + queue + pay + d + c + agg == pre + (elem + name + params + " ! "@)
            + (lit.skip(3) + queue + pay + d + c + agg),
{
    assert(pre + elem + name + params + lit + queue + pay + d + c + agg =~= pre + (elem + name + params + " ! "@)
        + (lit.skip(3) + queue + pay + d + c + agg));
}

#[verifier::spinoff_prover]
#[verifier::rlimit(40)]
proof fn lemma_video_branch_shape(cfg: StreamConfig, k: EncoderKind, vs: VideoSourceView)
    ensures
        video_branch(cfg, k, vs) == caps_before_encoder(cfg, k, vs)
            + (element_of(k) + " name=video_encoder "@ + params_of(k, cfg) + " ! "@)
            + branch_after_encoder(cfg, k),
{
    lemma_codec_literal_split(is_h265(k));
    let queue = "queue max-size-buffers="@ + dec(cfg.queue_max_buffers as nat)
        + " max-size-bytes=0 max-size-time="@ + dec(cfg.queue_max_time_ns as nat);
    if is_h265(k) {
        lemma_branch_regroup(
            caps_before_encoder(cfg, k, vs), element_of(k), " name=video_encoder "@, params_of(k, cfg),
            " ! video/x-h265 ! h265parse config-interval=-1 disable-passthrough=true ! video/x-h265,stream-format=byte-stream,alignment=au ! "@, queue, " ! rtph265pay mtu="@, dec(cfg.rtp_mtu as nat),
            " config-interval=-1 pt=96 aggregate-mode="@, cfg.aggregate_mode@,
        );
    } else {
        lemma_branch_regroup(
            caps_before_encoder(cfg, k, vs), element_of(k), " name=video_encoder "@, params_of(k, cfg),
            " ! video/x-h264,profile=constrained-baseline ! h264parse config-interval=-1 disable-passthrough=true ! video/x-h264,stream-format=byte-stream,alignment=au ! "@, queue, " ! rtph264pay mtu="@, dec(cfg.rtp_mtu as nat),
            " config-interval=-1 pt=96 aggregate-mode="@, cfg.aggregate_mode@,
        );
    }
}

/// A video stream starts at the platform's capture source, passes its
/// converter and reaches the encoder with the encoder's own properties.
#[verifier::spinoff_prover]
#[verifier::rlimit(40)]
pub proof fn law_video_flows_from_source_to_encoder(
    cfg: StreamConfig,
    k: EncoderKind,
    vs: VideoSourceView,
    audio_src: Seq<char>,
)
    requires
        !cfg.audio_only,
    ensures
        pipeline_spec(cfg, k, vs, audio_src).take(
            (vs.pipeline_fragment + " ! "@ + vs.preferred_converter + " ! "@).len() as int,
        ) == vs.pipeline_fragment + " ! "@ + vs.preferred_converter + " ! "@,
        holds_text(
            pipeline_spec(cfg, k, vs, audio_src),
            element_of(k) + " name=video_encoder "@ + params_of(k, cfg) + " ! "@,
        ),
{
    let p = pipeline_spec(cfg, k, vs, audio_src);
    let front = vs.pipeline_fragment + " ! "@ + vs.preferred_converter + " ! "@;
    let t = element_of(k) + " name=video_encoder "@ + params_of(k, cfg) + " ! "@;
    let pre = caps_before_encoder(cfg, k, vs);
    let vb = video_branch(cfg, k, vs);
    lemma_video_branch_shape(cfg, k, vs);
    let video = maybe_srtp(vb, cfg);
    let r1 = video.subrange(vb.len() as int, video.len() as int);
    assert(video =~= vb + r1);
    let r2 = p.subrange(video.len() as int, p.len() as int);
    assert(p =~= video + r2);
    let rest = branch_after_encoder(cfg, k) + r1 + r2;
    assert(p =~= pre + t + rest);
    lemma_holds_middle(pre, t, rest);
    let caps = pre.skip(front.len() as int);
    assert(pre =~= front + caps);
    assert(p =~= front + (caps + t + rest));
    assert(p.take(front.len() as int) =~= front);
}

} // verus!
