//! Stream configuration, its defaults, the command-line reading of it, the
//! encoder capability list and the configuration store.

use vstd::prelude::*;
use crate::text::{str_eq, parse_u32, to_ascii_lower, ascii_lower, parse_u32_spec, dec, law_parse_reads_rendered_number};

verus! {

/// The video encoder that a client asks for.
#[derive(Debug, PartialEq, Eq, Structural, Clone, Copy)]
pub enum EncoderChoice {
    Auto,
    X264,
    X265,
    VaH264,
    VaH265,
    Nvenc,
    NvencH265,
    Qsv,
    QsvH265,
    Amf,
    AmfH265,
    Mf,
    MfH265,
}

impl Default for EncoderChoice {
    fn default() -> (r: Self)
        ensures
            r == EncoderChoice::Auto,
    {
        EncoderChoice::Auto
    }
}

/// Everything that shapes a stream: capture geometry, encoder choice and
/// tuning, RTP transport and audio.
#[derive(Debug, PartialEq)]
pub struct StreamConfig {
    pub width: Option<u32>,
    pub height: Option<u32>,
    pub framerate: Option<u32>,
    pub bitrate: u32,
    pub encoder: EncoderChoice,
    pub client_host: String,
    pub audio: bool,
    pub audio_only: bool,
    pub audio_bitrate: u32,
    pub token: Option<String>,
    pub gdi: bool,
    pub monitor_index: u32,
    pub speed_preset: String,
    pub tune: String,
    pub nvenc_preset: String,
    pub nvenc_tune: String,
    pub vaapi_target_usage: u32,
    pub qsv_target_usage: u32,
    pub rc_mode: String,
    pub cqp_value: u32,
    pub key_int_max: u32,
    pub bframes: u32,
    pub ref_frames: u32,
    pub rtp_mtu: u32,
    pub queue_max_time_ns: u64,
    pub queue_max_buffers: u32,
    pub aggregate_mode: String,
    pub udp_buffer_size: u32,
    pub show_cursor: bool,
    pub colorimetry: String,
    pub srtp_key: Option<String>,
}

fn clone_opt_string(o: &Option<String>) -> (r: Option<String>)
    ensures
        r == *o,
{
    match o {
        Some(s) => Some(s.clone()),
        None => None,
    }
}

impl Clone for StreamConfig {
    fn clone(&self) -> (r: Self)
        ensures
            r == *self,
    {
        StreamConfig {
            width: self.width,
            height: self.height,
            framerate: self.framerate,
            bitrate: self.bitrate,
            encoder: self.encoder,
            client_host: self.client_host.clone(),
            audio: self.audio,
            audio_only: self.audio_only,
            audio_bitrate: self.audio_bitrate,
            token: clone_opt_string(&self.token),
            gdi: self.gdi,
            monitor_index: self.monitor_index,
            speed_preset: self.speed_preset.clone(),
            tune: self.tune.clone(),
            nvenc_preset: self.nvenc_preset.clone(),
            nvenc_tune: self.nvenc_tune.clone(),
            vaapi_target_usage: self.vaapi_target_usage,
            qsv_target_usage: self.qsv_target_usage,
            rc_mode: self.rc_mode.clone(),
            cqp_value: self.cqp_value,
            key_int_max: self.key_int_max,
            bframes: self.bframes,
            ref_frames: self.ref_frames,
            rtp_mtu: self.rtp_mtu,
            queue_max_time_ns: self.queue_max_time_ns,
            queue_max_buffers: self.queue_max_buffers,
            aggregate_mode: self.aggregate_mode.clone(),
            udp_buffer_size: self.udp_buffer_size,
            show_cursor: self.show_cursor,
            colorimetry: self.colorimetry.clone(),
            srtp_key: clone_opt_string(&self.srtp_key),
        }
    }
}

fn default_speed_preset() -> (r: String)
    ensures
        r@ == "ultrafast"@,
{
    String::from_str("ultrafast")
}

fn default_tune() -> (r: String)
    ensures
        r@ == "zerolatency"@,
{
    String::from_str("zerolatency")
}

fn default_nvenc_preset() -> (r: String)
    ensures
        r@ == "p4"@,
{
    String::from_str("p4")
}

fn default_nvenc_tune() -> (r: String)
    ensures
        r@ == "ultra-low-latency"@,
{
    String::from_str("ultra-low-latency")
}

fn default_vaapi_target_usage() -> (r: u32)
    ensures
        r == 1,
{
    1
}

fn default_qsv_target_usage() -> (r: u32)
    ensures
        r == 7,
{
    7
}

fn default_rc_mode() -> (r: String)
    ensures
        r@ == "cbr"@,
{
    String::from_str("cbr")
}

fn default_cqp_value() -> (r: u32)
    ensures
        r == 26,
{
    26
}

fn default_key_int_max() -> (r: u32)
    ensures
        r == 60,
{
    60
}

fn default_bframes() -> (r: u32)
    ensures
        r == 0,
{
    0
}

fn default_ref_frames() -> (r: u32)
    ensures
        r == 1,
{
    1
}

fn default_rtp_mtu() -> (r: u32)
    ensures
        r == 1200,
{
    1200
}

fn default_queue_max_time_ns() -> (r: u64)
    ensures
        r == 0,
{
    0
}

fn default_queue_max_buffers() -> (r: u32)
    ensures
        r == 1,
{
    1
}

fn default_aggregate_mode() -> (r: String)
    ensures
        r@ == "zero-latency"@,
{
    String::from_str("zero-latency")
}

fn default_udp_buffer_size() -> (r: u32)
    ensures
        r == 2_097_152,
{
    2_097_152
}

fn default_show_cursor() -> (r: bool)
    ensures
        r,
{
    true
}

fn default_colorimetry() -> (r: String)
    ensures
        r@ == "2:3:3:3"@,
{
    String::from_str("2:3:3:3")
}

fn default_bitrate() -> (r: u32)
    ensures
        r == 6000,
{
    6000
}

fn default_audio_bitrate() -> (r: u32)
    ensures
        r == 128,
{
    128
}

fn default_client_host() -> (r: String)
    ensures
        r@ == "127.0.0.1"@,
{
    String::from_str("127.0.0.1")
}

fn default_audio() -> (r: bool)
    ensures
        r,
{
    true
}

fn default_audio_only() -> (r: bool)
    ensures
        !r,
{
    false
}

fn default_monitor_index() -> (r: u32)
    ensures
        r == 0,
{
    0
}

/// Whether `c` holds the default value of every field.
pub open spec fn is_default_config(c: StreamConfig) -> bool {
    &&& c.width is None
    &&& c.height is None
    &&& c.framerate is None
    &&& c.bitrate == 6000
    &&& c.encoder == EncoderChoice::Auto
    &&& c.client_host@ == "127.0.0.1"@
    &&& c.audio
    &&& !c.audio_only
    &&& c.audio_bitrate == 128
    &&& c.token is None
    &&& !c.gdi
    &&& c.monitor_index == 0
    &&& c.speed_preset@ == "ultrafast"@
    &&& c.tune@ == "zerolatency"@
    &&& c.nvenc_preset@ == "p4"@
    &&& c.nvenc_tune@ == "ultra-low-latency"@
    &&& c.vaapi_target_usage == 1
    &&& c.qsv_target_usage == 7
    &&& c.rc_mode@ == "cbr"@
    &&& c.cqp_value == 26
    &&& c.key_int_max == 60
    &&& c.bframes == 0
    &&& c.ref_frames == 1
    &&& c.rtp_mtu == 1200
    &&& c.queue_max_time_ns == 0
    &&& c.queue_max_buffers == 1
    &&& c.aggregate_mode@ == "zero-latency"@
    &&& c.udp_buffer_size == 2_097_152
    &&& c.show_cursor
    &&& c.colorimetry@ == "2:3:3:3"@
    &&& c.srtp_key is None
}

impl Default for StreamConfig {
    fn default() -> (r: Self)
        ensures
            is_default_config(r),
    {
        StreamConfig {
            width: None,
            height: None,
            framerate: None,
            bitrate: default_bitrate(),
            encoder: EncoderChoice::Auto,
            client_host: default_client_host(),
            audio: default_audio(),
            audio_only: default_audio_only(),
            audio_bitrate: default_audio_bitrate(),
            token: None,
            gdi: false,
            monitor_index: default_monitor_index(),
            speed_preset: default_speed_preset(),
            tune: default_tune(),
            nvenc_preset: default_nvenc_preset(),
            nvenc_tune: default_nvenc_tune(),
            vaapi_target_usage: default_vaapi_target_usage(),
            qsv_target_usage: default_qsv_target_usage(),
            rc_mode: default_rc_mode(),
            cqp_value: default_cqp_value(),
            key_int_max: default_key_int_max(),
            bframes: default_bframes(),
            ref_frames: default_ref_frames(),
            rtp_mtu: default_rtp_mtu(),
            queue_max_time_ns: default_queue_max_time_ns(),
            queue_max_buffers: default_queue_max_buffers(),
            aggregate_mode: default_aggregate_mode(),
            udp_buffer_size: default_udp_buffer_size(),
            show_cursor: default_show_cursor(),
            colorimetry: default_colorimetry(),
            srtp_key: None,
        }
    }
}


/// The encoders that can actually be instantiated on this machine, by
/// capability label (for example `nvenc`, `vah265`, `x264`).
#[derive(Debug, PartialEq)]
pub struct Capabilities {
    pub encoders: Vec<String>,
}

impl Clone for Capabilities {
    fn clone(&self) -> (r: Self)
        ensures
            r.encoders@ == self.encoders@,
    {
        let mut v: Vec<String> = Vec::new();
        let mut i: usize = 0;
        while i < self.encoders.len()
            invariant
                i <= self.encoders.len(),
                v@ == self.encoders@.take(i as int),
            decreases self.encoders.len() - i,
        {
            v.push(self.encoders[i].clone());
            assert(self.encoders@.take(i + 1) =~= self.encoders@.take(i as int).push(self.encoders@[i as int]));
            i = i + 1;
        }
        assert(self.encoders@.take(i as int) =~= self.encoders@);
        Capabilities { encoders: v }
    }
}

/// Number of encoder elements that the capability probe tries.
pub const CANDIDATE_COUNT: usize = 12;

/// The GStreamer element of candidate `i`, in probing order.
pub open spec fn candidate_element(i: int) -> Seq<char> {
    if i == 0 { "nvh264enc"@ }
    else if i == 1 { "nvh265enc"@ }
    else if i == 2 { "mfh264enc"@ }
    else if i == 3 { "mfh265enc"@ }
    else if i == 4 { "amfh264enc"@ }
    else if i == 5 { "amfh265enc"@ }
    else if i == 6 { "qsvh264enc"@ }
    else if i == 7 { "qsvh265enc"@ }
    else if i == 8 { "vah264enc"@ }
    else if i == 9 { "vah265enc"@ }
    else if i == 10 { "x264enc"@ }
    else { "x265enc"@ }
}

/// The capability label of candidate `i`, in probing order.
pub open spec fn candidate_label(i: int) -> Seq<char> {
    if i == 0 { "nvenc"@ }
    else if i == 1 { "nvenc_h265"@ }
    else if i == 2 { "windows_mf"@ }
    else if i == 3 { "windows_mf_h265"@ }
    else if i == 4 { "amd_amf"@ }
    else if i == 5 { "amd_amf_h265"@ }
    else if i == 6 { "intel_qsv"@ }
    else if i == 7 { "intel_qsv_h265"@ }
    else if i == 8 { "vah264"@ }
    else if i == 9 { "vah265"@ }
    else if i == 10 { "x264"@ }
    else { "x265"@ }
}

fn candidate(i: usize) -> (r: (&'static str, &'static str))
    requires
        i < CANDIDATE_COUNT,
    ensures
        r.0@ == candidate_element(i as int),
        r.1@ == candidate_label(i as int),
{
    if i == 0 { ("nvh264enc", "nvenc") }
    else if i == 1 { ("nvh265enc", "nvenc_h265") }
    else if i == 2 { ("mfh264enc", "windows_mf") }
    else if i == 3 { ("mfh265enc", "windows_mf_h265") }
    else if i == 4 { ("amfh264enc", "amd_amf") }
    else if i == 5 { ("amfh265enc", "amd_amf_h265") }
    else if i == 6 { ("qsvh264enc", "intel_qsv") }
    else if i == 7 { ("qsvh265enc", "intel_qsv_h265") }
    else if i == 8 { ("vah264enc", "vah264") }
    else if i == 9 { ("vah265enc", "vah265") }
    else if i == 10 { ("x264enc", "x264") }
    else { ("x265enc", "x265") }
}

/// Labels of the candidates among the first `n` whose probe succeeded, in
/// probing order.
pub open spec fn available_labels(ok: Seq<bool>, n: int) -> Seq<Seq<char>>
    decreases n,
{
    if n <= 0 {
        seq![]
    } else if ok[n - 1] {
        available_labels(ok, n - 1).push(candidate_label(n - 1))
    } else {
        available_labels(ok, n - 1)
    }
}

/// The capability list for the given probe outcomes: the labels of the
/// encoders that could be instantiated, or `x264` alone when none could.
pub open spec fn capabilities_spec(ok: Seq<bool>) -> Seq<Seq<char>> {
    let found = available_labels(ok, CANDIDATE_COUNT as int);
    if found.len() == 0 {
        seq!["x264"@]
    } else {
        found
    }
}

proof fn lemma_available_labels(ok: Seq<bool>, n: int)
    requires
        0 <= n <= ok.len(),
    ensures
        forall|l: Seq<char>| #[trigger] available_labels(ok, n).contains(l)
            ==> exists|i: int| 0 <= i < n && ok[i] && candidate_label(i) == l,
        forall|i: int| 0 <= i < n && ok[i] ==> #[trigger] available_labels(ok, n).contains(candidate_label(i)),
    decreases n,
{
    if n > 0 {
        lemma_available_labels(ok, n - 1);
        let prev = available_labels(ok, n - 1);
        assert forall|l: Seq<char>| #[trigger] available_labels(ok, n).contains(l)
            implies exists|i: int| 0 <= i < n && ok[i] && candidate_label(i) == l by {
            if ok[n - 1] && l == candidate_label(n - 1) {
            } else if ok[n - 1] {
                let full = prev.push(candidate_label(n - 1));
                let k = choose|k: int| 0 <= k < full.len() && #[trigger] full[k] == l;
                assert(prev[k] == l);
                assert(prev.contains(l));
            }
        }
        assert forall|i: int| 0 <= i < n && ok[i] implies #[trigger] available_labels(ok, n).contains(candidate_label(i)) by {
            if i < n - 1 {
                assert(available_labels(ok, n - 1).contains(candidate_label(i)));
                let k = choose|k: int| 0 <= k < prev.len() && #[trigger] prev[k] == candidate_label(i);
                if ok[n - 1] {
                    assert(prev.push(candidate_label(n - 1))[k] == candidate_label(i));
                }
            } else {
                assert(prev.push(candidate_label(n - 1))[prev.len() as int] == candidate_label(n - 1));
            }
        }
    }
}

/// The capability list is never empty; it lists exactly the candidates
/// whose probe succeeded, or x264 alone when none did.
pub proof fn law_capabilities_match_probe(ok: Seq<bool>)
    requires
        ok.len() == CANDIDATE_COUNT,
    ensures
        capabilities_spec(ok).len() > 0,
        forall|l: Seq<char>| #[trigger] capabilities_spec(ok).contains(l)
            ==> l == "x264"@ || exists|i: int| 0 <= i < CANDIDATE_COUNT && ok[i] && candidate_label(i) == l,
        forall|i: int| 0 <= i < CANDIDATE_COUNT && ok[i] ==> #[trigger] capabilities_spec(ok).contains(candidate_label(i)),
{
    lemma_available_labels(ok, CANDIDATE_COUNT as int);
    let found = available_labels(ok, CANDIDATE_COUNT as int);
    if found.len() == 0 {
        assert forall|i: int| 0 <= i < CANDIDATE_COUNT && ok[i] implies #[trigger] capabilities_spec(ok).contains(candidate_label(i)) by {
            assert(found.contains(candidate_label(i)));
        }
        assert forall|l: Seq<char>| #[trigger] capabilities_spec(ok).contains(l) implies l == "x264"@ by {
            let one = seq!["x264"@];
            let k = choose|k: int| 0 <= k < one.len() && #[trigger] one[k] == l;
        }
    }
}

/// The view of a list of strings as character sequences.
pub open spec fn views(v: Seq<String>) -> Seq<Seq<char>> {
    v.map_values(|e: String| e@)
}

/// Builds the capability list from the outcome of trying each candidate
/// encoder element (`ok[i]` for candidate `i`).
pub fn capabilities_from_probe(ok: &Vec<bool>) -> (r: Capabilities)
    requires
        ok@.len() == CANDIDATE_COUNT,
    ensures
        views(r.encoders@) == capabilities_spec(ok@),
{
    let mut encoders: Vec<String> = Vec::new();
    let mut i: usize = 0;
    while i < CANDIDATE_COUNT
        invariant
            ok@.len() == CANDIDATE_COUNT,
            i <= CANDIDATE_COUNT,
            views(encoders@) == available_labels(ok@, i as int),
        decreases CANDIDATE_COUNT - i,
    {
        let (_element, label) = candidate(i);
        if ok[i] {
            encoders.push(String::from_str(label));
            assert(views(encoders@) =~= available_labels(ok@, i as int).push(candidate_label(i as int)));
        }
        i = i + 1;
    }
    if encoders.len() == 0 {
        encoders.push(String::from_str("x264"));
        assert(views(encoders@) =~= seq!["x264"@]);
    }
    Capabilities { encoders }
}

/// Whether `f` may answer `b` when asked about the element of candidate `i`.
pub open spec fn probe_answered<F: Fn(&str) -> bool>(f: F, i: int, b: bool) -> bool {
    exists|e: &str| e@ == candidate_element(i) && #[trigger] f.ensures((e,), b)
}

/// Probes every candidate encoder element with `instantiable` (which says
/// whether an element of that name can be created) and builds the
/// capability list from the answers.
pub fn probe_capabilities<F: Fn(&str) -> bool>(instantiable: F) -> (r: Capabilities)
    requires
        forall|e: &str| #[trigger] instantiable.requires((e,)),
    ensures
        exists|ok: Seq<bool>|
            {
                &&& ok.len() == CANDIDATE_COUNT
                &&& forall|i: int|
                    0 <= i < CANDIDATE_COUNT ==> #[trigger] probe_answered(instantiable, i, ok[i])
                &&& views(r.encoders@) == capabilities_spec(ok)
            },
{
    let mut ok: Vec<bool> = Vec::new();
    let mut i: usize = 0;
    while i < CANDIDATE_COUNT
        invariant
            forall|e: &str| #[trigger] instantiable.requires((e,)),
            i <= CANDIDATE_COUNT,
            ok@.len() == i,
            forall|k: int| 0 <= k < i ==> #[trigger] probe_answered(instantiable, k, ok@[k]),
        decreases CANDIDATE_COUNT - i,
    {
        let (element, _label) = candidate(i);
        let b = instantiable(element);
        ok.push(b);
        assert(ok@[i as int] == b);
        assert(probe_answered(instantiable, i as int, b));
        i = i + 1;
    }
    let r = capabilities_from_probe(&ok);
    r
}


/// The encoder choice that a `--encoder` value names (compared after ASCII
/// lower-casing); any other value selects automatic choice.
pub open spec fn choice_from_name(n: Seq<char>) -> EncoderChoice {
    if n == "x264"@ { EncoderChoice::X264 }
    else if n == "x265"@ { EncoderChoice::X265 }
    else if n == "vah264"@ { EncoderChoice::VaH264 }
    else if n == "vah265"@ { EncoderChoice::VaH265 }
    else if n == "nvenc"@ { EncoderChoice::Nvenc }
    else if n == "nvenc_h265"@ { EncoderChoice::NvencH265 }
    else if n == "qsv"@ || n == "intel_qsv"@ { EncoderChoice::Qsv }
    else if n == "intel_qsv_h265"@ { EncoderChoice::QsvH265 }
    else if n == "amf"@ || n == "amd_amf"@ { EncoderChoice::Amf }
    else if n == "amd_amf_h265"@ { EncoderChoice::AmfH265 }
    else if n == "mf"@ || n == "windows_mf"@ { EncoderChoice::Mf }
    else if n == "windows_mf_h265"@ { EncoderChoice::MfH265 }
    else { EncoderChoice::Auto }
}

/// Reads an encoder name as `--encoder` does.
pub fn encoder_choice_from_name(name: &str) -> (r: EncoderChoice)
    ensures
        r == choice_from_name(ascii_lower(name@)),
{
    let l = to_ascii_lower(name);
    let n = l.as_str();
    if str_eq(n, "x264") { EncoderChoice::X264 }
    else if str_eq(n, "x265") { EncoderChoice::X265 }
    else if str_eq(n, "vah264") { EncoderChoice::VaH264 }
    else if str_eq(n, "vah265") { EncoderChoice::VaH265 }
    else if str_eq(n, "nvenc") { EncoderChoice::Nvenc }
    else if str_eq(n, "nvenc_h265") { EncoderChoice::NvencH265 }
    else if str_eq(n, "qsv") || str_eq(n, "intel_qsv") { EncoderChoice::Qsv }
    else if str_eq(n, "intel_qsv_h265") { EncoderChoice::QsvH265 }
    else if str_eq(n, "amf") || str_eq(n, "amd_amf") { EncoderChoice::Amf }
    else if str_eq(n, "amd_amf_h265") { EncoderChoice::AmfH265 }
    else if str_eq(n, "mf") || str_eq(n, "windows_mf") { EncoderChoice::Mf }
    else if str_eq(n, "windows_mf_h265") { EncoderChoice::MfH265 }
    else { EncoderChoice::Auto }
}

/// The value that a boolean flag takes from the argument after it:
/// anything but `false` switches it on.
pub open spec fn flag_value_on(v: Seq<char>) -> bool {
    v != "false"@
}

/// The configuration after reading the flag at `args[i]` (and its value at
/// `args[i + 1]`, when there is one), and the index of the next flag.
/// Unknown arguments are skipped; a numeric value that does not read as a
/// `u32` leaves the field unchanged.
pub open spec fn flag_step(cfg: StreamConfig, args: Seq<String>, i: int) -> (StreamConfig, int) {
    let a = args[i]@;
    let has = i < args.len() - 1;
    let v = args[i + 1];
    let num = parse_u32_spec(v@);
    if a == "--encoder"@ {
        if has { (StreamConfig { encoder: choice_from_name(ascii_lower(v@)), ..cfg }, i + 2) } else { (cfg, i + 1) }
    } else if a == "--bitrate"@ {
        if has {
            (if num is Some { StreamConfig { bitrate: num->0, ..cfg } } else { cfg }, i + 2)
        } else { (cfg, i + 1) }
    } else if a == "--audio-bitrate"@ {
        if has {
            (if num is Some { StreamConfig { audio_bitrate: num->0, ..cfg } } else { cfg }, i + 2)
        } else { (cfg, i + 1) }
    } else if a == "--host"@ {
        if has { (StreamConfig { client_host: v, ..cfg }, i + 2) } else { (cfg, i + 1) }
    } else if a == "--audio"@ {
        if has { (StreamConfig { audio: flag_value_on(v@), ..cfg }, i + 2) } else { (cfg, i + 1) }
    } else if a == "--audio-only"@ {
        if has { (StreamConfig { audio_only: flag_value_on(v@), ..cfg }, i + 2) }
        else { (StreamConfig { audio_only: true, ..cfg }, i + 1) }
    } else if a == "--width"@ {
        if has {
            (if num is Some { StreamConfig { width: Some(num->0), ..cfg } } else { cfg }, i + 2)
        } else { (cfg, i + 1) }
    } else if a == "--height"@ {
        if has {
            (if num is Some { StreamConfig { height: Some(num->0), ..cfg } } else { cfg }, i + 2)
        } else { (cfg, i + 1) }
    } else if a == "--fps"@ {
        if has {
            (if num is Some { StreamConfig { framerate: Some(num->0), ..cfg } } else { cfg }, i + 2)
        } else { (cfg, i + 1) }
    } else if a == "--gdi"@ {
        (StreamConfig { gdi: true, ..cfg }, i + 1)
    } else if a == "--monitor-index"@ {
        if has {
            (if num is Some { StreamConfig { monitor_index: num->0, ..cfg } } else { cfg }, i + 2)
        } else { (cfg, i + 1) }
    } else if a == "--speed-preset"@ {
        if has { (StreamConfig { speed_preset: v, ..cfg }, i + 2) } else { (cfg, i + 1) }
    } else if a == "--tune"@ {
        if has { (StreamConfig { tune: v, ..cfg }, i + 2) } else { (cfg, i + 1) }
    } else if a == "--nvenc-preset"@ {
        if has { (StreamConfig { nvenc_preset: v, ..cfg }, i + 2) } else { (cfg, i + 1) }
    } else if a == "--nvenc-tune"@ {
        if has { (StreamConfig { nvenc_tune: v, ..cfg }, i + 2) } else { (cfg, i + 1) }
    } else if a == "--rc-mode"@ {
        if has { (StreamConfig { rc_mode: v, ..cfg }, i + 2) } else { (cfg, i + 1) }
    } else if a == "--cqp-value"@ {
        if has {
            (if num is Some { StreamConfig { cqp_value: num->0, ..cfg } } else { cfg }, i + 2)
        } else { (cfg, i + 1) }
    } else if a == "--key-int-max"@ {
        if has {
            (if num is Some { StreamConfig { key_int_max: num->0, ..cfg } } else { cfg }, i + 2)
        } else { (cfg, i + 1) }
    } else if a == "--bframes"@ {
        if has {
            (if num is Some { StreamConfig { bframes: num->0, ..cfg } } else { cfg }, i + 2)
        } else { (cfg, i + 1) }
    } else if a == "--colorimetry"@ {
        if has { (StreamConfig { colorimetry: v, ..cfg }, i + 2) } else { (cfg, i + 1) }
    } else if a == "--srtp-key"@ {
        if has { (StreamConfig { srtp_key: Some(v), ..cfg }, i + 2) } else { (cfg, i + 1) }
    } else {
        (cfg, i + 1)
    }
}

/// The configuration after reading the flags from `args[i]` on.
pub open spec fn apply_args(cfg: StreamConfig, args: Seq<String>, i: int) -> StreamConfig
    decreases args.len() - i,
{
    if i < 0 || i >= args.len() {
        cfg
    } else {
        let (next, j) = flag_step(cfg, args, i);
        if j <= i { next } else { apply_args(next, args, j) }
    }
}

fn read_flag(cfg: &mut StreamConfig, args: &Vec<String>, i: usize) -> (j: usize)
    requires
        i < args@.len(),
    ensures
        (*final(cfg), j as int) == flag_step(*old(cfg), args@, i as int),
{
    let a = args[i].as_str();
    let has = i < args.len() - 1;
    if str_eq(a, "--encoder") {
        if has { cfg.encoder = encoder_choice_from_name(args[i + 1].as_str()); i + 2 } else { i + 1 }
    } else if str_eq(a, "--bitrate") {
        if has {
            if let Some(v) = parse_u32(args[i + 1].as_str()) { cfg.bitrate = v; }
            i + 2
        } else { i + 1 }
    } else if str_eq(a, "--audio-bitrate") {
        if has {
            if let Some(v) = parse_u32(args[i + 1].as_str()) { cfg.audio_bitrate = v; }
            i + 2
        } else { i + 1 }
    } else if str_eq(a, "--host") {
        if has { cfg.client_host = args[i + 1].clone(); i + 2 } else { i + 1 }
    } else if str_eq(a, "--audio") {
        if has { cfg.audio = !str_eq(args[i + 1].as_str(), "false"); i + 2 } else { i + 1 }
    } else if str_eq(a, "--audio-only") {
        if has { cfg.audio_only = !str_eq(args[i + 1].as_str(), "false"); i + 2 }
        else { cfg.audio_only = true; i + 1 }
    } else if str_eq(a, "--width") {
        if has {
            if let Some(v) = parse_u32(args[i + 1].as_str()) { cfg.width = Some(v); }
            i + 2
        } else { i + 1 }
    } else if str_eq(a, "--height") {
        if has {
            if let Some(v) = parse_u32(args[i + 1].as_str()) { cfg.height = Some(v); }
            i + 2
        } else { i + 1 }
    } else if str_eq(a, "--fps") {
        if has {
            if let Some(v) = parse_u32(args[i + 1].as_str()) { cfg.framerate = Some(v); }
            i + 2
        } else { i + 1 }
    } else if str_eq(a, "--gdi") {
        cfg.gdi = true;
        i + 1
    } else if str_eq(a, "--monitor-index") {
        if has {
            if let Some(v) = parse_u32(args[i + 1].as_str()) { cfg.monitor_index = v; }
            i + 2
        } else { i + 1 }
    } else if str_eq(a, "--speed-preset") {
        if has { cfg.speed_preset = args[i + 1].clone(); i + 2 } else { i + 1 }
    } else if str_eq(a, "--tune") {
        if has { cfg.tune = args[i + 1].clone(); i + 2 } else { i + 1 }
    } else if str_eq(a, "--nvenc-preset") {
        if has { cfg.nvenc_preset = args[i + 1].clone(); i + 2 } else { i + 1 }
    } else if str_eq(a, "--nvenc-tune") {
        if has { cfg.nvenc_tune = args[i + 1].clone(); i + 2 } else { i + 1 }
    } else if str_eq(a, "--rc-mode") {
        if has { cfg.rc_mode = args[i + 1].clone(); i + 2 } else { i + 1 }
    } else if str_eq(a, "--cqp-value") {
        if has {
            if let Some(v) = parse_u32(args[i + 1].as_str()) { cfg.cqp_value = v; }
            i + 2
        } else { i + 1 }
    } else if str_eq(a, "--key-int-max") {
        if has {
            if let Some(v) = parse_u32(args[i + 1].as_str()) { cfg.key_int_max = v; }
            i + 2
        } else { i + 1 }
    } else if str_eq(a, "--bframes") {
        if has {
            if let Some(v) = parse_u32(args[i + 1].as_str()) { cfg.bframes = v; }
            i + 2
        } else { i + 1 }
    } else if str_eq(a, "--colorimetry") {
        if has { cfg.colorimetry = args[i + 1].clone(); i + 2 } else { i + 1 }
    } else if str_eq(a, "--srtp-key") {
        if has { cfg.srtp_key = Some(args[i + 1].clone()); i + 2 } else { i + 1 }
    } else {
        i + 1
    }
}

/// The configuration that a command line selects: the defaults, changed by
/// each flag after the program name in `argv[0]`.
pub open spec fn config_from_args(defaults: StreamConfig, argv: Seq<String>) -> StreamConfig {
    apply_args(defaults, argv, 1)
}


/// The current stream configuration. The daemon shares one store between
/// its control tasks behind a lock; the store itself is a plain value.
pub struct ConfigStore {
    cfg: StreamConfig,
}

impl View for ConfigStore {
    type V = StreamConfig;

    closed spec fn view(&self) -> StreamConfig {
        self.cfg
    }
}

impl ConfigStore {
    /// A store holding the default configuration.
    pub fn new() -> (r: Self)
        ensures
            is_default_config(r@),
    {
        ConfigStore { cfg: StreamConfig::default() }
    }

    /// A store holding the configuration that the command line `argv`
    /// selects (`argv[0]` is the program name and is not read).
    pub fn new_from_args(argv: &Vec<String>) -> (r: Self)
        ensures
            exists|d: StreamConfig| is_default_config(d) && r@ == #[trigger] config_from_args(d, argv@),
    {
        let mut cfg = StreamConfig::default();
        let ghost d = cfg;
        let mut i: usize = 1;
        while i < argv.len()
            invariant
                1 <= i,
                apply_args(cfg, argv@, i as int) == apply_args(d, argv@, 1),
            decreases argv.len() - i,
        {
            let j = read_flag(&mut cfg, argv, i);
            i = j;
        }
        assert(is_default_config(d) && config_from_args(d, argv@) == cfg);
        ConfigStore { cfg }
    }

    /// A copy of the current configuration.
    pub fn get(&self) -> (r: StreamConfig)
        ensures
            r == self@,
    {
        self.cfg.clone()
    }

    /// Replaces the current configuration.
    pub fn set(&mut self, cfg: StreamConfig)
        ensures
            final(self)@ == cfg,
    {
        self.cfg = cfg;
    }
}


/// A command line holding only the program name selects the defaults.
pub proof fn law_no_flags_keeps_defaults(defaults: StreamConfig, argv: Seq<String>)
    requires
        argv.len() <= 1,
    ensures
        config_from_args(defaults, argv) == defaults,
{
}

/// `--bitrate` followed by a number in decimal sets the bitrate to that
/// number and nothing else.
pub proof fn law_bitrate_flag_sets_bitrate(defaults: StreamConfig, argv: Seq<String>, n: u32)
    requires
        argv.len() == 3,
        argv[1]@ == "--bitrate"@,
        argv[2]@ == dec(n as nat),
    ensures
        config_from_args(defaults, argv) == (StreamConfig { bitrate: n, ..defaults }),
{
    reveal_strlit("--bitrate");
    reveal_strlit("--encoder");
    assert("--bitrate"@ != "--encoder"@) by {
        assert("--bitrate"@[2] != "--encoder"@[2]);
    }
    law_parse_reads_rendered_number(n);
    let (next, j) = flag_step(defaults, argv, 1);
    assert(j == 3);
    assert(next == (StreamConfig { bitrate: n, ..defaults }));
    assert(apply_args(next, argv, 3) == next);
    assert(apply_args(defaults, argv, 1) == apply_args(next, argv, 3));
}

/// `--monitor-index` followed by a number in decimal selects that monitor
/// and changes nothing else.
pub proof fn law_monitor_flag_selects_monitor(defaults: StreamConfig, argv: Seq<String>, n: u32)
    requires
        argv.len() == 3,
        argv[1]@ == "--monitor-index"@,
        argv[2]@ == dec(n as nat),
    ensures
        config_from_args(defaults, argv) == (StreamConfig { monitor_index: n, ..defaults }),
{
    reveal_strlit("--monitor-index");
    reveal_strlit("--encoder");
    reveal_strlit("--bitrate");
    reveal_strlit("--audio-bitrate");
    reveal_strlit("--host");
    reveal_strlit("--audio");
    reveal_strlit("--audio-only");
    reveal_strlit("--width");
    reveal_strlit("--height");
    reveal_strlit("--fps");
    reveal_strlit("--gdi");
    let m = "--monitor-index"@;
    assert(m != "--encoder"@ && m != "--bitrate"@ && m != "--audio-bitrate"@) by {
        assert(m[2] != "--encoder"@[2] && m[2] != "--bitrate"@[2] && m[2] != "--audio-bitrate"@[2]);
    }
    assert(m != "--host"@ && m != "--audio"@ && m != "--audio-only"@) by {
        assert(m[2] != "--host"@[2] && m[2] != "--audio"@[2] && m[2] != "--audio-only"@[2]);
    }
    assert(m != "--width"@ && m != "--height"@ && m != "--fps"@ && m != "--gdi"@) by {
        assert(m[2] != "--width"@[2] && m[2] != "--height"@[2] && m[2] != "--fps"@[2] && m[2] != "--gdi"@[2]);
    }
    law_parse_reads_rendered_number(n);
    let (next, j) = flag_step(defaults, argv, 1);
    assert(j == 3);
    assert(next == (StreamConfig { monitor_index: n, ..defaults }));
    assert(apply_args(next, argv, 3) == next);
    assert(apply_args(defaults, argv, 1) == apply_args(next, argv, 3));
}


/// `--gdi` is a bare flag: it switches GDI capture on and reading goes on
/// with the argument after it, which it never takes as a value.
pub proof fn law_gdi_is_a_bare_flag(defaults: StreamConfig, argv: Seq<String>)
    requires
        argv.len() >= 2,
        argv[1]@ == "--gdi"@,
    ensures
        config_from_args(defaults, argv) == apply_args(StreamConfig { gdi: true, ..defaults }, argv, 2),
{
    reveal_strlit("--gdi");
    reveal_strlit("--encoder");
    reveal_strlit("--bitrate");
    reveal_strlit("--audio-bitrate");
    reveal_strlit("--host");
    reveal_strlit("--audio");
    reveal_strlit("--audio-only");
    reveal_strlit("--width");
    reveal_strlit("--height");
    reveal_strlit("--fps");
    let g = "--gdi"@;
    assert(g != "--encoder"@ && g != "--bitrate"@ && g != "--audio-bitrate"@) by {
        assert(g[2] != "--encoder"@[2] && g[2] != "--bitrate"@[2] && g[2] != "--audio-bitrate"@[2]);
    }
    assert(g != "--host"@ && g != "--audio"@ && g != "--audio-only"@) by {
        assert(g[2] != "--host"@[2] && g[2] != "--audio"@[2] && g[2] != "--audio-only"@[2]);
    }
    assert(g != "--width"@ && g != "--height"@ && g != "--fps"@) by {
        assert(g[2] != "--width"@[2] && g[2] != "--height"@[2] && g[2] != "--fps"@[2]);
    }
    let (next, j) = flag_step(defaults, argv, 1);
    assert(j == 2);
    assert(next == (StreamConfig { gdi: true, ..defaults }));
}

} // verus!
