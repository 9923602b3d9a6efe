//! The video encoders that a pipeline can use, the element properties each
//! one is given, and the choice of encoder from what the client asks for and
//! what the machine offers.

use vstd::prelude::*;
use crate::config::{Capabilities, EncoderChoice, StreamConfig, views};
use crate::pipeline::rate::{vbv_bufsize, vbv_bufsize_spec};
use crate::text::{dec, push_u32, str_eq};
use crate::pipeline::{holds_text, lemma_holds_middle};

verus! {

/// The operating system the daemon runs on, which decides whether the
/// VA-API or the Media Foundation encoders take part in automatic choice.
#[derive(Debug, PartialEq, Eq, Structural, Clone, Copy)]
pub enum HostOs {
    Linux,
    Windows,
    Other,
}

/// One of the supported encoder elements.
#[derive(Debug, PartialEq, Eq, Structural, Clone, Copy)]
pub enum EncoderKind {
    X264,
    X265,
    VaH264,
    VaH265,
    Nvenc,
    NvencH265,
    Qsv,
    QsvH265,
    Amf,
    AmfH265,
    Mf,
    MfH265,
}

/// GStreamer element name of an encoder.
pub open spec fn element_of(k: EncoderKind) -> Seq<char> {
    match k {
        EncoderKind::X264 => "x264enc"@,
        EncoderKind::X265 => "x265enc"@,
        EncoderKind::VaH264 => "vah264enc"@,
        EncoderKind::VaH265 => "vah265enc"@,
        EncoderKind::Nvenc => "nvh264enc"@,
        EncoderKind::NvencH265 => "nvh265enc"@,
        EncoderKind::Qsv => "qsvh264enc"@,
        EncoderKind::QsvH265 => "qsvh265enc"@,
        EncoderKind::Amf => "amfh264enc"@,
        EncoderKind::AmfH265 => "amfh265enc"@,
        EncoderKind::Mf => "mfh264enc"@,
        EncoderKind::MfH265 => "mfh265enc"@,
    }
}

/// Whether an encoder produces H.265 (otherwise H.264).
pub open spec fn is_h265(k: EncoderKind) -> bool {
    match k {
        EncoderKind::X265 | EncoderKind::VaH265 | EncoderKind::NvencH265 | EncoderKind::QsvH265
        | EncoderKind::AmfH265 | EncoderKind::MfH265 => true,
        _ => false,
    }
}

/// Codec name of an encoder: `h265` or `h264`.
pub open spec fn codec_of(k: EncoderKind) -> Seq<char> {
    if is_h265(k) { "h265"@ } else { "h264"@ }
}

/// Whether an encoder is one of the software encoders (x264, x265).
pub open spec fn is_software(k: EncoderKind) -> bool {
    k == EncoderKind::X264 || k == EncoderKind::X265
}

/// Raw format an encoder wants before it: none for the software encoders,
/// NV12 for the others.
pub open spec fn pre_caps_of(k: EncoderKind) -> Option<Seq<char>> {
    if is_software(k) { None } else { Some("NV12"@) }
}

/// Whether an encoder runs on a dedicated GPU encoding block (VA-API,
/// NVENC, QuickSync, AMF).
pub open spec fn gpu_asic_of(k: EncoderKind) -> bool {
    match k {
        EncoderKind::VaH264 | EncoderKind::VaH265 | EncoderKind::Nvenc | EncoderKind::NvencH265
        | EncoderKind::Qsv | EncoderKind::QsvH265 | EncoderKind::Amf | EncoderKind::AmfH265 => true,
        _ => false,
    }
}

/// Whether an encoder is one of the NVENC encoders.
pub open spec fn nvenc_of(k: EncoderKind) -> bool {
    k == EncoderKind::Nvenc || k == EncoderKind::NvencH265
}

/// Whether the configuration asks for constant-QP rate control.
pub open spec fn is_cqp(cfg: StreamConfig) -> bool {
    cfg.rc_mode@ == "cqp"@
}

/// Properties of the x264 encoder.
pub open spec fn x264_params(cfg: StreamConfig) -> Seq<char> {
    if is_cqp(cfg) {
        "quantizer="@ + dec(cfg.cqp_value as nat) + " tune="@ + cfg.tune@ + " speed-preset="@
            + cfg.speed_preset@ + " rc-lookahead=0 sync-lookahead=0 key-int-max="@ + dec(
            cfg.key_int_max as nat,
        ) + " bframes=0 threads=0 sliced-threads=true b-adapt=false option-string=repeat-headers=1"@
    } else {
        "bitrate="@ + dec(cfg.bitrate as nat) + " tune="@ + cfg.tune@ + " speed-preset="@
            + cfg.speed_preset@ + " rc-lookahead=0 sync-lookahead=0 key-int-max="@ + dec(
            cfg.key_int_max as nat,
        ) + " bframes=0 threads=0 sliced-threads=true b-adapt=false option-string=nal-hrd=cbr:repeat-headers=1:vbv-maxrate="@
            + dec(cfg.bitrate as nat) + ":vbv-bufsize="@ + dec(vbv_bufsize_spec(cfg.bitrate) as nat)
    }
}

/// Properties of the x265 encoder.
pub open spec fn x265_params(cfg: StreamConfig) -> Seq<char> {
    if is_cqp(cfg) {
        "speed-preset="@ + cfg.speed_preset@ + " tune="@ + cfg.tune@ + " key-int-max="@ + dec(
            cfg.key_int_max as nat,
        ) + " option-string=qp="@ + dec(cfg.cqp_value as nat) + ":bframes=0"@
    } else {
        "bitrate="@ + dec(cfg.bitrate as nat) + " speed-preset="@ + cfg.speed_preset@ + " tune="@
            + cfg.tune@ + " key-int-max="@ + dec(cfg.key_int_max as nat)
            + " option-string=bframes=0"@
    }
}

/// Properties of the VA-API encoders.
pub open spec fn va_params(cfg: StreamConfig) -> Seq<char> {
    if is_cqp(cfg) {
        "rate-control=cqp qp-i="@ + dec(cfg.cqp_value as nat) + " key-int-max="@ + dec(
            cfg.key_int_max as nat,
        ) + " target-usage="@ + dec(cfg.vaapi_target_usage as nat)
            + " ref-frames=1 b-frames=0 num-slices=4"@
    } else {
        "bitrate="@ + dec(cfg.bitrate as nat) + " rate-control="@ + cfg.rc_mode@ + " key-int-max="@
            + dec(cfg.key_int_max as nat) + " target-usage="@ + dec(cfg.vaapi_target_usage as nat)
            + " ref-frames=1 b-frames=0 num-slices=4"@
    }
}

/// NVENC rate-control mode: `constqp` for constant QP, `vbr` for `vbr`,
/// `cbr-ld-hq` otherwise.
pub open spec fn nvenc_rc(cfg: StreamConfig) -> Seq<char> {
    if is_cqp(cfg) {
        "constqp"@
    } else if cfg.rc_mode@ == "vbr"@ {
        "vbr"@
    } else {
        "cbr-ld-hq"@
    }
}

/// Properties of the NVENC encoders.
pub open spec fn nvenc_params(cfg: StreamConfig) -> Seq<char> {
    let tail = " zerolatency=true rc-lookahead=0 spatial-aq=false temporal-aq=false preset="@
        + cfg.nvenc_preset@ + " tune="@ + cfg.nvenc_tune@ + " rc="@ + nvenc_rc(cfg)
        + " key-int-max="@ + dec(cfg.key_int_max as nat) + " b-frames=0 ref=1"@;
    if is_cqp(cfg) {
        "qp-const-i="@ + dec(cfg.cqp_value as nat) + tail
    } else {
        "bitrate="@ + dec(cfg.bitrate as nat) + tail
    }
}

/// Rate-control name given to QuickSync and AMF: `cqp` for constant QP,
/// the configured mode otherwise.
pub open spec fn plain_rc(cfg: StreamConfig) -> Seq<char> {
    if is_cqp(cfg) { "cqp"@ } else { cfg.rc_mode@ }
}

/// Properties of the QuickSync encoders.
pub open spec fn qsv_params(cfg: StreamConfig) -> Seq<char> {
    let tail = " target-usage="@ + dec(cfg.qsv_target_usage as nat) + " rate-control="@ + plain_rc(
        cfg,
    ) + " gop-size="@ + dec(cfg.key_int_max as nat)
        + " b-frames=0 ref-frames=1 low-latency=true async-depth=1"@;
    if is_cqp(cfg) {
        "qpi="@ + dec(cfg.cqp_value as nat) + " qpp="@ + dec(cfg.cqp_value as nat) + " qpb="@ + dec(
            cfg.cqp_value as nat,
        ) + tail
    } else {
        "bitrate="@ + dec(cfg.bitrate as nat) + tail
    }
}

/// Properties of the AMF encoders.
pub open spec fn amf_params(cfg: StreamConfig) -> Seq<char> {
    "bitrate="@ + dec(cfg.bitrate as nat) + " usage=ultralowlatency rc="@ + plain_rc(cfg)
        + " key-int-max="@ + dec(cfg.key_int_max as nat) + " b-frames=0"@
}

/// Properties of the Media Foundation encoders.
pub open spec fn mf_params(cfg: StreamConfig) -> Seq<char> {
    "bitrate="@ + dec(cfg.bitrate as nat) + " rc-mode="@ + cfg.rc_mode@ + " low-latency=true"@
}

/// Element properties of an encoder for a configuration.
pub open spec fn params_of(k: EncoderKind, cfg: StreamConfig) -> Seq<char> {
    match k {
        EncoderKind::X264 => x264_params(cfg),
        EncoderKind::X265 => x265_params(cfg),
        EncoderKind::VaH264 | EncoderKind::VaH265 => va_params(cfg),
        EncoderKind::Nvenc | EncoderKind::NvencH265 => nvenc_params(cfg),
        EncoderKind::Qsv | EncoderKind::QsvH265 => qsv_params(cfg),
        EncoderKind::Amf | EncoderKind::AmfH265 => amf_params(cfg),
        EncoderKind::Mf | EncoderKind::MfH265 => mf_params(cfg),
    }
}

fn cfg_is_cqp(cfg: &StreamConfig) -> (r: bool)
    ensures
        r == is_cqp(*cfg),
{
    str_eq(cfg.rc_mode.as_str(), "cqp")
}

fn build_x264_params(cfg: &StreamConfig) -> (s: String)
    ensures
        s@ == x264_params(*cfg),
{
    let mut s = String::new();
    if cfg_is_cqp(cfg) {
        s.append("quantizer=");
        push_u32(&mut s, cfg.cqp_value);
    } else {
        s.append("bitrate=");
        push_u32(&mut s, cfg.bitrate);
    }
    s.append(" tune=");
    s.append(cfg.tune.as_str());
    s.append(" speed-preset=");
    s.append(cfg.speed_preset.as_str());
    s.append(" rc-lookahead=0 sync-lookahead=0 key-int-max=");
    push_u32(&mut s, cfg.key_int_max);
    if cfg_is_cqp(cfg) {
        s.append(
            " bframes=0 threads=0 sliced-threads=true b-adapt=false option-string=repeat-headers=1",
        );
    } else {
        s.append(
            " bframes=0 threads=0 sliced-threads=true b-adapt=false option-string=nal-hrd=cbr:repeat-headers=1:vbv-maxrate=",
        );
        push_u32(&mut s, cfg.bitrate);
        s.append(":vbv-bufsize=");
        push_u32(&mut s, vbv_bufsize(cfg.bitrate));
    }
    assert(s@ =~= x264_params(*cfg));
    s
}

fn build_x265_params(cfg: &StreamConfig) -> (s: String)
    ensures
        s@ == x265_params(*cfg),
{
    let mut s = String::new();
    if cfg_is_cqp(cfg) {
        s.append("speed-preset=");
        s.append(cfg.speed_preset.as_str());
        s.append(" tune=");
        s.append(cfg.tune.as_str());
        s.append(" key-int-max=");
        push_u32(&mut s, cfg.key_int_max);
        s.append(" option-string=qp=");
        push_u32(&mut s, cfg.cqp_value);
        s.append(":bframes=0");
    } else {
        s.append("bitrate=");
        push_u32(&mut s, cfg.bitrate);
        s.append(" speed-preset=");
        s.append(cfg.speed_preset.as_str());
        s.append(" tune=");
        s.append(cfg.tune.as_str());
        s.append(" key-int-max=");
        push_u32(&mut s, cfg.key_int_max);
        s.append(" option-string=bframes=0");
    }
    assert(s@ =~= x265_params(*cfg));
    s
}

fn build_va_params(cfg: &StreamConfig) -> (s: String)
    ensures
        s@ == va_params(*cfg),
{
    let mut s = String::new();
    if cfg_is_cqp(cfg) {
        s.append("rate-control=cqp qp-i=");
        push_u32(&mut s, cfg.cqp_value);
    } else {
        s.append("bitrate=");
        push_u32(&mut s, cfg.bitrate);
        s.append(" rate-control=");
        s.append(cfg.rc_mode.as_str());
    }
    s.append(" key-int-max=");
    push_u32(&mut s, cfg.key_int_max);
    s.append(" target-usage=");
    push_u32(&mut s, cfg.vaapi_target_usage);
    s.append(" ref-frames=1 b-frames=0 num-slices=4");
    assert(s@ =~= va_params(*cfg));
    s
}

fn build_nvenc_params(cfg: &StreamConfig) -> (s: String)
    ensures
        s@ == nvenc_params(*cfg),
{
    let cqp = cfg_is_cqp(cfg);
    let mut s = String::new();
    if cqp {
        s.append("qp-const-i=");
        push_u32(&mut s, cfg.cqp_value);
    } else {
        s.append("bitrate=");
        push_u32(&mut s, cfg.bitrate);
    }
    s.append(" zerolatency=true rc-lookahead=0 spatial-aq=false temporal-aq=false preset=");
    s.append(cfg.nvenc_preset.as_str());
    s.append(" tune=");
    s.append(cfg.nvenc_tune.as_str());
    s.append(" rc=");
    if cqp {
        s.append("constqp");
    } else if str_eq(cfg.rc_mode.as_str(), "vbr") {
        s.append("vbr");
    } else {
        s.append("cbr-ld-hq");
    }
    s.append(" key-int-max=");
    push_u32(&mut s, cfg.key_int_max);
    s.append(" b-frames=0 ref=1");
    assert(s@ =~= nvenc_params(*cfg));
    s
}

fn build_qsv_params(cfg: &StreamConfig) -> (s: String)
    ensures
        s@ == qsv_params(*cfg),
{
    let mut s = String::new();
    if cfg_is_cqp(cfg) {
        s.append("qpi=");
        push_u32(&mut s, cfg.cqp_value);
        s.append(" qpp=");
        push_u32(&mut s, cfg.cqp_value);
        s.append(" qpb=");
        push_u32(&mut s, cfg.cqp_value);
    } else {
        s.append("bitrate=");
        push_u32(&mut s, cfg.bitrate);
    }
    s.append(" target-usage=");
    push_u32(&mut s, cfg.qsv_target_usage);
    s.append(" rate-control=");
    s.append(cfg.rc_mode.as_str());
    s.append(" gop-size=");
    push_u32(&mut s, cfg.key_int_max);
    s.append(" b-frames=0 ref-frames=1 low-latency=true async-depth=1");
    assert(s@ =~= qsv_params(*cfg));
    s
}

fn build_amf_params(cfg: &StreamConfig) -> (s: String)
    ensures
        s@ == amf_params(*cfg),
{
    let mut s = String::new();
    s.append("bitrate=");
    push_u32(&mut s, cfg.bitrate);
    s.append(" usage=ultralowlatency rc=");
    s.append(cfg.rc_mode.as_str());
    s.append(" key-int-max=");
    push_u32(&mut s, cfg.key_int_max);
    s.append(" b-frames=0");
    assert(s@ =~= amf_params(*cfg));
    s
}

fn build_mf_params(cfg: &StreamConfig) -> (s: String)
    ensures
        s@ == mf_params(*cfg),
{
    let mut s = String::new();
    s.append("bitrate=");
    push_u32(&mut s, cfg.bitrate);
    s.append(" rc-mode=");
    s.append(cfg.rc_mode.as_str());
    s.append(" low-latency=true");
    assert(s@ =~= mf_params(*cfg));
    s
}

impl EncoderKind {
    /// GStreamer element name.
    pub fn element_name(&self) -> (r: &'static str)
        ensures
            r@ == element_of(*self),
    {
        match self {
            EncoderKind::X264 => "x264enc",
            EncoderKind::X265 => "x265enc",
            EncoderKind::VaH264 => "vah264enc",
            EncoderKind::VaH265 => "vah265enc",
            EncoderKind::Nvenc => "nvh264enc",
            EncoderKind::NvencH265 => "nvh265enc",
            EncoderKind::Qsv => "qsvh264enc",
            EncoderKind::QsvH265 => "qsvh265enc",
            EncoderKind::Amf => "amfh264enc",
            EncoderKind::AmfH265 => "amfh265enc",
            EncoderKind::Mf => "mfh264enc",
            EncoderKind::MfH265 => "mfh265enc",
        }
    }

    /// Element properties for a configuration.
    pub fn params(&self, cfg: &StreamConfig) -> (r: String)
        ensures
            r@ == params_of(*self, *cfg),
    {
        match self {
            EncoderKind::X264 => build_x264_params(cfg),
            EncoderKind::X265 => build_x265_params(cfg),
            EncoderKind::VaH264 | EncoderKind::VaH265 => build_va_params(cfg),
            EncoderKind::Nvenc | EncoderKind::NvencH265 => build_nvenc_params(cfg),
            EncoderKind::Qsv | EncoderKind::QsvH265 => build_qsv_params(cfg),
            EncoderKind::Amf | EncoderKind::AmfH265 => build_amf_params(cfg),
            EncoderKind::Mf | EncoderKind::MfH265 => build_mf_params(cfg),
        }
    }

    /// Codec name, `h264` or `h265`.
    pub fn codec(&self) -> (r: &'static str)
        ensures
            r@ == codec_of(*self),
    {
        match self {
            EncoderKind::X265 | EncoderKind::VaH265 | EncoderKind::NvencH265
            | EncoderKind::QsvH265 | EncoderKind::AmfH265 | EncoderKind::MfH265 => "h265",
            _ => "h264",
        }
    }

    /// Raw format wanted before the encoder, if any.
    pub fn raw_format(&self) -> (r: Option<&'static str>)
        ensures
            opt_view(r) == pre_caps_of(*self),
    {
        match self {
            EncoderKind::X264 | EncoderKind::X265 => None,
            _ => Some("NV12"),
        }
    }

    /// Whether this is not a software encoder.
    pub fn hardware(&self) -> (r: bool)
        ensures
            r == !is_software(*self),
    {
        match self {
            EncoderKind::X264 | EncoderKind::X265 => false,
            _ => true,
        }
    }

    /// Whether this encoder runs on a dedicated GPU encoding block.
    pub fn gpu_asic(&self) -> (r: bool)
        ensures
            r == gpu_asic_of(*self),
    {
        match self {
            EncoderKind::VaH264 | EncoderKind::VaH265 | EncoderKind::Nvenc
            | EncoderKind::NvencH265 | EncoderKind::Qsv | EncoderKind::QsvH265 | EncoderKind::Amf
            | EncoderKind::AmfH265 => true,
            _ => false,
        }
    }

    /// Whether this is an NVENC encoder.
    pub fn nvenc(&self) -> (r: bool)
        ensures
            r == nvenc_of(*self),
    {
        match self {
            EncoderKind::Nvenc | EncoderKind::NvencH265 => true,
            _ => false,
        }
    }
}

/// The character view of an optional string.
pub open spec fn opt_view(o: Option<&str>) -> Option<Seq<char>> {
    match o {
        Some(s) => Some(s@),
        None => None,
    }
}


/// A video encoder element together with the way it is tuned.
pub trait VideoEncoder {
    /// Which encoder this is.
    spec fn kind_spec(&self) -> EncoderKind;

    /// Which encoder this is.
    fn kind(&self) -> (k: EncoderKind)
        ensures
            k == self.kind_spec(),
    ;

    /// GStreamer element name.
    fn gst_element(&self) -> (r: &'static str)
        ensures
            r@ == element_of(self.kind_spec()),
    {
        self.kind().element_name()
    }

    /// Element properties for a configuration.
    fn encode_params(&self, cfg: &StreamConfig) -> (r: String)
        ensures
            r@ == params_of(self.kind_spec(), *cfg),
    {
        self.kind().params(cfg)
    }

    /// Codec name, `h264` or `h265`.
    fn codec_name(&self) -> (r: &'static str)
        ensures
            r@ == codec_of(self.kind_spec()),
    {
        self.kind().codec()
    }

    /// Raw format wanted before the encoder, if any.
    fn pre_caps(&self) -> (r: Option<&'static str>)
        ensures
            opt_view(r) == pre_caps_of(self.kind_spec()),
    {
        self.kind().raw_format()
    }

    /// Whether this is a hardware (not a software) encoder.
    fn is_hardware(&self) -> (r: bool)
        ensures
            r == !is_software(self.kind_spec()),
    {
        self.kind().hardware()
    }

    /// Whether this encoder runs on a dedicated GPU encoding block.
    fn is_gpu_asic(&self) -> (r: bool)
        ensures
            r == gpu_asic_of(self.kind_spec()),
    {
        self.kind().gpu_asic()
    }

    /// Whether this is an NVENC encoder.
    fn is_nvenc(&self) -> (r: bool)
        ensures
            r == nvenc_of(self.kind_spec()),
    {
        self.kind().nvenc()
    }

    /// Whether the capture may run with a single-frame leaky queue in front
    /// of this encoder; every supported encoder is tuned for zero latency.
    fn is_zero_latency_capable(&self) -> (r: bool)
        ensures
            r,
    {
        true
    }
}

impl VideoEncoder for EncoderKind {
    open spec fn kind_spec(&self) -> EncoderKind {
        *self
    }

    fn kind(&self) -> (k: EncoderKind) {
        *self
    }
}

/// The `X264` encoder.
pub struct X264Encoder;

impl VideoEncoder for X264Encoder {
    open spec fn kind_spec(&self) -> EncoderKind {
        EncoderKind::X264
    }

    fn kind(&self) -> (k: EncoderKind) {
        EncoderKind::X264
    }
}

/// The `X265` encoder.
pub struct X265Encoder;

impl VideoEncoder for X265Encoder {
    open spec fn kind_spec(&self) -> EncoderKind {
        EncoderKind::X265
    }

    fn kind(&self) -> (k: EncoderKind) {
        EncoderKind::X265
    }
}

/// The `VaH264` encoder.
pub struct VaH264Encoder;

impl VideoEncoder for VaH264Encoder {
    open spec fn kind_spec(&self) -> EncoderKind {
        EncoderKind::VaH264
    }

    fn kind(&self) -> (k: EncoderKind) {
        EncoderKind::VaH264
    }
}

/// The `VaH265` encoder.
pub struct VaH265Encoder;

impl VideoEncoder for VaH265Encoder {
    open spec fn kind_spec(&self) -> EncoderKind {
        EncoderKind::VaH265
    }

    fn kind(&self) -> (k: EncoderKind) {
        EncoderKind::VaH265
    }
}

/// The `Nvenc` encoder.
pub struct NvencEncoder;

impl VideoEncoder for NvencEncoder {
    open spec fn kind_spec(&self) -> EncoderKind {
        EncoderKind::Nvenc
    }

    fn kind(&self) -> (k: EncoderKind) {
        EncoderKind::Nvenc
    }
}

/// The `NvencH265` encoder.
pub struct NvencH265Encoder;

impl VideoEncoder for NvencH265Encoder {
    open spec fn kind_spec(&self) -> EncoderKind {
        EncoderKind::NvencH265
    }

    fn kind(&self) -> (k: EncoderKind) {
        EncoderKind::NvencH265
    }
}

/// The `Qsv` encoder.
pub struct QsvEncoder;

impl VideoEncoder for QsvEncoder {
    open spec fn kind_spec(&self) -> EncoderKind {
        EncoderKind::Qsv
    }

    fn kind(&self) -> (k: EncoderKind) {
        EncoderKind::Qsv
    }
}

/// The `QsvH265` encoder.
pub struct QsvH265Encoder;

impl VideoEncoder for QsvH265Encoder {
    open spec fn kind_spec(&self) -> EncoderKind {
        EncoderKind::QsvH265
    }

    fn kind(&self) -> (k: EncoderKind) {
        EncoderKind::QsvH265
    }
}

/// The `Amf` encoder.
pub struct AmfEncoder;

impl VideoEncoder for AmfEncoder {
    open spec fn kind_spec(&self) -> EncoderKind {
        EncoderKind::Amf
    }

    fn kind(&self) -> (k: EncoderKind) {
        EncoderKind::Amf
    }
}

/// The `AmfH265` encoder.
pub struct AmfH265Encoder;

impl VideoEncoder for AmfH265Encoder {
    open spec fn kind_spec(&self) -> EncoderKind {
        EncoderKind::AmfH265
    }

    fn kind(&self) -> (k: EncoderKind) {
        EncoderKind::AmfH265
    }
}

/// The `Mf` encoder.
pub struct MfEncoder;

impl VideoEncoder for MfEncoder {
    open spec fn kind_spec(&self) -> EncoderKind {
        EncoderKind::Mf
    }

    fn kind(&self) -> (k: EncoderKind) {
        EncoderKind::Mf
    }
}

/// The `MfH265` encoder.
pub struct MfH265Encoder;

impl VideoEncoder for MfH265Encoder {
    open spec fn kind_spec(&self) -> EncoderKind {
        EncoderKind::MfH265
    }

    fn kind(&self) -> (k: EncoderKind) {
        EncoderKind::MfH265
    }
}

/// Whether the capability list holds `label`.
pub open spec fn has_label(caps: Seq<Seq<char>>, label: Seq<char>) -> bool {
    caps.contains(label)
}

/// Automatic choice: the first available of NVENC (H.264, then H.265),
/// QuickSync, AMF, then on Linux VA-API and on Windows Media Foundation,
/// then x264 and x265; x264 when none is available.
pub open spec fn auto_choice(caps: Seq<Seq<char>>, os: HostOs) -> EncoderKind {
    if has_label(caps, "nvenc"@) { EncoderKind::Nvenc }
    else if has_label(caps, "nvenc_h265"@) { EncoderKind::NvencH265 }
    else if has_label(caps, "intel_qsv"@) { EncoderKind::Qsv }
    else if has_label(caps, "intel_qsv_h265"@) { EncoderKind::QsvH265 }
    else if has_label(caps, "amd_amf"@) { EncoderKind::Amf }
    else if has_label(caps, "amd_amf_h265"@) { EncoderKind::AmfH265 }
    else if os == HostOs::Linux && has_label(caps, "vah264"@) { EncoderKind::VaH264 }
    else if os == HostOs::Linux && has_label(caps, "vah265"@) { EncoderKind::VaH265 }
    else if os == HostOs::Windows && has_label(caps, "windows_mf"@) { EncoderKind::Mf }
    else if os == HostOs::Windows && has_label(caps, "windows_mf_h265"@) { EncoderKind::MfH265 }
    else if has_label(caps, "x264"@) { EncoderKind::X264 }
    else if has_label(caps, "x265"@) { EncoderKind::X265 }
    else { EncoderKind::X264 }
}

/// Choice when the requested encoder is not available: the first available
/// of NVENC, QuickSync, AMF (each H.265 first), VA-API on Linux, x265, x264,
/// Media Foundation on Windows; x264 when none is available.
pub open spec fn fallback_choice(caps: Seq<Seq<char>>, os: HostOs) -> EncoderKind {
    if has_label(caps, "nvenc_h265"@) { EncoderKind::NvencH265 }
    else if has_label(caps, "nvenc"@) { EncoderKind::Nvenc }
    else if has_label(caps, "intel_qsv_h265"@) { EncoderKind::QsvH265 }
    else if has_label(caps, "intel_qsv"@) { EncoderKind::Qsv }
    else if has_label(caps, "amd_amf_h265"@) { EncoderKind::AmfH265 }
    else if has_label(caps, "amd_amf"@) { EncoderKind::Amf }
    else if os == HostOs::Linux && has_label(caps, "vah265"@) { EncoderKind::VaH265 }
    else if os == HostOs::Linux && has_label(caps, "vah264"@) { EncoderKind::VaH264 }
    else if has_label(caps, "x265"@) { EncoderKind::X265 }
    else if has_label(caps, "x264"@) { EncoderKind::X264 }
    else if os == HostOs::Windows && has_label(caps, "windows_mf_h265"@) { EncoderKind::MfH265 }
    else if os == HostOs::Windows && has_label(caps, "windows_mf"@) { EncoderKind::Mf }
    else { EncoderKind::X264 }
}

/// The capability label that makes an explicit choice available (x264 is
/// taken whether or not it is listed; automatic choice has no label).
pub open spec fn choice_label(c: EncoderChoice) -> Seq<char> {
    match c {
        EncoderChoice::Auto => ""@,
        EncoderChoice::X264 => "x264"@,
        EncoderChoice::X265 => "x265"@,
        EncoderChoice::VaH264 => "vah264"@,
        EncoderChoice::VaH265 => "vah265"@,
        EncoderChoice::Nvenc => "nvenc"@,
        EncoderChoice::NvencH265 => "nvenc_h265"@,
        EncoderChoice::Qsv => "intel_qsv"@,
        EncoderChoice::QsvH265 => "intel_qsv_h265"@,
        EncoderChoice::Amf => "amd_amf"@,
        EncoderChoice::AmfH265 => "amd_amf_h265"@,
        EncoderChoice::Mf => "windows_mf"@,
        EncoderChoice::MfH265 => "windows_mf_h265"@,
    }
}

/// The encoder that an explicit choice names.
pub open spec fn choice_kind(c: EncoderChoice) -> EncoderKind {
    match c {
        EncoderChoice::Auto | EncoderChoice::X264 => EncoderKind::X264,
        EncoderChoice::X265 => EncoderKind::X265,
        EncoderChoice::VaH264 => EncoderKind::VaH264,
        EncoderChoice::VaH265 => EncoderKind::VaH265,
        EncoderChoice::Nvenc => EncoderKind::Nvenc,
        EncoderChoice::NvencH265 => EncoderKind::NvencH265,
        EncoderChoice::Qsv => EncoderKind::Qsv,
        EncoderChoice::QsvH265 => EncoderKind::QsvH265,
        EncoderChoice::Amf => EncoderKind::Amf,
        EncoderChoice::AmfH265 => EncoderKind::AmfH265,
        EncoderChoice::Mf => EncoderKind::Mf,
        EncoderChoice::MfH265 => EncoderKind::MfH265,
    }
}

/// The encoder used for a choice: x264 when asked for; the named encoder
/// when its label is available; automatic choice for `Auto`; the fallback
/// order otherwise.
pub open spec fn resolve_spec(choice: EncoderChoice, caps: Seq<Seq<char>>, os: HostOs) -> EncoderKind {
    if choice == EncoderChoice::X264 {
        EncoderKind::X264
    } else if choice == EncoderChoice::Auto {
        auto_choice(caps, os)
    } else if has_label(caps, choice_label(choice)) {
        choice_kind(choice)
    } else {
        fallback_choice(caps, os)
    }
}

/// Whether the capability list holds `label`.
pub fn caps_has(caps: &Capabilities, label: &str) -> (r: bool)
    ensures
        r == has_label(views(caps.encoders@), label@),
{
    let mut i: usize = 0;
    while i < caps.encoders.len()
        invariant
            i <= caps.encoders.len(),
            forall|k: int| 0 <= k < i ==> views(caps.encoders@)[k] != label@,
        decreases caps.encoders.len() - i,
    {
        if str_eq(caps.encoders[i].as_str(), label) {
            assert(views(caps.encoders@)[i as int] == label@);
            return true;
        }
        i = i + 1;
    }
    assert(!views(caps.encoders@).contains(label@));
    false
}

fn auto_pick(caps: &Capabilities, os: HostOs) -> (k: EncoderKind)
    ensures
        k == auto_choice(views(caps.encoders@), os),
{
    if caps_has(caps, "nvenc") { return EncoderKind::Nvenc; }
    if caps_has(caps, "nvenc_h265") { return EncoderKind::NvencH265; }
    if caps_has(caps, "intel_qsv") { return EncoderKind::Qsv; }
    if caps_has(caps, "intel_qsv_h265") { return EncoderKind::QsvH265; }
    if caps_has(caps, "amd_amf") { return EncoderKind::Amf; }
    if caps_has(caps, "amd_amf_h265") { return EncoderKind::AmfH265; }
    if os == HostOs::Linux {
        if caps_has(caps, "vah264") { return EncoderKind::VaH264; }
        if caps_has(caps, "vah265") { return EncoderKind::VaH265; }
    }
    if os == HostOs::Windows {
        if caps_has(caps, "windows_mf") { return EncoderKind::Mf; }
        if caps_has(caps, "windows_mf_h265") { return EncoderKind::MfH265; }
    }
    if caps_has(caps, "x264") { return EncoderKind::X264; }
    if caps_has(caps, "x265") { return EncoderKind::X265; }
    EncoderKind::X264
}

fn fallback_pick(caps: &Capabilities, os: HostOs) -> (k: EncoderKind)
    ensures
        k == fallback_choice(views(caps.encoders@), os),
{
    if caps_has(caps, "nvenc_h265") { return EncoderKind::NvencH265; }
    if caps_has(caps, "nvenc") { return EncoderKind::Nvenc; }
    if caps_has(caps, "intel_qsv_h265") { return EncoderKind::QsvH265; }
    if caps_has(caps, "intel_qsv") { return EncoderKind::Qsv; }
    if caps_has(caps, "amd_amf_h265") { return EncoderKind::AmfH265; }
    if caps_has(caps, "amd_amf") { return EncoderKind::Amf; }
    if os == HostOs::Linux {
        if caps_has(caps, "vah265") { return EncoderKind::VaH265; }
        if caps_has(caps, "vah264") { return EncoderKind::VaH264; }
    }
    if caps_has(caps, "x265") { return EncoderKind::X265; }
    if caps_has(caps, "x264") { return EncoderKind::X264; }
    if os == HostOs::Windows {
        if caps_has(caps, "windows_mf_h265") { return EncoderKind::MfH265; }
        if caps_has(caps, "windows_mf") { return EncoderKind::Mf; }
    }
    EncoderKind::X264
}

/// The encoder to use for `choice`, given the encoders the machine offers
/// and the operating system the daemon runs on.
pub fn resolve_encoder(choice: &EncoderChoice, caps: &Capabilities, os: HostOs) -> (k: EncoderKind)
    ensures
        k == resolve_spec(*choice, views(caps.encoders@), os),
{
    match choice {
        EncoderChoice::X264 => EncoderKind::X264,
        EncoderChoice::Auto => auto_pick(caps, os),
        EncoderChoice::NvencH265 if caps_has(caps, "nvenc_h265") => EncoderKind::NvencH265,
        EncoderChoice::Nvenc if caps_has(caps, "nvenc") => EncoderKind::Nvenc,
        EncoderChoice::MfH265 if caps_has(caps, "windows_mf_h265") => EncoderKind::MfH265,
        EncoderChoice::Mf if caps_has(caps, "windows_mf") => EncoderKind::Mf,
        EncoderChoice::AmfH265 if caps_has(caps, "amd_amf_h265") => EncoderKind::AmfH265,
        EncoderChoice::Amf if caps_has(caps, "amd_amf") => EncoderKind::Amf,
        EncoderChoice::QsvH265 if caps_has(caps, "intel_qsv_h265") => EncoderKind::QsvH265,
        EncoderChoice::Qsv if caps_has(caps, "intel_qsv") => EncoderKind::Qsv,
        EncoderChoice::VaH265 if caps_has(caps, "vah265") => EncoderKind::VaH265,
        EncoderChoice::VaH264 if caps_has(caps, "vah264") => EncoderKind::VaH264,
        EncoderChoice::X265 if caps_has(caps, "x265") => EncoderKind::X265,
        _ => fallback_pick(caps, os),
    }
}


/// The capability label under which an encoder is listed.
pub open spec fn kind_label(k: EncoderKind) -> Seq<char> {
    match k {
        EncoderKind::X264 => "x264"@,
        EncoderKind::X265 => "x265"@,
        EncoderKind::VaH264 => "vah264"@,
        EncoderKind::VaH265 => "vah265"@,
        EncoderKind::Nvenc => "nvenc"@,
        EncoderKind::NvencH265 => "nvenc_h265"@,
        EncoderKind::Qsv => "intel_qsv"@,
        EncoderKind::QsvH265 => "intel_qsv_h265"@,
        EncoderKind::Amf => "amd_amf"@,
        EncoderKind::AmfH265 => "amd_amf_h265"@,
        EncoderKind::Mf => "windows_mf"@,
        EncoderKind::MfH265 => "windows_mf_h265"@,
    }
}

/// Whatever is asked for, the encoder used is one the machine offers, or
/// x264, the software encoder that needs no hardware.
pub proof fn law_resolved_encoder_is_available(choice: EncoderChoice, caps: Seq<Seq<char>>, os: HostOs)
    ensures
        has_label(caps, kind_label(resolve_spec(choice, caps, os)))
            || resolve_spec(choice, caps, os) == EncoderKind::X264,
{
}

/// An encoder asked for by name is used whenever the machine offers it.
pub proof fn law_available_choice_is_used(choice: EncoderChoice, caps: Seq<Seq<char>>, os: HostOs)
    requires
        choice != EncoderChoice::Auto,
        has_label(caps, choice_label(choice)) || choice == EncoderChoice::X264,
    ensures
        resolve_spec(choice, caps, os) == choice_kind(choice),
        kind_label(choice_kind(choice)) == choice_label(choice),
{
}

/// Automatic choice takes VA-API encoders on Linux only and Media
/// Foundation encoders on Windows only.
pub proof fn law_auto_respects_platform(caps: Seq<Seq<char>>, os: HostOs)
    ensures
        os != HostOs::Linux ==> auto_choice(caps, os) != EncoderKind::VaH264
            && auto_choice(caps, os) != EncoderKind::VaH265,
        os != HostOs::Windows ==> auto_choice(caps, os) != EncoderKind::Mf
            && auto_choice(caps, os) != EncoderKind::MfH265,
{
}

/// Automatic choice prefers any available NVENC, QuickSync or AMF encoder
/// to the software encoders.
pub proof fn law_auto_prefers_hardware(caps: Seq<Seq<char>>, os: HostOs)
    requires
        exists|l: Seq<char>|
            #![trigger has_label(caps, l)]
            has_label(caps, l) && (l == "nvenc"@ || l == "nvenc_h265"@ || l == "intel_qsv"@
                || l == "intel_qsv_h265"@ || l == "amd_amf"@ || l == "amd_amf_h265"@),
    ensures
        !is_software(auto_choice(caps, os)),
{
}


proof fn lemma_word_follows(b: Seq<char>, lit: Seq<char>, x: Seq<char>)
    requires
        lit.len() > 0,
        lit[0] == ' ',
    ensures
        (b + lit + x).take((b + " "@).len() as int) == b + " "@,
{
    reveal_strlit(" ");
    assert((b + lit + x).take((b + " "@).len() as int) =~= b + " "@);
}

/// Every encoder outside constant-QP mode is driven at the configured
/// bitrate: its properties begin with `bitrate=` and that number.
pub proof fn law_bitrate_reaches_every_encoder(k: EncoderKind, cfg: StreamConfig)
    requires
        !is_cqp(cfg),
    ensures
        params_of(k, cfg).take(("bitrate="@ + dec(cfg.bitrate as nat) + " "@).len() as int)
            == "bitrate="@ + dec(cfg.bitrate as nat) + " "@,
{
    let b = "bitrate="@ + dec(cfg.bitrate as nat);
    let p = params_of(k, cfg);
    let lit = if k == EncoderKind::X264 {
        " tune="@
    } else if k == EncoderKind::X265 {
        " speed-preset="@
    } else if k == EncoderKind::VaH264 || k == EncoderKind::VaH265 {
        " rate-control="@
    } else if k == EncoderKind::Nvenc || k == EncoderKind::NvencH265 {
        " zerolatency=true rc-lookahead=0 spatial-aq=false temporal-aq=false preset="@
    } else if k == EncoderKind::Qsv || k == EncoderKind::QsvH265 {
        " target-usage="@
    } else if k == EncoderKind::Amf || k == EncoderKind::AmfH265 {
        " usage=ultralowlatency rc="@
    } else {
        " rc-mode="@
    };
    assert(lit.len() > 0 && lit[0] == ' ') by {
        reveal_strlit(" tune=");
        reveal_strlit(" speed-preset=");
        reveal_strlit(" rate-control=");
        reveal_strlit(" zerolatency=true rc-lookahead=0 spatial-aq=false temporal-aq=false preset=");
        reveal_strlit(" target-usage=");
        reveal_strlit(" usage=ultralowlatency rc=");
        reveal_strlit(" rc-mode=");
    }
    let x = p.skip((b + lit).len() as int);
    assert(p =~= b + lit + x);
    lemma_word_follows(b, lit, x);
}

/// The configured rate-control mode reaches the encoders that take it by
/// name: VA-API and QuickSync as `rate-control`, AMF as `rc`, Media
/// Foundation as `rc-mode`; NVENC runs `vbr` when asked for it and its
/// low-delay constant rate otherwise.
pub proof fn law_rate_control_reaches_the_encoder(k: EncoderKind, cfg: StreamConfig)
    requires
        !is_cqp(cfg),
    ensures
        (k == EncoderKind::VaH264 || k == EncoderKind::VaH265 || k == EncoderKind::Qsv
            || k == EncoderKind::QsvH265) ==> holds_text(params_of(k, cfg), " rate-control="@ + cfg.rc_mode@ + " "@),
        (k == EncoderKind::Amf || k == EncoderKind::AmfH265) ==> holds_text(params_of(k, cfg), " rc="@ + cfg.rc_mode@ + " "@),
        (k == EncoderKind::Mf || k == EncoderKind::MfH265) ==> holds_text(params_of(k, cfg), " rc-mode="@ + cfg.rc_mode@ + " "@),
        (k == EncoderKind::Nvenc || k == EncoderKind::NvencH265) ==> holds_text(
            params_of(k, cfg),
            " rc="@ + (if cfg.rc_mode@ == "vbr"@ { "vbr"@ } else { "cbr-ld-hq"@ }) + " "@,
        ),
{
    let m = cfg.rc_mode@;
    let d = dec(cfg.bitrate as nat);
    if k == EncoderKind::VaH264 || k == EncoderKind::VaH265 {
        let t = " rate-control="@ + m + " "@;
        let a = "bitrate="@ + d;
        let kim = " key-int-max="@;
        let rest = params_of(k, cfg).skip((a + t).len() as int);
        assert(kim =~= " "@ + kim.skip(1)) by {
            reveal_strlit(" key-int-max=");
            reveal_strlit(" ");
        }
        assert(params_of(k, cfg) =~= a + t + rest);
        lemma_holds_middle(a, t, rest);
    } else if k == EncoderKind::Qsv || k == EncoderKind::QsvH265 {
        let t = " rate-control="@ + m + " "@;
        let a = "bitrate="@ + d + " target-usage="@ + dec(cfg.qsv_target_usage as nat);
        let gop = " gop-size="@;
        let rest = params_of(k, cfg).skip((a + t).len() as int);
        assert(gop =~= " "@ + gop.skip(1)) by {
            reveal_strlit(" gop-size=");
            reveal_strlit(" ");
        }
        assert(params_of(k, cfg) =~= a + t + rest);
        lemma_holds_middle(a, t, rest);
    } else if k == EncoderKind::Amf || k == EncoderKind::AmfH265 {
        let t = " rc="@ + m + " "@;
        let lit = " usage=ultralowlatency rc="@;
        assert(lit =~= " usage=ultralowlatency"@ + " rc="@) by {
            reveal_strlit(" usage=ultralowlatency rc=");
            reveal_strlit(" usage=ultralowlatency");
            reveal_strlit(" rc=");
        }
        let a = "bitrate="@ + d + " usage=ultralowlatency"@;
        let kim = " key-int-max="@;
        assert(kim =~= " "@ + kim.skip(1)) by {
            reveal_strlit(" key-int-max=");
            reveal_strlit(" ");
        }
        let rest = params_of(k, cfg).skip((a + t).len() as int);
        assert(params_of(k, cfg) =~= a + t + rest);
        lemma_holds_middle(a, t, rest);
    } else if k == EncoderKind::Mf || k == EncoderKind::MfH265 {
        let t = " rc-mode="@ + m + " "@;
        let a = "bitrate="@ + d;
        let ll = " low-latency=true"@;
        assert(ll =~= " "@ + ll.skip(1)) by {
            reveal_strlit(" low-latency=true");
            reveal_strlit(" ");
        }
        let rest = params_of(k, cfg).skip((a + t).len() as int);
        assert(params_of(k, cfg) =~= a + t + rest);
        lemma_holds_middle(a, t, rest);
    } else if k == EncoderKind::Nvenc || k == EncoderKind::NvencH265 {
        let rc = if m == "vbr"@ { "vbr"@ } else { "cbr-ld-hq"@ };
        assert(nvenc_rc(cfg) == rc);
        let t = " rc="@ + rc + " "@;
        let a = "bitrate="@ + d + " zerolatency=true rc-lookahead=0 spatial-aq=false temporal-aq=false preset="@
            + cfg.nvenc_preset@ + " tune="@ + cfg.nvenc_tune@;
        let kim = " key-int-max="@;
        assert(kim =~= " "@ + kim.skip(1)) by {
            reveal_strlit(" key-int-max=");
            reveal_strlit(" ");
        }
        let rest = params_of(k, cfg).skip((a + t).len() as int);
        assert(params_of(k, cfg) =~= a + t + rest);
        lemma_holds_middle(a, t, rest);
    }
}


proof fn lemma_word_then_space(a: Seq<char>, t: Seq<char>, b: Seq<char>)
    requires
        b.len() > 0,
        b[0] == ' ',
    ensures
        holds_text(a + t + b, t + " "@),
{
    reveal_strlit(" ");
    assert(a + t + b =~= a + (t + " "@) + b.skip(1));
    lemma_holds_middle(a, t + " "@, b.skip(1));
}

proof fn lemma_gop_literals()
    ensures
        " rc-lookahead=0 sync-lookahead=0 key-int-max="@ == " rc-lookahead=0 sync-lookahead=0 key-int-max="@.take(33) + "key-int-max="@,
        " key-int-max="@ == " "@ + "key-int-max="@,
        " gop-size="@ == " "@ + "gop-size="@,
        " bframes=0 threads=0 sliced-threads=true b-adapt=false option-string=repeat-headers=1"@.len() > 0 && " bframes=0 threads=0 sliced-threads=true b-adapt=false option-string=repeat-headers=1"@[0] == ' ',
        " bframes=0 threads=0 sliced-threads=true b-adapt=false option-string=nal-hrd=cbr:repeat-headers=1:vbv-maxrate="@.len() > 0 && " bframes=0 threads=0 sliced-threads=true b-adapt=false option-string=nal-hrd=cbr:repeat-headers=1:vbv-maxrate="@[0] == ' ',
        " option-string=qp="@.len() > 0 && " option-string=qp="@[0] == ' ',
        " option-string=bframes=0"@.len() > 0 && " option-string=bframes=0"@[0] == ' ',
        " target-usage="@.len() > 0 && " target-usage="@[0] == ' ',
        " b-frames=0 ref=1"@.len() > 0 && " b-frames=0 ref=1"@[0] == ' ',
        " b-frames=0 ref-frames=1 low-latency=true async-depth=1"@.len() > 0
            && " b-frames=0 ref-frames=1 low-latency=true async-depth=1"@[0] == ' ',
        " b-frames=0"@.len() > 0 && " b-frames=0"@[0] == ' ',
{
    reveal_strlit(" rc-lookahead=0 sync-lookahead=0 key-int-max=");
    reveal_strlit("key-int-max=");
    reveal_strlit(" key-int-max=");
    reveal_strlit(" gop-size=");
    reveal_strlit("gop-size=");
    reveal_strlit(" ");
    reveal_strlit(" bframes=0 threads=0 sliced-threads=true b-adapt=false option-string=repeat-headers=1");
    reveal_strlit(" bframes=0 threads=0 sliced-threads=true b-adapt=false option-string=nal-hrd=cbr:repeat-headers=1:vbv-maxrate=");
    reveal_strlit(" option-string=qp=");
    reveal_strlit(" option-string=bframes=0");
    reveal_strlit(" target-usage=");
    reveal_strlit(" b-frames=0 ref=1");
    reveal_strlit(" b-frames=0 ref-frames=1 low-latency=true async-depth=1");
    reveal_strlit(" b-frames=0");
    assert(" rc-lookahead=0 sync-lookahead=0 key-int-max="@ =~= " rc-lookahead=0 sync-lookahead=0 key-int-max="@.take(33) + "key-int-max="@);
    assert(" key-int-max="@ =~= " "@ + "key-int-max="@);
    assert(" gop-size="@ =~= " "@ + "gop-size="@);
}

proof fn lemma_gop_x264(cfg: StreamConfig)
    ensures
        holds_text(x264_params(cfg), "key-int-max="@ + dec(cfg.key_int_max as nat) + " "@),
{
    lemma_gop_literals();
    let d = dec(cfg.key_int_max as nat);
    let kw = "key-int-max="@;
    let lit = " rc-lookahead=0 sync-lookahead=0 key-int-max="@;
    let front = if is_cqp(cfg) {
        "quantizer="@ + dec(cfg.cqp_value as nat) + " tune="@ + cfg.tune@ + " speed-preset="@ + cfg.speed_preset@
    } else {
        "bitrate="@ + dec(cfg.bitrate as nat) + " tune="@ + cfg.tune@ + " speed-preset="@ + cfg.speed_preset@
    };
    let b = if is_cqp(cfg) {
        " bframes=0 threads=0 sliced-threads=true b-adapt=false option-string=repeat-headers=1"@
    } else {
        " bframes=0 threads=0 sliced-threads=true b-adapt=false option-string=nal-hrd=cbr:repeat-headers=1:vbv-maxrate="@ + dec(cfg.bitrate as nat) + ":vbv-bufsize="@ + dec(vbv_bufsize_spec(cfg.bitrate) as nat)
    };
    assert(x264_params(cfg) =~= (front + lit.take(33)) + (kw + d) + b);
    lemma_word_then_space(front + lit.take(33), kw + d, b);
}

proof fn lemma_gop_x265(cfg: StreamConfig)
    ensures
        holds_text(x265_params(cfg), "key-int-max="@ + dec(cfg.key_int_max as nat) + " "@),
{
    lemma_gop_literals();
    let d = dec(cfg.key_int_max as nat);
    let kw = "key-int-max="@;
    let front = if is_cqp(cfg) {
        "speed-preset="@ + cfg.speed_preset@ + " tune="@ + cfg.tune@
    } else {
        "bitrate="@ + dec(cfg.bitrate as nat) + " speed-preset="@ + cfg.speed_preset@ + " tune="@ + cfg.tune@
    };
    let b = if is_cqp(cfg) {
        " option-string=qp="@ + dec(cfg.cqp_value as nat) + ":bframes=0"@
    } else {
        " option-string=bframes=0"@
    };
    assert(x265_params(cfg) =~= (front + " "@) + (kw + d) + b);
    lemma_word_then_space(front + " "@, kw + d, b);
}

proof fn lemma_gop_va(cfg: StreamConfig)
    ensures
        holds_text(va_params(cfg), "key-int-max="@ + dec(cfg.key_int_max as nat) + " "@),
{
    lemma_gop_literals();
    let d = dec(cfg.key_int_max as nat);
    let kw = "key-int-max="@;
    let front = if is_cqp(cfg) {
        "rate-control=cqp qp-i="@ + dec(cfg.cqp_value as nat)
    } else {
        "bitrate="@ + dec(cfg.bitrate as nat) + " rate-control="@ + cfg.rc_mode@
    };
    let b = " target-usage="@ + dec(cfg.vaapi_target_usage as nat) + " ref-frames=1 b-frames=0 num-slices=4"@;
    assert(va_params(cfg) =~= (front + " "@) + (kw + d) + b);
    lemma_word_then_space(front + " "@, kw + d, b);
}

proof fn lemma_gop_nvenc(cfg: StreamConfig)
    ensures
        holds_text(nvenc_params(cfg), "key-int-max="@ + dec(cfg.key_int_max as nat) + " "@),
{
    lemma_gop_literals();
    let d = dec(cfg.key_int_max as nat);
    let kw = "key-int-max="@;
    let first = if is_cqp(cfg) { "qp-const-i="@ + dec(cfg.cqp_value as nat) } else { "bitrate="@ + dec(cfg.bitrate as nat) };
    let front = first + " zerolatency=true rc-lookahead=0 spatial-aq=false temporal-aq=false preset="@
        + cfg.nvenc_preset@ + " tune="@ + cfg.nvenc_tune@ + " rc="@ + nvenc_rc(cfg);
    let b = " b-frames=0 ref=1"@;
    assert(nvenc_params(cfg) =~= (front + " "@) + (kw + d) + b);
    lemma_word_then_space(front + " "@, kw + d, b);
}

proof fn lemma_gop_qsv(cfg: StreamConfig)
    ensures
        holds_text(qsv_params(cfg), "gop-size="@ + dec(cfg.key_int_max as nat) + " "@),
{
    lemma_gop_literals();
    let d = dec(cfg.key_int_max as nat);
    let first = if is_cqp(cfg) {
        "qpi="@ + dec(cfg.cqp_value as nat) + " qpp="@ + dec(cfg.cqp_value as nat) + " qpb="@ + dec(cfg.cqp_value as nat)
    } else {
        "bitrate="@ + dec(cfg.bitrate as nat)
    };
    let front = first + " target-usage="@ + dec(cfg.qsv_target_usage as nat) + " rate-control="@ + plain_rc(cfg);
    let b = " b-frames=0 ref-frames=1 low-latency=true async-depth=1"@;
    assert(qsv_params(cfg) =~= (front + " "@) + ("gop-size="@ + d) + b);
    lemma_word_then_space(front + " "@, "gop-size="@ + d, b);
}

proof fn lemma_gop_amf(cfg: StreamConfig)
    ensures
        holds_text(amf_params(cfg), "key-int-max="@ + dec(cfg.key_int_max as nat) + " "@),
{
    lemma_gop_literals();
    let d = dec(cfg.key_int_max as nat);
    let kw = "key-int-max="@;
    let front = "bitrate="@ + dec(cfg.bitrate as nat) + " usage=ultralowlatency rc="@ + plain_rc(cfg);
    let b = " b-frames=0"@;
    assert(amf_params(cfg) =~= (front + " "@) + (kw + d) + b);
    lemma_word_then_space(front + " "@, kw + d, b);}

/// The configured keyframe interval reaches every encoder that takes one:
/// as `key-int-max` for all but QuickSync, which takes it as `gop-size`
/// (Media Foundation takes none).
pub proof fn law_keyframe_interval_reaches_the_encoder(k: EncoderKind, cfg: StreamConfig)
    requires
    k != EncoderKind::Mf,
    k != EncoderKind::MfH265,
    ensures
    holds_text(
        params_of(k, cfg),
        (if k == EncoderKind::Qsv || k == EncoderKind::QsvH265 { "gop-size="@ } else { "key-int-max="@ })
            + dec(cfg.key_int_max as nat) + " "@,
    ),
{
    if k == EncoderKind::X264 {
    lemma_gop_x264(cfg);
    } else if k == EncoderKind::X265 {
    lemma_gop_x265(cfg);
    } else if k == EncoderKind::VaH264 || k == EncoderKind::VaH265 {
    lemma_gop_va(cfg);
    } else if k == EncoderKind::Nvenc || k == EncoderKind::NvencH265 {
    lemma_gop_nvenc(cfg);
    } else if k == EncoderKind::Qsv || k == EncoderKind::QsvH265 {
    lemma_gop_qsv(cfg);
    } else {
    lemma_gop_amf(cfg);
    }
}

} // verus!
