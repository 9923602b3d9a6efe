use ferrumcast::config::{Capabilities, EncoderChoice, StreamConfig};
use ferrumcast::pipeline::encoders::{
    caps_has, resolve_encoder, AmfEncoder, AmfH265Encoder, EncoderKind, HostOs, MfEncoder, MfH265Encoder,
    NvencEncoder, NvencH265Encoder, QsvEncoder, QsvH265Encoder, VaH264Encoder, VaH265Encoder,
    VideoEncoder, X264Encoder, X265Encoder,
};
use ferrumcast::pipeline::rate::vbv_bufsize;

fn caps(labels: &[&str]) -> Capabilities {
    Capabilities { encoders: labels.iter().map(|s| s.to_string()).collect() }
}

fn cqp() -> StreamConfig {
    let mut c = StreamConfig::default();
    c.rc_mode = "cqp".to_string();
    c
}

const ALL_LABELS: [&str; 12] = [
    "nvenc", "nvenc_h265", "windows_mf", "windows_mf_h265", "amd_amf", "amd_amf_h265", "intel_qsv",
    "intel_qsv_h265", "vah264", "vah265", "x264", "x265",
];

#[test]
fn x264_params_cbr() {
    assert_eq!(
        X264Encoder.encode_params(&StreamConfig::default()),
        "bitrate=6000 tune=zerolatency speed-preset=ultrafast rc-lookahead=0 sync-lookahead=0 key-int-max=60 bframes=0 threads=0 sliced-threads=true b-adapt=false option-string=nal-hrd=cbr:repeat-headers=1:vbv-maxrate=6000:vbv-bufsize=300"
    );
}

#[test]
fn x264_params_small_bitrate_keeps_vbv_floor() {
    let mut c = StreamConfig::default();
    c.bitrate = 1000;
    assert_eq!(
        X264Encoder.encode_params(&c),
        "bitrate=1000 tune=zerolatency speed-preset=ultrafast rc-lookahead=0 sync-lookahead=0 key-int-max=60 bframes=0 threads=0 sliced-threads=true b-adapt=false option-string=nal-hrd=cbr:repeat-headers=1:vbv-maxrate=1000:vbv-bufsize=100"
    );
}

#[test]
fn x264_params_cqp() {
    assert_eq!(
        X264Encoder.encode_params(&cqp()),
        "quantizer=26 tune=zerolatency speed-preset=ultrafast rc-lookahead=0 sync-lookahead=0 key-int-max=60 bframes=0 threads=0 sliced-threads=true b-adapt=false option-string=repeat-headers=1"
    );
}

#[test]
fn x265_params() {
    assert_eq!(
        X265Encoder.encode_params(&StreamConfig::default()),
        "bitrate=6000 speed-preset=ultrafast tune=zerolatency key-int-max=60 option-string=bframes=0"
    );
    assert_eq!(
        X265Encoder.encode_params(&cqp()),
        "speed-preset=ultrafast tune=zerolatency key-int-max=60 option-string=qp=26:bframes=0"
    );
}

#[test]
fn vaapi_params() {
    let cbr = "bitrate=6000 rate-control=cbr key-int-max=60 target-usage=1 ref-frames=1 b-frames=0 num-slices=4";
    let q = "rate-control=cqp qp-i=26 key-int-max=60 target-usage=1 ref-frames=1 b-frames=0 num-slices=4";
    assert_eq!(VaH264Encoder.encode_params(&StreamConfig::default()), cbr);
    assert_eq!(VaH265Encoder.encode_params(&StreamConfig::default()), cbr);
    assert_eq!(VaH264Encoder.encode_params(&cqp()), q);
    assert_eq!(VaH265Encoder.encode_params(&cqp()), q);
}

#[test]
fn nvenc_params() {
    let cbr = "bitrate=6000 zerolatency=true rc-lookahead=0 spatial-aq=false temporal-aq=false preset=p4 tune=ultra-low-latency rc=cbr-ld-hq key-int-max=60 b-frames=0 ref=1";
    let q = "qp-const-i=26 zerolatency=true rc-lookahead=0 spatial-aq=false temporal-aq=false preset=p4 tune=ultra-low-latency rc=constqp key-int-max=60 b-frames=0 ref=1";
    assert_eq!(NvencEncoder.encode_params(&StreamConfig::default()), cbr);
    assert_eq!(NvencH265Encoder.encode_params(&StreamConfig::default()), cbr);
    assert_eq!(NvencEncoder.encode_params(&cqp()), q);
    let mut vbr = StreamConfig::default();
    vbr.rc_mode = "vbr".to_string();
    assert_eq!(
        NvencH265Encoder.encode_params(&vbr),
        "bitrate=6000 zerolatency=true rc-lookahead=0 spatial-aq=false temporal-aq=false preset=p4 tune=ultra-low-latency rc=vbr key-int-max=60 b-frames=0 ref=1"
    );
    let mut other = StreamConfig::default();
    other.rc_mode = "abr".to_string();
    assert_eq!(NvencEncoder.encode_params(&other), cbr);
}

#[test]
fn qsv_params() {
    let cbr = "bitrate=6000 target-usage=7 rate-control=cbr gop-size=60 b-frames=0 ref-frames=1 low-latency=true async-depth=1";
    let q = "qpi=26 qpp=26 qpb=26 target-usage=7 rate-control=cqp gop-size=60 b-frames=0 ref-frames=1 low-latency=true async-depth=1";
    assert_eq!(QsvEncoder.encode_params(&StreamConfig::default()), cbr);
    assert_eq!(QsvH265Encoder.encode_params(&StreamConfig::default()), cbr);
    assert_eq!(QsvEncoder.encode_params(&cqp()), q);
    assert_eq!(QsvH265Encoder.encode_params(&cqp()), q);
}

#[test]
fn amf_params() {
    assert_eq!(
        AmfEncoder.encode_params(&StreamConfig::default()),
        "bitrate=6000 usage=ultralowlatency rc=cbr key-int-max=60 b-frames=0"
    );
    assert_eq!(
        AmfH265Encoder.encode_params(&cqp()),
        "bitrate=6000 usage=ultralowlatency rc=cqp key-int-max=60 b-frames=0"
    );
}

#[test]
fn mf_params() {
    assert_eq!(MfEncoder.encode_params(&StreamConfig::default()), "bitrate=6000 rc-mode=cbr low-latency=true");
    let mut c = StreamConfig::default();
    c.bitrate = 2500;
    c.rc_mode = "vbr".to_string();
    assert_eq!(MfH265Encoder.encode_params(&c), "bitrate=2500 rc-mode=vbr low-latency=true");
}

#[test]
fn encoder_traits() {
    assert_eq!(X264Encoder.gst_element(), "x264enc");
    assert_eq!(X264Encoder.codec_name(), "h264");
    assert_eq!(X264Encoder.pre_caps(), None);
    assert!(!X264Encoder.is_hardware());
    assert!(!X264Encoder.is_gpu_asic());
    assert_eq!(X265Encoder.gst_element(), "x265enc");
    assert_eq!(X265Encoder.codec_name(), "h265");
    assert_eq!(X265Encoder.pre_caps(), None);
    assert_eq!(VaH264Encoder.gst_element(), "vah264enc");
    assert_eq!(VaH265Encoder.gst_element(), "vah265enc");
    assert_eq!(VaH265Encoder.codec_name(), "h265");
    assert!(VaH264Encoder.is_gpu_asic());
    assert_eq!(NvencEncoder.gst_element(), "nvh264enc");
    assert_eq!(NvencH265Encoder.gst_element(), "nvh265enc");
    assert!(NvencEncoder.is_nvenc());
    assert!(!QsvEncoder.is_nvenc());
    assert_eq!(QsvEncoder.gst_element(), "qsvh264enc");
    assert_eq!(QsvH265Encoder.gst_element(), "qsvh265enc");
    assert_eq!(AmfEncoder.gst_element(), "amfh264enc");
    assert_eq!(AmfH265Encoder.gst_element(), "amfh265enc");
    assert_eq!(MfEncoder.gst_element(), "mfh264enc");
    assert_eq!(MfH265Encoder.gst_element(), "mfh265enc");
    assert_eq!(MfEncoder.pre_caps(), Some("NV12"));
    assert!(MfEncoder.is_hardware());
    assert!(!MfEncoder.is_gpu_asic());
    assert_eq!(MfH265Encoder.codec_name(), "h265");
    assert_eq!(AmfEncoder.codec_name(), "h264");
}

#[test]
fn vbv_matches_single_precision() {
    let mut samples: Vec<u32> = vec![0, 1, 19, 20, 1999, 2000, 2001, 6000, 8000, 123_456, 16_777_215, 16_777_216,
        16_777_217, 33_554_433, 100_000_000, 1_234_567_891, u32::MAX - 1, u32::MAX];
    let mut x: u32 = 12345;
    for _ in 0..20000 {
        x = x.wrapping_mul(1_103_515_245).wrapping_add(12345);
        samples.push(x);
        samples.push(x >> 8);
        samples.push(x >> 16);
    }
    for b in samples {
        let want = ((b as f32 * 0.05) as u32).max(100);
        assert_eq!(vbv_bufsize(b), want, "bitrate {}", b);
    }
}

#[test]
fn explicit_choice_used_when_available() {
    let all = caps(&ALL_LABELS);
    let cases = [
        (EncoderChoice::X265, EncoderKind::X265),
        (EncoderChoice::VaH264, EncoderKind::VaH264),
        (EncoderChoice::VaH265, EncoderKind::VaH265),
        (EncoderChoice::Nvenc, EncoderKind::Nvenc),
        (EncoderChoice::NvencH265, EncoderKind::NvencH265),
        (EncoderChoice::Qsv, EncoderKind::Qsv),
        (EncoderChoice::QsvH265, EncoderKind::QsvH265),
        (EncoderChoice::Amf, EncoderKind::Amf),
        (EncoderChoice::AmfH265, EncoderKind::AmfH265),
        (EncoderChoice::Mf, EncoderKind::Mf),
        (EncoderChoice::MfH265, EncoderKind::MfH265),
        (EncoderChoice::X264, EncoderKind::X264),
    ];
    for (choice, want) in cases {
        assert_eq!(resolve_encoder(&choice, &all, HostOs::Linux), want);
        assert_eq!(resolve_encoder(&choice, &all, HostOs::Windows), want);
    }
}

#[test]
fn x264_is_used_even_when_not_listed() {
    assert_eq!(resolve_encoder(&EncoderChoice::X264, &caps(&["nvenc"]), HostOs::Linux), EncoderKind::X264);
}

#[test]
fn auto_prefers_nvenc_then_qsv_then_amf() {
    assert_eq!(resolve_encoder(&EncoderChoice::Auto, &caps(&ALL_LABELS), HostOs::Linux), EncoderKind::Nvenc);
    assert_eq!(
        resolve_encoder(&EncoderChoice::Auto, &caps(&["x264", "nvenc_h265", "intel_qsv"]), HostOs::Linux),
        EncoderKind::NvencH265
    );
    assert_eq!(
        resolve_encoder(&EncoderChoice::Auto, &caps(&["x264", "amd_amf", "intel_qsv_h265"]), HostOs::Windows),
        EncoderKind::QsvH265
    );
    assert_eq!(
        resolve_encoder(&EncoderChoice::Auto, &caps(&["x264", "amd_amf_h265", "vah264"]), HostOs::Linux),
        EncoderKind::AmfH265
    );
}

#[test]
fn auto_takes_vaapi_on_linux_only() {
    let c = caps(&["x264", "vah265", "windows_mf"]);
    assert_eq!(resolve_encoder(&EncoderChoice::Auto, &c, HostOs::Linux), EncoderKind::VaH265);
    assert_eq!(resolve_encoder(&EncoderChoice::Auto, &c, HostOs::Windows), EncoderKind::Mf);
    assert_eq!(resolve_encoder(&EncoderChoice::Auto, &c, HostOs::Other), EncoderKind::X264);
}

#[test]
fn auto_software_order() {
    assert_eq!(resolve_encoder(&EncoderChoice::Auto, &caps(&["x265", "x264"]), HostOs::Linux), EncoderKind::X264);
    assert_eq!(resolve_encoder(&EncoderChoice::Auto, &caps(&["x265"]), HostOs::Linux), EncoderKind::X265);
    assert_eq!(resolve_encoder(&EncoderChoice::Auto, &caps(&[]), HostOs::Linux), EncoderKind::X264);
}

#[test]
fn unavailable_choice_falls_back() {
    assert_eq!(
        resolve_encoder(&EncoderChoice::Nvenc, &caps(&["nvenc_h265", "x264"]), HostOs::Linux),
        EncoderKind::NvencH265
    );
    assert_eq!(
        resolve_encoder(&EncoderChoice::Amf, &caps(&["intel_qsv", "intel_qsv_h265"]), HostOs::Windows),
        EncoderKind::QsvH265
    );
    assert_eq!(
        resolve_encoder(&EncoderChoice::VaH264, &caps(&["vah265", "x264"]), HostOs::Linux),
        EncoderKind::VaH265
    );
    assert_eq!(
        resolve_encoder(&EncoderChoice::VaH264, &caps(&["vah265", "x264"]), HostOs::Windows),
        EncoderKind::X264
    );
    assert_eq!(
        resolve_encoder(&EncoderChoice::Qsv, &caps(&["x264", "x265"]), HostOs::Linux),
        EncoderKind::X265
    );
    assert_eq!(
        resolve_encoder(&EncoderChoice::Nvenc, &caps(&["windows_mf", "windows_mf_h265"]), HostOs::Windows),
        EncoderKind::MfH265
    );
    assert_eq!(
        resolve_encoder(&EncoderChoice::Nvenc, &caps(&["windows_mf"]), HostOs::Linux),
        EncoderKind::X264
    );
    assert_eq!(
        resolve_encoder(&EncoderChoice::X265, &caps(&["x264"]), HostOs::Linux),
        EncoderKind::X264
    );
}

#[test]
fn capability_lookup() {
    let c = caps(&["nvenc", "x264"]);
    assert!(caps_has(&c, "nvenc"));
    assert!(!caps_has(&c, "nvenc_h265"));
    assert!(!caps_has(&caps(&[]), "x264"));
}

#[test]
fn kind_methods() {
    let c = StreamConfig::default();
    assert_eq!(EncoderKind::QsvH265.element_name(), "qsvh265enc");
    assert_eq!(EncoderKind::QsvH265.codec(), "h265");
    assert_eq!(EncoderKind::QsvH265.raw_format(), Some("NV12"));
    assert!(EncoderKind::QsvH265.hardware());
    assert!(EncoderKind::QsvH265.gpu_asic());
    assert!(!EncoderKind::QsvH265.nvenc());
    assert_eq!(EncoderKind::Mf.params(&c), "bitrate=6000 rc-mode=cbr low-latency=true");
    assert_eq!(EncoderKind::X265.kind(), EncoderKind::X265);
}
