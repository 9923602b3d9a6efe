use ferrumcast::config::{
    capabilities_from_probe, encoder_choice_from_name, probe_capabilities, ConfigStore, EncoderChoice,
    StreamConfig, CANDIDATE_COUNT,
};

fn argv(v: &[&str]) -> Vec<String> {
    v.iter().map(|s| s.to_string()).collect()
}

fn from_args(v: &[&str]) -> StreamConfig {
    ConfigStore::new_from_args(&argv(v)).get()
}

#[test]
fn default_config_values() {
    let c = StreamConfig::default();
    assert_eq!(c.width, None);
    assert_eq!(c.height, None);
    assert_eq!(c.framerate, None);
    assert_eq!(c.bitrate, 6000);
    assert_eq!(c.encoder, EncoderChoice::Auto);
    assert_eq!(c.client_host, "127.0.0.1");
    assert!(c.audio);
    assert!(!c.audio_only);
    assert_eq!(c.audio_bitrate, 128);
    assert_eq!(c.token, None);
    assert!(!c.gdi);
    assert_eq!(c.monitor_index, 0);
    assert_eq!(c.speed_preset, "ultrafast");
    assert_eq!(c.tune, "zerolatency");
    assert_eq!(c.nvenc_preset, "p4");
    assert_eq!(c.nvenc_tune, "ultra-low-latency");
    assert_eq!(c.vaapi_target_usage, 1);
    assert_eq!(c.qsv_target_usage, 7);
    assert_eq!(c.rc_mode, "cbr");
    assert_eq!(c.cqp_value, 26);
    assert_eq!(c.key_int_max, 60);
    assert_eq!(c.bframes, 0);
    assert_eq!(c.ref_frames, 1);
    assert_eq!(c.rtp_mtu, 1200);
    assert_eq!(c.queue_max_time_ns, 0);
    assert_eq!(c.queue_max_buffers, 1);
    assert_eq!(c.aggregate_mode, "zero-latency");
    assert_eq!(c.udp_buffer_size, 2_097_152);
    assert!(c.show_cursor);
    assert_eq!(c.colorimetry, "2:3:3:3");
    assert_eq!(c.srtp_key, None);
}

#[test]
fn encoder_choice_defaults_to_auto() {
    assert_eq!(EncoderChoice::default(), EncoderChoice::Auto);
}

#[test]
fn store_new_holds_defaults() {
    assert_eq!(ConfigStore::new().get(), StreamConfig::default());
}

#[test]
fn store_get_after_set() {
    let mut store = ConfigStore::new();
    let mut cfg = StreamConfig::default();
    cfg.bitrate = 12000;
    cfg.client_host = "10.0.0.2".to_string();
    store.set(cfg.clone());
    assert_eq!(store.get(), cfg);
    let mut other = StreamConfig::default();
    other.monitor_index = 3;
    store.set(other.clone());
    assert_eq!(store.get(), other);
}

#[test]
fn clone_keeps_every_field() {
    let mut cfg = StreamConfig::default();
    cfg.width = Some(1280);
    cfg.srtp_key = Some("abc".to_string());
    cfg.token = Some("tok".to_string());
    assert_eq!(cfg.clone(), cfg);
}

#[test]
fn program_name_alone_gives_defaults() {
    assert_eq!(from_args(&["ferrumcast"]), StreamConfig::default());
    assert_eq!(ConfigStore::new_from_args(&Vec::new()).get(), StreamConfig::default());
}

#[test]
fn program_name_is_not_read_as_a_flag() {
    assert_eq!(from_args(&["--gdi"]), StreamConfig::default());
}

#[test]
fn bitrate_flag() {
    let c = from_args(&["ferrumcast", "--bitrate", "8000"]);
    let mut want = StreamConfig::default();
    want.bitrate = 8000;
    assert_eq!(c, want);
}

#[test]
fn numbers_read_as_str_parse_does() {
    assert_eq!(from_args(&["p", "--bitrate", "+7"]).bitrate, 7);
    assert_eq!(from_args(&["p", "--bitrate", "abc"]).bitrate, 6000);
    assert_eq!(from_args(&["p", "--bitrate", "-5"]).bitrate, 6000);
    assert_eq!(from_args(&["p", "--bitrate", ""]).bitrate, 6000);
    assert_eq!(from_args(&["p", "--bitrate", "+"]).bitrate, 6000);
    assert_eq!(from_args(&["p", "--bitrate", " 9"]).bitrate, 6000);
    assert_eq!(from_args(&["p", "--bitrate", "4294967295"]).bitrate, 4294967295);
    assert_eq!(from_args(&["p", "--bitrate", "4294967296"]).bitrate, 6000);
    assert_eq!(from_args(&["p", "--bitrate", "000123"]).bitrate, 123);
}

#[test]
fn numeric_flags() {
    let c = from_args(&[
        "p", "--width", "1920", "--height", "1080", "--fps", "60", "--monitor-index", "2",
        "--cqp-value", "30", "--key-int-max", "120", "--bframes", "2", "--audio-bitrate", "96",
    ]);
    assert_eq!(c.width, Some(1920));
    assert_eq!(c.height, Some(1080));
    assert_eq!(c.framerate, Some(60));
    assert_eq!(c.monitor_index, 2);
    assert_eq!(c.cqp_value, 30);
    assert_eq!(c.key_int_max, 120);
    assert_eq!(c.bframes, 2);
    assert_eq!(c.audio_bitrate, 96);
    assert_eq!(c.bitrate, 6000);
}

#[test]
fn text_flags() {
    let c = from_args(&[
        "p", "--host", "192.168.1.5,10.0.0.3:7000", "--speed-preset", "veryfast", "--tune", "film",
        "--nvenc-preset", "p1", "--nvenc-tune", "low-latency", "--rc-mode", "vbr", "--colorimetry",
        "bt709", "--srtp-key", "00112233",
    ]);
    assert_eq!(c.client_host, "192.168.1.5,10.0.0.3:7000");
    assert_eq!(c.speed_preset, "veryfast");
    assert_eq!(c.tune, "film");
    assert_eq!(c.nvenc_preset, "p1");
    assert_eq!(c.nvenc_tune, "low-latency");
    assert_eq!(c.rc_mode, "vbr");
    assert_eq!(c.colorimetry, "bt709");
    assert_eq!(c.srtp_key, Some("00112233".to_string()));
}

#[test]
fn boolean_flags() {
    let c = from_args(&["p", "--audio", "false", "--gdi", "yes"]);
    assert!(!c.audio);
    assert!(c.gdi);
    let c = from_args(&["p", "--audio", "no"]);
    assert!(c.audio);
    let c = from_args(&["p", "--audio", "False"]);
    assert!(c.audio);
    let c = from_args(&["p", "--audio-only"]);
    assert!(c.audio_only);
    let c = from_args(&["p", "--audio-only", "false"]);
    assert!(!c.audio_only);
    let c = from_args(&["p", "--gdi"]);
    assert!(c.gdi);
}

#[test]
fn gdi_is_a_bare_flag() {
    let c = from_args(&["p", "--gdi", "--bitrate", "8000"]);
    assert!(c.gdi);
    assert_eq!(c.bitrate, 8000);
    let c = from_args(&["p", "--gdi", "false"]);
    assert!(c.gdi);
    let mut want = StreamConfig::default();
    want.gdi = true;
    assert_eq!(c, want);
}

#[test]
fn flag_without_value_changes_nothing() {
    assert_eq!(from_args(&["p", "--bitrate"]), StreamConfig::default());
    assert_eq!(from_args(&["p", "--host"]), StreamConfig::default());
    assert_eq!(from_args(&["p", "--encoder"]), StreamConfig::default());
    assert_eq!(from_args(&["p", "--audio"]), StreamConfig::default());
}

#[test]
fn value_after_a_flag_is_consumed() {
    let c = from_args(&["p", "--host", "--bitrate", "100"]);
    assert_eq!(c.client_host, "--bitrate");
    assert_eq!(c.bitrate, 6000);
}

#[test]
fn unknown_arguments_are_skipped() {
    let c = from_args(&["p", "--weird", "--bitrate", "100", "stray", "--probe"]);
    assert_eq!(c.bitrate, 100);
    let mut want = StreamConfig::default();
    want.bitrate = 100;
    assert_eq!(c, want);
}

#[test]
fn later_flag_wins() {
    let c = from_args(&["p", "--bitrate", "100", "--bitrate", "200"]);
    assert_eq!(c.bitrate, 200);
}

#[test]
fn encoder_names_from_the_readme() {
    let cases = [
        ("vah265", EncoderChoice::VaH265),
        ("nvenc_h265", EncoderChoice::NvencH265),
        ("intel_qsv_h265", EncoderChoice::QsvH265),
        ("amd_amf_h265", EncoderChoice::AmfH265),
        ("windows_mf_h265", EncoderChoice::MfH265),
        ("x265", EncoderChoice::X265),
        ("vah264", EncoderChoice::VaH264),
        ("nvenc", EncoderChoice::Nvenc),
        ("intel_qsv", EncoderChoice::Qsv),
        ("amd_amf", EncoderChoice::Amf),
        ("windows_mf", EncoderChoice::Mf),
        ("x264", EncoderChoice::X264),
        ("auto", EncoderChoice::Auto),
        ("qsv", EncoderChoice::Qsv),
        ("amf", EncoderChoice::Amf),
        ("mf", EncoderChoice::Mf),
    ];
    for (name, want) in cases {
        assert_eq!(encoder_choice_from_name(name), want, "{}", name);
        assert_eq!(from_args(&["p", "--encoder", name]).encoder, want, "{}", name);
    }
}

#[test]
fn encoder_names_ignore_case() {
    assert_eq!(encoder_choice_from_name("NVENC"), EncoderChoice::Nvenc);
    assert_eq!(encoder_choice_from_name("X264"), EncoderChoice::X264);
    assert_eq!(encoder_choice_from_name("Intel_QSV_H265"), EncoderChoice::QsvH265);
}

#[test]
fn unknown_encoder_name_selects_auto() {
    assert_eq!(encoder_choice_from_name("h264"), EncoderChoice::Auto);
    assert_eq!(encoder_choice_from_name(""), EncoderChoice::Auto);
    assert_eq!(encoder_choice_from_name(" nvenc"), EncoderChoice::Auto);
    let c = from_args(&["p", "--encoder", "nvenc", "--encoder", "bogus"]);
    assert_eq!(c.encoder, EncoderChoice::Auto);
}

#[test]
fn probe_lists_found_encoders_in_order() {
    let mut ok = vec![false; CANDIDATE_COUNT];
    ok[9] = true;
    ok[0] = true;
    ok[10] = true;
    let caps = capabilities_from_probe(&ok);
    assert_eq!(caps.encoders, vec!["nvenc", "vah265", "x264"]);
}

#[test]
fn probe_lists_every_candidate() {
    let caps = capabilities_from_probe(&vec![true; CANDIDATE_COUNT]);
    assert_eq!(
        caps.encoders,
        vec![
            "nvenc", "nvenc_h265", "windows_mf", "windows_mf_h265", "amd_amf", "amd_amf_h265",
            "intel_qsv", "intel_qsv_h265", "vah264", "vah265", "x264", "x265"
        ]
    );
}

#[test]
fn probe_falls_back_to_x264() {
    let caps = capabilities_from_probe(&vec![false; CANDIDATE_COUNT]);
    assert_eq!(caps.encoders, vec!["x264"]);
}

#[test]
fn probe_asks_each_element() {
    let caps = probe_capabilities(|e: &str| e == "qsvh265enc" || e == "x265enc");
    assert_eq!(caps.encoders, vec!["intel_qsv_h265", "x265"]);
    let caps = probe_capabilities(|_e: &str| false);
    assert_eq!(caps.encoders, vec!["x264"]);
}
