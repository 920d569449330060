use linmic::codec::{application, codec_count, decode_size_ok, encode_frame_ok, fec_settings};
use linmic::text::{parse_bool, parse_u32, parse_u64};
use linmic::ui::{
    announce_state, language_at, language_code, language_index, pairing_seconds_left,
    tray_icon, tray_title,
};

#[test]
fn language_settings_choose_by_prefix() {
    assert_eq!(language_code("pt_BR.UTF-8"), "pt-BR");
    assert_eq!(language_code("  PT"), "pt-BR");
    assert_eq!(language_code("es_ES"), "es");
    assert_eq!(language_code("\tru\n"), "ru");
    assert_eq!(language_code("zh_CN.UTF-8"), "zh-CN");
    assert_eq!(language_code("Ja"), "ja");
    assert_eq!(language_code("de_DE"), "en");
    assert_eq!(language_code("p"), "en");
    assert_eq!(language_code(""), "en");
    assert_eq!(language_code("\u{3000}es"), "es");
}

#[test]
fn language_list_positions() {
    assert_eq!(language_at(0), Some("pt-BR"));
    assert_eq!(language_at(5), Some("ja"));
    assert_eq!(language_at(6), None);
    assert_eq!(language_index("zh-CN"), 4);
    assert_eq!(language_index("fr"), 1);
}

#[test]
fn tray_and_notifications() {
    assert_eq!(tray_title(true), "LinMic — muted");
    assert_eq!(tray_title(false), "LinMic");
    assert_eq!(tray_icon(true), "microphone-sensitivity-muted-symbolic");
    assert_eq!(tray_icon(false), "audio-input-microphone-symbolic");
    assert_eq!(pairing_seconds_left(0), 120);
    assert_eq!(pairing_seconds_left(119), 1);
    assert_eq!(pairing_seconds_left(500), 0);
    assert!(announce_state("CONNECTED", "STREAMING"));
    assert!(announce_state("STREAMING", "IDLE"));
    assert!(!announce_state("", "STREAMING"));
    assert!(!announce_state("STREAMING", "STREAMING"));
    assert!(!announce_state("STREAMING", "MUTED"));
}

#[test]
fn codec_limits_and_settings() {
    assert!(decode_size_ok(1) && decode_size_ok(5760));
    assert!(!decode_size_ok(0) && !decode_size_ok(5761));
    assert!(encode_frame_ok(240) && encode_frame_ok(480) && encode_frame_ok(960));
    assert!(!encode_frame_ok(481));
    assert_eq!(application(true), 2051);
    assert_eq!(application(false), 2048);
    assert_eq!(fec_settings(0), (0, 0));
    assert_eq!(fec_settings(-4), (0, 0));
    assert_eq!(fec_settings(7), (1, 7));
    assert_eq!(fec_settings(250), (1, 100));
    assert_eq!(codec_count(12), Some(12));
    assert_eq!(codec_count(-3), None);
}

#[test]
fn numbers_and_flags_parse_as_std_does() {
    for s in ["0", "+7", "0042", "18446744073709551615", "", "+", "-1", "1 ", "18446744073709551616", "x"] {
        assert_eq!(parse_u64(s), s.parse::<u64>().ok(), "{s}");
    }
    for s in ["4294967295", "4294967296", "20", "+20", "2e1"] {
        assert_eq!(parse_u32(s), s.parse::<u32>().ok(), "{s}");
    }
    for s in ["true", "false", "True", "1", ""] {
        assert_eq!(parse_bool(s), s.parse::<bool>().ok(), "{s}");
    }
}
