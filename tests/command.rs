use bms_rs::channel::{
    read_channel_beat, read_channel_beat_nanasi, read_channel_dsc_oct_fp, read_channel_pms,
    read_channel_pms_bme_type, Channel, KeyLayout,
};
use bms_rs::command::{
    base62_to_byte, char_to_base62, Argb, ExWavFrequency, ExWavPan, ExWavVolume, JudgeLevel, Key,
    NoteKind, ObjId, PlayerMode, PlayerSide, PoorMode, Volume,
};
use bms_rs::number::{parse_i16, parse_i64, parse_u32, parse_u8};

#[test]
fn test_base62() {
    assert!(matches!(char_to_base62('/'), None));
    assert!(matches!(char_to_base62('0'), Some(b'0')));
    assert!(matches!(char_to_base62('9'), Some(b'9')));
    assert!(matches!(char_to_base62(':'), None));
    assert!(matches!(char_to_base62('@'), None));
    assert!(matches!(char_to_base62('A'), Some(b'A')));
    assert!(matches!(char_to_base62('Z'), Some(b'Z')));
    assert!(matches!(char_to_base62('['), None));
    assert!(matches!(char_to_base62('`'), None));
    assert!(matches!(char_to_base62('a'), Some(b'a')));
    assert!(matches!(char_to_base62('z'), Some(b'z')));
    assert!(matches!(char_to_base62('{'), None));
}

#[test]
fn test_exwav_pan_try_from() {
    assert!(ExWavPan::try_from(0).is_ok());
    assert!(ExWavPan::try_from(10000).is_ok());
    assert!(ExWavPan::try_from(-10000).is_ok());
    assert!(ExWavPan::try_from(5000).is_ok());
    assert!(ExWavPan::try_from(-5000).is_ok());

    assert!(ExWavPan::try_from(10001).is_err());
    assert!(ExWavPan::try_from(-10001).is_err());
    assert!(ExWavPan::try_from(i64::MAX).is_err());
    assert!(ExWavPan::try_from(i64::MIN).is_err());
}

#[test]
fn test_exwav_volume_try_from() {
    assert!(ExWavVolume::try_from(0).is_ok());
    assert!(ExWavVolume::try_from(-10000).is_ok());
    assert!(ExWavVolume::try_from(-5000).is_ok());

    assert!(ExWavVolume::try_from(1).is_err());
    assert!(ExWavVolume::try_from(-10001).is_err());
    assert!(ExWavVolume::try_from(i64::MAX).is_err());
    assert!(ExWavVolume::try_from(i64::MIN).is_err());
}

#[test]
fn test_exwav_frequency_try_from() {
    assert!(ExWavFrequency::try_from(100).is_ok());
    assert!(ExWavFrequency::try_from(100000).is_ok());
    assert!(ExWavFrequency::try_from(50000).is_ok());

    assert!(ExWavFrequency::try_from(99).is_err());
    assert!(ExWavFrequency::try_from(100001).is_err());
    assert!(ExWavFrequency::try_from(0).is_err());
    assert!(ExWavFrequency::try_from(u64::MAX).is_err());
}

#[test]
fn test_exwav_values() {
    let pan = ExWavPan::try_from(5000).unwrap();
    assert_eq!(pan.value(), 5000);

    let volume = ExWavVolume::try_from(-5000).unwrap();
    assert_eq!(volume.value(), -5000);

    let frequency = ExWavFrequency::try_from(48000).unwrap();
    assert_eq!(frequency.value(), 48000);
}

#[test]
fn test_exwav_defaults() {
    assert_eq!(ExWavPan::default().value(), 0);
    assert_eq!(ExWavVolume::default().value(), 0);
}

#[test]
fn exwav_bounds_are_exact() {
    assert!(ExWavPan::new(-10000).is_some());
    assert!(ExWavPan::new(10000).is_some());
    assert!(ExWavPan::new(-10001).is_none());
    assert!(ExWavPan::new(10001).is_none());
    assert!(ExWavVolume::new(-10000).is_some());
    assert!(ExWavVolume::new(0).is_some());
    assert!(ExWavVolume::new(1).is_none());
    assert!(ExWavVolume::new(-10001).is_none());
    assert!(ExWavFrequency::new(100).is_some());
    assert!(ExWavFrequency::new(100000).is_some());
    assert!(ExWavFrequency::new(99).is_none());
    assert!(ExWavFrequency::new(100001).is_none());
}

#[test]
fn exwav_errors_hold_clamped_values() {
    assert_eq!(ExWavPan::try_from(20000), Err(10000));
    assert_eq!(ExWavPan::try_from(-20000), Err(-10000));
    assert_eq!(ExWavVolume::try_from(5), Err(0));
    assert_eq!(ExWavVolume::try_from(-10001), Err(-10000));
    assert_eq!(ExWavFrequency::try_from(1), Err(100));
    assert_eq!(ExWavFrequency::try_from(200000), Err(100000));
}

#[test]
fn obj_id_round_trip_keeps_case() {
    for s in ["00", "0Z", "aa", "AA", "zZ", "9a"] {
        let cs: Vec<char> = s.chars().collect();
        let id = ObjId::try_from_str(s).unwrap();
        assert_eq!(id.as_chars(), (cs[0], cs[1]));
        let mut upper = id;
        upper.make_uppercase();
        assert_eq!(upper.as_chars(), (cs[0].to_ascii_uppercase(), cs[1].to_ascii_uppercase()));
    }
    assert!(ObjId::try_from_str("a").is_none());
    assert!(ObjId::try_from_str("abc").is_none());
    assert!(ObjId::try_from_str("a!").is_none());
    assert_eq!(ObjId::try_from_chars('!', 'a'), Err(('!', 'a')));
}

#[test]
fn obj_id_numeric_value() {
    assert_eq!(ObjId::try_from_str("00").unwrap().as_u16(), 0);
    assert_eq!(ObjId::try_from_str("11").unwrap().as_u16(), 63);
    assert_eq!(ObjId::try_from_str("0Z").unwrap().as_u32(), 35);
    assert_eq!(ObjId::try_from_str("zz").unwrap().as_u64(), 61 * 62 + 61);
    assert_eq!(base62_to_byte(b'a'), 36);
    assert!(ObjId::null().is_null());
    assert_eq!(ObjId::null().as_chars(), ('0', '0'));
}

#[test]
fn defaults_of_plain_types() {
    assert_eq!(Volume::default().relative_percent, 100);
    assert_eq!(Argb::default(), Argb { alpha: 255, red: 0, green: 0, blue: 0 });
    assert_eq!(PoorMode::default(), PoorMode::Interrupt);
    assert_eq!(PlayerSide::default(), PlayerSide::Player1);
}

#[test]
fn note_kind_predicates() {
    assert!(NoteKind::Visible.is_playable());
    assert!(!NoteKind::Invisible.is_playable());
    assert!(NoteKind::Long.is_long());
    assert!(!NoteKind::Landmine.is_long());
}

#[test]
fn mode_arguments() {
    assert_eq!(PlayerMode::from_arg("3"), Some(PlayerMode::Double));
    assert_eq!(PlayerMode::from_arg("4"), None);
    assert_eq!(PoorMode::from_arg("2"), Some(PoorMode::Hidden));
    assert_eq!(JudgeLevel::from_int(2), JudgeLevel::Normal);
    assert_eq!(JudgeLevel::from_int(-1), JudgeLevel::OtherInt(-1));
}

#[test]
fn every_layout_shares_general_channels() {
    for layout in [
        KeyLayout::Beat,
        KeyLayout::PmsBmeType,
        KeyLayout::Pms,
        KeyLayout::BeatNanasi,
        KeyLayout::DscOctFp,
    ] {
        assert_eq!(layout.read_channel("00"), None);
        assert_eq!(layout.read_channel("01"), Some(Channel::Bgm));
        assert_eq!(layout.read_channel("sc"), Some(Channel::Scroll));
    }
}

#[test]
fn layouts_map_keys() {
    let note = |kind, side, key| Some(Channel::Note { kind, side, key });
    assert_eq!(read_channel_beat("16"), note(NoteKind::Visible, PlayerSide::Player1, Key::Scratch));
    assert_eq!(read_channel_beat("29"), note(NoteKind::Visible, PlayerSide::Player2, Key::Key7));
    assert_eq!(read_channel_beat("D1"), note(NoteKind::Landmine, PlayerSide::Player1, Key::Key1));
    assert_eq!(read_channel_beat("1A"), None);
    assert_eq!(read_channel_pms_bme_type("16"), note(NoteKind::Visible, PlayerSide::Player1, Key::Key8));
    assert_eq!(read_channel_pms("22"), note(NoteKind::Visible, PlayerSide::Player1, Key::Key6));
    assert_eq!(read_channel_pms("21"), None);
    assert_eq!(read_channel_beat_nanasi("17"), note(NoteKind::Visible, PlayerSide::Player1, Key::FootPedal));
    assert_eq!(read_channel_beat_nanasi("18"), None);
    assert_eq!(read_channel_dsc_oct_fp("26"), note(NoteKind::Visible, PlayerSide::Player1, Key::ScratchExtra));
    assert_eq!(read_channel_dsc_oct_fp("51"), note(NoteKind::Long, PlayerSide::Player1, Key::Key1));
}

#[test]
fn decimal_numbers() {
    assert_eq!(parse_u8("255"), Some(255));
    assert_eq!(parse_u8("256"), None);
    assert_eq!(parse_u8("+7"), Some(7));
    assert_eq!(parse_u8("-1"), None);
    assert_eq!(parse_u32(""), None);
    assert_eq!(parse_u32("4294967295"), Some(u32::MAX));
    assert_eq!(parse_i64("-9223372036854775808"), Some(i64::MIN));
    assert_eq!(parse_i64("9223372036854775808"), None);
    assert_eq!(parse_i16("-32768"), Some(-32768));
    assert_eq!(parse_i16("1x"), None);
}

#[test]
fn channel_codes_are_uppercased_by_unicode() {
    assert_eq!(read_channel_beat("\u{17f}c"), Some(Channel::Scroll));
    assert_eq!(read_channel_beat("sp"), Some(Channel::Speed));
    assert_eq!(read_channel_beat("\u{df}"), None);
}
