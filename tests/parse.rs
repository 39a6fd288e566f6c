use bms_rs::channel::{Channel, KeyLayout};
use bms_rs::command::{JudgeLevel, Key, NoteKind, ObjId, PlayerSide, PoorMode, Track};
use bms_rs::defs::Prompter;
use bms_rs::lexer::{parse_lex, LexOutput, LexWarning, Source};
use bms_rs::message::{
    filter_message, parse_hex_values, parse_obj_ids, FilteredText, ObjTime, ParseWarning,
};
use bms_rs::model::{Bms, Header, Obj, ParseOutput};
use bms_rs::processor::{
    DefinitionsProcessor, HeaderProcessor, Mapped, SequentialProcessor, TokenProcessor,
};
use bms_rs::random::{random_bounds, resolve_control_flow, ControlFlowWarning};
use bms_rs::token::{PixelPoint, PixelSize, Token};


fn lex(text: &'static str) -> LexOutput<'static> {
    let source: &'static Source<'static> = Box::leak(Box::new(Source::new(text)));
    parse_lex(source, KeyLayout::Beat)
}

fn id(s: &str) -> ObjId {
    ObjId::try_from_chars(s.chars().next().unwrap(), s.chars().nth(1).unwrap()).unwrap()
}

fn build(source: &'static str, draws: &[u32], prompter: Prompter) -> ParseOutput<'static> {
    let out = lex(source);
    assert_eq!(out.lex_warnings, vec![]);
    let (parsed, cf_warnings) =
        Bms::from_token_stream(&out.tokens, &draws.to_vec(), false, prompter).expect("must be parsed");
    assert_eq!(cf_warnings, vec![]);
    parsed
}

fn note(time: (u32, u64, u64), key: Key, obj: &str) -> Obj {
    Obj {
        offset: ObjTime::new(time.0, time.1, time.2),
        channel: Channel::Note { kind: NoteKind::Visible, side: PlayerSide::Player1, key },
        id: id(obj),
    }
}

#[test]
fn test_not_base_62() {
    let ParseOutput { bms, parse_warnings } = build(
        r"
        #WAVaa hoge.wav
        #WAVAA fuga.wav
    ",
        &[1],
        Prompter::AlwaysUseNewer,
    );
    assert_eq!(parse_warnings, vec![]);
    assert_eq!(bms.defs.wav_files.len(), 1);
    assert_eq!(bms.defs.wav_files.entries()[0].1, "fuga.wav");
}

#[test]
fn test_base_62() {
    let ParseOutput { bms, parse_warnings } = build(
        r"
        #WAVaa hoge.wav
        #WAVAA fuga.wav

        #BASE 62
    ",
        &[1],
        Prompter::AlwaysUseNewer,
    );
    assert_eq!(parse_warnings, vec![]);
    assert_eq!(bms.defs.wav_files.len(), 2);
}

const NESTED: &str = r"
        #00111:11000000

        #RANDOM 2

        #IF 1
            #00112:00220000

            #RANDOM 2

            #IF 1
                #00115:00550000
            #ENDIF

            #IF 2
                #00116:00006600
            #ENDIF

            #ENDRANDOM

        #ENDIF

        #IF 2
            #00113:00003300
        #ENDIF

        #ENDRANDOM

        #00114:00000044
    ";

#[test]
fn nested_random() {
    let bms = build(NESTED, &[1], Prompter::AlwaysWarn).bms;
    assert_eq!(
        bms.notes(),
        vec![
            note((1, 0, 4), Key::Key1, "11"),
            note((1, 1, 4), Key::Key2, "22"),
            note((1, 1, 4), Key::Key5, "55"),
            note((1, 3, 4), Key::Key4, "44"),
        ]
    );

    let bms = build(NESTED, &[1, 2], Prompter::AlwaysWarn).bms;
    assert_eq!(
        bms.notes(),
        vec![
            note((1, 0, 4), Key::Key1, "11"),
            note((1, 1, 4), Key::Key2, "22"),
            note((1, 2, 4), Key::Scratch, "66"),
            note((1, 3, 4), Key::Key4, "44"),
        ]
    );

    let bms = build(NESTED, &[2], Prompter::AlwaysWarn).bms;
    assert_eq!(
        bms.notes(),
        vec![
            note((1, 0, 4), Key::Key1, "11"),
            note((1, 2, 4), Key::Key3, "33"),
            note((1, 3, 4), Key::Key4, "44"),
        ]
    );
}

#[test]
fn test_atbga_parsing() {
    let ParseOutput { bms, parse_warnings } =
        build("\n#TITLE Test BMS\n#@BGA01 02 10 20 100 200 30 40\n", &[1], Prompter::AlwaysWarn);
    assert_eq!(parse_warnings, vec![]);
    assert!(bms.defs.atbga_defs.contains_key(id("01")));
    let def = bms.defs.atbga_defs.get(id("01")).unwrap();
    assert_eq!(def.source_bmp, id("02"));
    assert_eq!(def.trim_top_left, PixelPoint::new(10, 20));
    assert_eq!(def.trim_size, PixelSize::new(100, 200));
    assert_eq!(def.draw_point, PixelPoint::new(30, 40));
}

#[test]
fn test_bga_parsing() {
    let ParseOutput { bms, parse_warnings } =
        build("\n#TITLE Test BMS\n#BGA01 02 10 20 110 220 30 40\n", &[1], Prompter::AlwaysWarn);
    assert_eq!(parse_warnings, vec![]);
    assert!(bms.defs.bga_defs.contains_key(id("01")));
    let def = bms.defs.bga_defs.get(id("01")).unwrap();
    assert_eq!(def.source_bmp, id("02"));
    assert_eq!(def.trim_top_left, PixelPoint::new(10, 20));
    assert_eq!(def.trim_bottom_right, PixelPoint::new(110, 220));
    assert_eq!(def.draw_point, PixelPoint::new(30, 40));
}

#[test]
fn test_exrank_parsing() {
    let ParseOutput { bms, parse_warnings } =
        build("\n#TITLE Test BMS\n#EXRANK01 2\n", &[1], Prompter::AlwaysWarn);
    assert_eq!(parse_warnings, vec![]);
    assert!(bms.defs.exrank_defs.contains_key(id("01")));
    assert_eq!(bms.defs.exrank_defs.get(id("01")), Some(JudgeLevel::Normal));
}

#[test]
fn test_exwav_parsing() {
    let ParseOutput { bms, parse_warnings } = build(
        "\n#TITLE Test BMS\n#EXWAV01 pvf 10000 0 48000 test.wav\n",
        &[1],
        Prompter::AlwaysWarn,
    );
    assert_eq!(parse_warnings, vec![]);
    assert!(bms.defs.exwav_defs.contains_key(id("01")));
    let def = bms.defs.exwav_defs.get(id("01")).unwrap();
    assert_eq!(def.pan.value(), 10000);
    assert_eq!(def.volume.value(), 0);
    assert_eq!(def.frequency.map(|f| f.value()), Some(48000));
    assert_eq!(def.path, "test.wav");
}

#[test]
fn test_changeoption_parsing() {
    let ParseOutput { bms, parse_warnings } =
        build("\n#TITLE Test BMS\n#CHANGEOPTION01 test_option\n", &[1], Prompter::AlwaysWarn);
    assert_eq!(parse_warnings, vec![]);
    assert!(bms.defs.change_options.contains_key(id("01")));
    assert_eq!(bms.defs.change_options.get(id("01")), Some("test_option"));
}

#[test]
fn test_text_parsing() {
    let ParseOutput { bms, parse_warnings } =
        build("\n#TITLE Test BMS\n#TEXT01 test_text\n", &[1], Prompter::AlwaysWarn);
    assert_eq!(parse_warnings, vec![]);
    assert!(bms.defs.texts.contains_key(id("01")));
    assert_eq!(bms.defs.texts.get(id("01")), Some("test_text"));
}

#[test]
fn test_notes_parse_extended_tokens() {
    let source = r#"
#TITLE Test BMS
#EXRANK01 2
#EXWAV01 pvf 10000 0 48000 test.wav
#EXWAV02 vpf 0 10000 48000 test2.wav
#CHANGEOPTION01 test_option
#TEXT01 test_text
"#;
    let ParseOutput { bms, parse_warnings } = build(source, &[1], Prompter::AlwaysWarn);
    assert_eq!(parse_warnings, vec![]);
    assert!(bms.defs.exrank_defs.contains_key(id("01")));
    assert!(bms.defs.exwav_defs.contains_key(id("01")));
    assert!(bms.defs.exwav_defs.contains_key(id("02")));
    assert!(bms.defs.change_options.contains_key(id("01")));
    assert!(bms.defs.texts.contains_key(id("01")));
}

#[test]
fn test_token_parsing_comprehensive() {
    let source = r#"
#TITLE Test BMS
#ARTIST Test Artist
#EMAIL test@example.com
#URL http://example.com
#MAKER Test Maker
#MIDIFILE test.mid
#VIDEOFILE test.mp4
#POORBGA 1
#OCT/FP
#PATH_WAV wav/
#@BGA01 02 10 20 100 200 30 40
#BGA02 03 15 25 150 250 35 45
#EXRANK01 2
#EXWAV01 pvf 10000 0 48000 test.wav
#CHANGEOPTION01 test_option
#TEXT01 test_text
"#;
    let ParseOutput { bms, parse_warnings } = build(source, &[1], Prompter::AlwaysWarn);
    assert_eq!(parse_warnings, vec![]);
    assert_eq!(bms.header.artist, Some("Test Artist"));
    assert_eq!(bms.header.email, Some("test@example.com"));
    assert_eq!(bms.header.url, Some("http://example.com"));
    assert_eq!(bms.header.maker, Some("Test Maker"));
    assert_eq!(bms.header.midi_file, Some("test.mid"));
    assert_eq!(bms.header.video_file, Some("test.mp4"));
    assert_eq!(bms.header.poor_bga_mode, Some(PoorMode::Overlay));
    assert!(bms.header.is_octave);
    assert_eq!(bms.header.wav_path_root, Some("wav/"));
    assert!(bms.defs.atbga_defs.contains_key(id("01")));
    assert!(bms.defs.bga_defs.contains_key(id("02")));
    assert!(bms.defs.exrank_defs.contains_key(id("01")));
    assert!(bms.defs.exwav_defs.contains_key(id("01")));
    assert!(bms.defs.change_options.contains_key(id("01")));
    assert!(bms.defs.texts.contains_key(id("01")));
}

#[test]
fn test_exwav_out_of_range_values() {
    for (source, expected) in [
        ("\n#TITLE Test BMS\n#EXWAV01 p 10001 test.wav\n", "pan value out of range"),
        ("\n#TITLE Test BMS\n#EXWAV01 v 1 test.wav\n", "volume value out of range"),
        ("\n#TITLE Test BMS\n#EXWAV01 f 99 test.wav\n", "frequency value out of range"),
    ] {
        let out = lex(source);
        let [warn] = &out.lex_warnings[..] else {
            panic!("expected 1 warning, got: {:?}", out.lex_warnings);
        };
        match warn.warning {
            LexWarning::ExpectedToken(message) if message.starts_with(expected) => {}
            other => panic!("unexpected warning type: {other:?}"),
        }
        let (parsed, _) =
            Bms::from_token_stream(&out.tokens, &vec![1], false, Prompter::AlwaysWarn).unwrap();
        assert_eq!(parsed.parse_warnings, vec![]);
        assert_eq!(parsed.bms.header.title, Some("Test BMS"));
    }
}

#[test]
fn set_random_does_not_depend_on_draws() {
    let source = "#SETRANDOM 2\n#IF 1\n#00111:11\n#ELSE\n#00112:22\n#ENDIF\n#ENDRANDOM\n";
    let a = build(source, &[1], Prompter::AlwaysWarn).bms;
    let b = build(source, &[7, 3], Prompter::AlwaysWarn).bms;
    assert_eq!(a.objects.placed, b.objects.placed);
    assert_eq!(a.notes(), vec![note((1, 0, 1), Key::Key2, "22")]);
}

#[test]
fn switch_falls_through_until_skip() {
    let source = "#SETSWITCH 1\n#CASE 1\n#00111:11\n#CASE 2\n#00112:22\n#SKIP\n#CASE 3\n#00113:33\n#ENDSW\n";
    let bms = build(source, &[1], Prompter::AlwaysWarn).bms;
    assert_eq!(
        bms.notes(),
        vec![note((1, 0, 1), Key::Key1, "11"), note((1, 0, 1), Key::Key2, "22")]
    );
    let source = "#SWITCH 3\n#CASE 1\n#00111:11\n#SKIP\n#DEF\n#00112:22\n#ENDSW\n";
    let bms = build(source, &[3], Prompter::AlwaysWarn).bms;
    assert_eq!(bms.notes(), vec![note((1, 0, 1), Key::Key2, "22")]);
}

#[test]
fn strict_and_relaxed_control_flow() {
    let out = lex("#ENDIF\n#TITLE x\n#IF 1\n#00111:11\n#ENDIF\n");
    let err = resolve_control_flow(&out.tokens.tokens, &vec![1], false).unwrap_err();
    assert_eq!(err.warning, ControlFlowWarning::UnmatchedEndIf);
    let (kept, warnings) = resolve_control_flow(&out.tokens.tokens, &vec![1], true).unwrap();
    let kinds: Vec<ControlFlowWarning> = warnings.iter().map(|w| w.warning).collect();
    assert_eq!(kinds, vec![ControlFlowWarning::UnmatchedEndIf, ControlFlowWarning::MisplacedIf]);
    assert_eq!(kept.len(), 2);
    let out = lex("#RANDOM 2\n#IF 1\n#ELSE\n#ELSE\n#ENDIF\n");
    let err = resolve_control_flow(&out.tokens.tokens, &vec![1], false).unwrap_err();
    assert_eq!(err.warning, ControlFlowWarning::DuplicateElse);
    let (_, warnings) = resolve_control_flow(&out.tokens.tokens, &vec![1], true).unwrap();
    let kinds: Vec<ControlFlowWarning> = warnings.iter().map(|w| w.warning).collect();
    assert_eq!(kinds, vec![ControlFlowWarning::DuplicateElse, ControlFlowWarning::UnclosedScope]);
    let out = lex("#CASE 1\n#ENDSW\n#ENDRANDOM\n");
    let (_, warnings) = resolve_control_flow(&out.tokens.tokens, &vec![1], true).unwrap();
    let kinds: Vec<ControlFlowWarning> = warnings.iter().map(|w| w.warning).collect();
    assert_eq!(kinds, vec![ControlFlowWarning::MisplacedCase, ControlFlowWarning::UnmatchedEndRandom]);
}

#[test]
fn random_bounds_in_order() {
    let out = lex("#RANDOM 3\n#IF 1\n#SWITCH 5\n#ENDSW\n#ENDIF\n#ENDRANDOM\n#SETRANDOM 2\n");
    assert_eq!(random_bounds(&out.tokens.tokens), vec![3, 5]);
}

#[test]
fn prompters_decide_on_redefinitions() {
    let source = "#WAV01 a.wav\n#WAV01 b.wav\n";
    let out = build(source, &[1], Prompter::AlwaysUseOlder);
    assert_eq!(out.bms.defs.wav_files.get(id("01")), Some("a.wav"));
    assert_eq!(out.parse_warnings, vec![]);
    let out = build(source, &[1], Prompter::AlwaysWarn);
    assert_eq!(out.bms.defs.wav_files.get(id("01")), Some("b.wav"));
    assert_eq!(out.parse_warnings.len(), 1);
    assert_eq!(out.parse_warnings[0].warning, ParseWarning::DuplicateDefinition(id("01")));
}

#[test]
fn obj_ids_of_a_message() {
    let (warnings, objs) = parse_obj_ids(Track(3), "00aA0011", false);
    assert_eq!(warnings, vec![]);
    assert_eq!(
        objs,
        vec![(ObjTime::new(3, 1, 4), id("AA")), (ObjTime::new(3, 3, 4), id("11"))]
    );
    let (_, objs) = parse_obj_ids(Track(3), "00aA0011", true);
    assert_eq!(objs[0].1, id("aA"));
    let (warnings, objs) = parse_obj_ids(Track(0), "!!1", true);
    assert_eq!(warnings, vec![ParseWarning::OddMessageLength, ParseWarning::InvalidObjectId('!', '!')]);
    assert!(objs.is_empty());
}

#[test]
fn hex_values_of_a_message() {
    let (warnings, vals) = parse_hex_values(Track(1), "0AFFzz");
    assert_eq!(warnings, vec![ParseWarning::InvalidHexValue('z', 'z')]);
    assert_eq!(vals, vec![(ObjTime::new(1, 0, 3), 10), (ObjTime::new(1, 1, 3), 255)]);
}

#[test]
fn filter_message_removes_other_characters() {
    assert_eq!(filter_message("1.5"), FilteredText::Borrowed("1.5"));
    assert_eq!(filter_message("1.5_2").as_str(), "1.52");
    assert_eq!(filter_message("0.75 x"), FilteredText::Owned("0.75x".to_string()));
    assert_eq!(filter_message("").as_str(), "");
}

#[test]
fn messages_place_objects_in_time_order() {
    let source = "#00201:0011\n#00101:22\n#00102:0.5\n#00103:0A\n#00104:01 #comment\n";
    let out = lex(source);
    let (parsed, _) = Bms::from_token_stream(&out.tokens, &vec![1], false, Prompter::AlwaysWarn).unwrap();
    let bms = parsed.bms;
    let times: Vec<(u32, u64, u64)> =
        bms.objects.placed.iter().map(|o| (o.offset.track, o.offset.numerator, o.offset.denominator)).collect();
    assert_eq!(times, vec![(1, 0, 1), (1, 0, 1), (2, 1, 2)]);
    assert_eq!(bms.objects.section_lens, vec![(Track(1), FilteredText::Borrowed("0.5"))]);
    assert_eq!(bms.objects.bpm_changes_u8, vec![(ObjTime::new(1, 0, 1), 10)]);
    assert!(matches!(out.tokens.tokens[0].token, Token::Message { .. }));
}

#[test]
fn misplaced_else_and_dangling_endsw() {
    let out = lex("#ELSE\n#ENDSW\n#TITLE t\n");
    let err = resolve_control_flow(&out.tokens.tokens, &vec![1], false).unwrap_err();
    assert_eq!(err.warning, ControlFlowWarning::MisplacedElse);
    let (kept, warnings) = resolve_control_flow(&out.tokens.tokens, &vec![1], true).unwrap();
    let kinds: Vec<ControlFlowWarning> = warnings.iter().map(|w| w.warning).collect();
    assert_eq!(kinds, vec![ControlFlowWarning::MisplacedElse, ControlFlowWarning::UnmatchedEndSwitch]);
    assert_eq!(kept.len(), 1);
    assert_eq!((warnings[1].start, warnings[1].end), (6, 12));
}

#[test]
fn elseif_chain_takes_first_match() {
    let source = "#SETRANDOM 3\n#IF 1\n#00111:11\n#ELSEIF 3\n#00112:22\n#ELSEIF 3\n#00113:33\n#ELSE\n#00114:44\n#ENDIF\n#ENDRANDOM\n";
    let bms = build(source, &[1], Prompter::AlwaysWarn).bms;
    assert_eq!(bms.notes(), vec![note((1, 0, 1), Key::Key2, "22")]);
}

#[test]
fn processors_compose_and_map() {
    let out = lex("#TITLE t\n#WAV01 a.wav\n#WAV01 b.wav\n");
    let pair = SequentialProcessor::new(HeaderProcessor, DefinitionsProcessor);
    let ((header, defs), warnings) = pair.process(&out.tokens.tokens, Prompter::AlwaysWarn);
    assert_eq!(header.title, Some("t"));
    assert_eq!(defs.wav_files.get(id("01")), Some("b.wav"));
    assert_eq!(warnings.len(), 1);
    let title = Mapped::new(HeaderProcessor, |h: Header<'_>| h.player.is_none() && h.title.is_some());
    let (t, warnings) = title.process(&out.tokens.tokens, Prompter::AlwaysWarn);
    assert!(t);
    assert!(warnings.is_empty());
}

#[test]
fn body_ids_meet_definitions_across_branches() {
    let source = "#WAVaa a.wav\n#SETRANDOM 1\n#IF 2\n#BASE 62\n#ENDIF\n#ENDRANDOM\n#00101:aa\n";
    let bms = build(source, &[1], Prompter::AlwaysWarn).bms;
    let obj = bms.objects.placed[0];
    assert_eq!(obj.id, id("aa"));
    assert_eq!(bms.defs.wav_files.get(obj.id), Some("a.wav"));
}
