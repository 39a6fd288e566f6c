use bms_rs::channel::{Channel, KeyLayout};
use bms_rs::command::{Argb, JudgeLevel, Key, NoteKind, ObjId, PlayerSide, Track};
use bms_rs::lexer::{parse_lex, LexOutput, LexWarning, Source};
use bms_rs::token::{PixelPoint, PixelSize, Token};


fn lex(text: &'static str) -> LexOutput<'static> {
    let source: &'static Source<'static> = Box::leak(Box::new(Source::new(text)));
    parse_lex(source, KeyLayout::Beat)
}

fn parse_token(input: &'static str) -> Token<&'static str> {
    let out = lex(input);
    assert_eq!(out.lex_warnings, vec![], "unexpected warnings for {input:?}");
    out.tokens.tokens[0].token
}

fn id(s: &str) -> ObjId {
    ObjId::try_from_str(s).unwrap()
}

#[test]
fn test_exbmp() {
    let Token::ExBmp(id0, argb, path) = parse_token("#EXBMP01 255,0,0,0 exbmp.png") else {
        panic!("Not ExBmp");
    };
    assert_eq!(id0.as_chars(), ('0', '1'));
    assert_eq!(argb.alpha, 255);
    assert_eq!(argb.red, 0);
    assert_eq!(argb.green, 0);
    assert_eq!(argb.blue, 0);
    assert_eq!(path, "exbmp.png");
}

#[test]
fn test_exrank() {
    let Token::ExRank(id0, level) = parse_token("#EXRANK01 2") else {
        panic!("Not ExRank");
    };
    assert_eq!(id0.as_chars(), ('0', '1'));
    assert_eq!(level, JudgeLevel::Normal);
}

#[test]
fn test_exwav() {
    let Token::ExWav { id: id0, pan, volume, frequency, path: file } =
        parse_token("#EXWAV01 pvf 10000 0 48000 ex.wav")
    else {
        panic!("Not ExWav");
    };
    assert_eq!(id0.as_chars(), ('0', '1'));
    assert_eq!(pan.value(), 10000);
    assert_eq!(volume.value(), 0);
    assert_eq!(frequency.map(|f| f.value()), Some(48000));
    assert_eq!(file, "ex.wav");
}

#[test]
fn test_exwav_2() {
    let Token::ExWav { id: id0, pan, volume, frequency, path: file } =
        parse_token("#EXWAV01 vpf 0 10000 48000 ex.wav")
    else {
        panic!("Not ExWav");
    };
    assert_eq!(id0.as_chars(), ('0', '1'));
    assert_eq!(pan.value(), 10000);
    assert_eq!(volume.value(), 0);
    assert_eq!(frequency.map(|f| f.value()), Some(48000));
    assert_eq!(file, "ex.wav");
}

#[test]
fn test_exwav_default() {
    let Token::ExWav { id: id0, pan, volume, frequency, path: file } =
        parse_token("#EXWAV01 f 48000 ex.wav")
    else {
        panic!("Not ExWav");
    };
    assert_eq!(id0.as_chars(), ('0', '1'));
    assert_eq!(pan.value(), 0);
    assert_eq!(volume.value(), 0);
    assert_eq!(frequency.map(|f| f.value()), Some(48000));
    assert_eq!(file, "ex.wav");
}

#[test]
fn exwav_orders_give_identical_tokens() {
    assert_eq!(
        parse_token("#EXWAV01 pvf 10000 0 48000 ex.wav"),
        parse_token("#EXWAV01 vpf 0 10000 48000 ex.wav")
    );
}

#[test]
fn test_text() {
    let Token::Text(id0, text) = parse_token("#TEXT01 hello world") else {
        panic!("Not Text");
    };
    assert_eq!(id0.as_chars(), ('0', '1'));
    assert_eq!(text, "hello world");
}

#[test]
fn test_atbga() {
    let Token::AtBga { id: id0, source_bmp, trim_top_left, trim_size, draw_point } =
        parse_token("#@BGA01 02 1 2 3 4 5 6")
    else {
        panic!("Not AtBga");
    };
    assert_eq!(id0.as_chars(), ('0', '1'));
    assert_eq!(source_bmp.as_chars(), ('0', '2'));
    assert_eq!(trim_top_left, PixelPoint::new(1, 2));
    assert_eq!(trim_size, PixelSize::new(3, 4));
    assert_eq!(draw_point, PixelPoint::new(5, 6));
}

#[test]
fn test_bga() {
    let Token::Bga { id: id0, source_bmp, trim_top_left, trim_bottom_right, draw_point } =
        parse_token("#BGA01 02 1 2 3 4 5 6")
    else {
        panic!("Not Bga");
    };
    assert_eq!(id0.as_chars(), ('0', '1'));
    assert_eq!(source_bmp.as_chars(), ('0', '2'));
    assert_eq!(trim_top_left, PixelPoint::new(1, 2));
    assert_eq!(trim_bottom_right, PixelPoint::new(3, 4));
    assert_eq!(draw_point, PixelPoint::new(5, 6));
}

#[test]
fn test_changeoption() {
    let Token::ChangeOption(id0, opt) = parse_token("#CHANGEOPTION01 opt") else {
        panic!("Not ChangeOption");
    };
    assert_eq!(id0.as_chars(), ('0', '1'));
    assert_eq!(opt, "opt");
}

#[test]
fn test_lnobj() {
    let Token::LnObj(id0) = parse_token("#LNOBJ01") else {
        panic!("Not LnObj");
    };
    assert_eq!(id0.as_chars(), ('0', '1'));
}

#[test]
fn test_comment() {
    let text = r"
    #Comment This is a comment
    This is another comment
    This is the third comment💖

    This is the fourth comment";

    let out = lex(text);
    assert_eq!(out.lex_warnings, vec![]);
    let mut ts_iter = out.tokens.iter();
    assert_eq!(ts_iter.next().map(|t| t.token), Some(Token::Comment("This is a comment")));
    assert_eq!(
        ts_iter.next().map(|t| t.token),
        Some(Token::NotACommand("This is another comment"))
    );
    assert_eq!(
        ts_iter.next().map(|t| t.token),
        Some(Token::NotACommand("This is the third comment💖"))
    );
    assert_eq!(
        ts_iter.next().map(|t| t.token),
        Some(Token::NotACommand("This is the fourth comment"))
    );
    assert_eq!(ts_iter.next().map(|t| t.token), None);
}

#[test]
fn header_commands_are_case_insensitive() {
    assert_eq!(parse_token("#title  Some Title  "), Token::Title("Some Title"));
    assert_eq!(parse_token("#PLAYER 3"), Token::Player(bms_rs::command::PlayerMode::Double));
    assert_eq!(parse_token("#RANK 4"), Token::Rank(JudgeLevel::OtherInt(4)));
    assert_eq!(parse_token("#LNTYPE 2"), Token::LnTypeMgq);
    assert_eq!(parse_token("#LNTYPE 1"), Token::LnTypeRdm);
    assert_eq!(parse_token("#STAEGFILE stage.png"), Token::StageFile("stage.png"));
    assert_eq!(parse_token("%URL http://x"), Token::Url("http://x"));
    assert_eq!(parse_token("#BMP00 miss.bmp"), Token::Bmp(None, "miss.bmp"));
    assert_eq!(parse_token("#STOP01 192"), Token::Stop(id("01"), 192));
    assert_eq!(parse_token("#RANDOM 2"), Token::Random(2));
    assert_eq!(parse_token("#ENDSW"), Token::EndSwitch);
    assert_eq!(parse_token("#FOO bar"), Token::UnknownCommand("#FOO bar"));
}

#[test]
fn message_lines() {
    assert_eq!(
        parse_token("#00111:0011"),
        Token::Message {
            track: Track(1),
            channel: Channel::Note { kind: NoteKind::Visible, side: PlayerSide::Player1, key: Key::Key1 },
            message: "0011",
        }
    );
    assert_eq!(
        parse_token("#EXT #00201:AA"),
        Token::ExtendedMessage { track: Track(2), channel: Channel::Bgm, message: "AA" }
    );
}

#[test]
fn lex_errors_become_warnings_and_lexing_goes_on() {
    let out = lex("#WAV!! a.wav\n#00188:11\n#BASE 36\n#EXT foo\n#PLAYER 9\n#TITLE ok\n");
    let ws: Vec<LexWarning<&str>> = out.lex_warnings.iter().map(|w| w.warning).collect();
    assert_eq!(
        ws,
        vec![
            LexWarning::InvalidObjectId("!!"),
            LexWarning::UnknownChannel("88"),
            LexWarning::UnknownBase("36"),
            LexWarning::UnknownExtendedMessage("foo"),
            LexWarning::ExpectedToken("one of 1, 2 or 3"),
        ]
    );
    assert_eq!(out.tokens.tokens.len(), 1);
    assert_eq!(out.tokens.tokens[0].token, Token::Title("ok"));
    assert_eq!((out.lex_warnings[0].start, out.lex_warnings[0].end), (0, 6));
}

#[test]
fn exbmp_component_errors() {
    let out = lex("#EXBMP01 1,2,3 a.png\n#EXBMP01 1,x,3,4 a.png");
    let ws: Vec<LexWarning<&str>> = out.lex_warnings.iter().map(|w| w.warning).collect();
    assert_eq!(
        ws,
        vec![
            LexWarning::ExpectedToken("expected 4 comma-separated values"),
            LexWarning::ExpectedToken("invalid red value"),
        ]
    );
    assert_eq!(
        parse_token("#EXBMP02 1,2,3,4 b.png"),
        Token::ExBmp(id("02"), Argb { alpha: 1, red: 2, green: 3, blue: 4 }, "b.png")
    );
}

#[test]
fn ids_are_uppercased_without_base62() {
    let out = lex("#WAVaa a.wav\n");
    assert_eq!(out.tokens.tokens[0].token, Token::Wav(id("AA"), "a.wav"));
    let out = lex("#WAVaa a.wav\n#BASE 62\n");
    assert_eq!(out.tokens.tokens[0].token, Token::Wav(id("aa"), "a.wav"));
}

#[test]
fn empty_source_has_no_tokens() {
    let out = lex("");
    assert!(out.tokens.tokens.is_empty());
    assert!(out.lex_warnings.is_empty());
    let out = lex("  \n\t\n");
    assert!(out.tokens.tokens.is_empty());
}

#[test]
fn control_flow_tokens_are_recognised() {
    assert!(Token::<&str>::If(1).is_control_flow_token());
    assert!(Token::<&str>::Skip.is_control_flow_token());
    assert!(!Token::Title("x").is_control_flow_token());
}

#[test]
fn diagnostics_locate_line_and_column() {
    let source = "#TITLE a\n  #PLAYER 9\n";
    let out = lex(source);
    let w = out.lex_warnings[0];
    assert_eq!((w.start, w.end), (11, 18));
    assert_eq!(bms_rs::cursor::line_col(source, w.start), (2, 3));
    assert_eq!(bms_rs::cursor::line_col(source, 0), (1, 1));
}

#[test]
fn case_pass_uppercases_message_bodies() {
    let out = lex("#00111:aa00\n#WAVaa a.wav\n");
    assert_eq!(
        out.tokens.tokens[0].token,
        Token::Message {
            track: Track(1),
            channel: Channel::Note { kind: NoteKind::Visible, side: PlayerSide::Player1, key: Key::Key1 },
            message: "AA00",
        }
    );
    assert_eq!(out.tokens.tokens[1].token, Token::Wav(id("AA"), "a.wav"));
    let out = lex("#00111:aa00\n#BASE 62\n");
    assert!(matches!(out.tokens.tokens[0].token, Token::Message { message: "aa00", .. }));
}

#[test]
fn fatal_errors_and_plain_warnings() {
    let out = lex("#EXWAV01 p 10001 a.wav\n#EXT foo\n#BASE 36\n");
    assert_eq!(out.lex_warnings.len(), 3);
    assert_eq!(out.fatal_error(), None);
    let out = lex("#EXWAV01 p 10001 a.wav\n#WAV!! a.wav\n#PLAYER\n");
    assert_eq!(out.fatal_error().map(|w| w.warning), Some(LexWarning::InvalidObjectId("!!")));
}

#[test]
fn command_words_are_uppercased_by_unicode() {
    assert_eq!(parse_token("#t\u{131}tle Dotless"), Token::Title("Dotless"));
    assert_eq!(parse_token("#wav0a x.wav"), Token::Wav(id("0A"), "x.wav"));
}
