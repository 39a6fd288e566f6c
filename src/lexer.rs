//! The lexer: turns the source text into tokens with their source ranges, and warnings.
use vstd::prelude::*;

use crate::channel::{spec_read_channel, KeyLayout};
use crate::command::{
    spec_obj_id, uppercase, uppercase_chars, Argb, ExWavFrequency, ExWavPan, ExWavVolume, JudgeLevel, ObjId,
    PlayerMode, PoorMode, Track, Volume,
};
use crate::cursor::{next_line_start, next_word, rest_of_line, Cursor};
use crate::number::{decimal_in, parse_i64, parse_u64};
use crate::token::{upper_seq, PixelPoint, PixelSize, Token};

verus! {

/// A problem found while lexing one command. The command yields no token.
#[derive(Debug, Clone, Copy, PartialEq, Eq, Hash)]
pub enum LexWarning<S> {
    /// An argument was missing or malformed; the message names what was expected.
    ExpectedToken(S),
    /// The channel code of a message is unknown to the key layout.
    UnknownChannel(S),
    /// The text is not an object id of two base-62 characters.
    InvalidObjectId(S),
    /// `#BASE` declared a base other than 62.
    UnknownBase(S),
    /// The payload of `#EXT` is not a message line.
    UnknownExtendedMessage(S),
}

impl<'a> View for LexWarning<&'a str> {
    type V = LexWarning<Seq<char>>;

    open spec fn view(&self) -> LexWarning<Seq<char>> {
        match self {
            LexWarning::ExpectedToken(m) => LexWarning::ExpectedToken(m@),
            LexWarning::UnknownChannel(m) => LexWarning::UnknownChannel(m@),
            LexWarning::InvalidObjectId(m) => LexWarning::InvalidObjectId(m@),
            LexWarning::UnknownBase(m) => LexWarning::UnknownBase(m@),
            LexWarning::UnknownExtendedMessage(m) => LexWarning::UnknownExtendedMessage(m@),
        }
    }
}

/// The outcome of lexing one command, with the position the cursor moved to.
pub type Lexed = (Result<Token<Seq<char>>, LexWarning<Seq<char>>>, int);

/// The view of the outcome of lexing one command.
pub open spec fn outcome_view<'a>(r: Result<Token<&'a str>, LexWarning<&'a str>>) -> Result<
    Token<Seq<char>>,
    LexWarning<Seq<char>>,
> {
    match r {
        Ok(t) => Ok(t@),
        Err(e) => Err(e@),
    }
}

/// Whether `lit` is a prefix of `u`.
pub open spec fn has_prefix(u: Seq<char>, lit: Seq<char>) -> bool {
    lit.len() <= u.len() && u.subrange(0, lit.len() as int) == lit
}

/// The next word from `i`, and the position after it.
pub open spec fn read_word(s: Seq<char>, i: int) -> (Option<Seq<char>>, int) {
    match next_word(s, i) {
        None => (None, s.len() as int),
        Some((a, b)) => (Some(s.subrange(a, b)), b),
    }
}

/// The rest of the line from `i`, trimmed, and the start of the next line.
pub open spec fn read_rest(s: Seq<char>, i: int) -> (Seq<char>, int) {
    (s.subrange(rest_of_line(s, i).0, rest_of_line(s, i).1), next_line_start(s, i))
}

/// A required word argument: missing, it is the error `ExpectedToken(what)`.
pub open spec fn spec_word_arg(s: Seq<char>, i: int, what: Seq<char>) -> (
    Result<Seq<char>, LexWarning<Seq<char>>>,
    int,
) {
    match read_word(s, i).0 {
        None => (Err(LexWarning::ExpectedToken(what)), read_word(s, i).1),
        Some(t) => (Ok(t), read_word(s, i).1),
    }
}

/// A required integer argument in `[lo, hi]`: missing, it is `ExpectedToken(what)`; not such an
/// integer, it is `ExpectedToken(bad)`.
pub open spec fn spec_int_arg(
    s: Seq<char>,
    i: int,
    what: Seq<char>,
    bad: Seq<char>,
    signed: bool,
    lo: int,
    hi: int,
) -> (Result<int, LexWarning<Seq<char>>>, int) {
    match read_word(s, i).0 {
        None => (Err(LexWarning::ExpectedToken(what)), read_word(s, i).1),
        Some(t) => match decimal_in(t, signed, lo, hi) {
            Some(v) => (Ok(v), read_word(s, i).1),
            None => (Err(LexWarning::ExpectedToken(bad)), read_word(s, i).1),
        },
    }
}

/// A required file name on the rest of the line: empty, it is `ExpectedToken(what)`.
pub open spec fn spec_file_arg(s: Seq<char>, i: int, what: Seq<char>) -> (
    Result<Seq<char>, LexWarning<Seq<char>>>,
    int,
) {
    if read_rest(s, i).0.len() == 0 {
        (Err(LexWarning::ExpectedToken(what)), read_rest(s, i).1)
    } else {
        (Ok(read_rest(s, i).0), read_rest(s, i).1)
    }
}

/// Applies `f` to what an argument reader gave.
pub open spec fn lift<X>(
    r: (Result<X, LexWarning<Seq<char>>>, int),
    f: spec_fn(X) -> Token<Seq<char>>,
) -> Lexed {
    (
        match r.0 {
            Ok(x) => Ok(f(x)),
            Err(e) => Err(e),
        },
        r.1,
    )
}

/// The outcome of a command whose word, uppercased, is `u` and names a command exactly;
/// `None` for any other word. `b` is where the word ends.
pub open spec fn spec_exact(s: Seq<char>, b: int, u: Seq<char>) -> Option<Lexed> {
    if u == "#PLAYER"@ {
        Some((match read_word(s, b).0 {
            Some(t) => match PlayerMode::spec_from_arg(t) {
                Some(m) => Ok(Token::Player(m)),
                None => Err(LexWarning::ExpectedToken("one of 1, 2 or 3"@)),
            },
            None => Err(LexWarning::ExpectedToken("one of 1, 2 or 3"@)),
        }, read_word(s, b).1))
    } else if u == "#GENRE"@ {
        Some((Ok(Token::Genre(read_rest(s, b).0)), read_rest(s, b).1))
    } else if u == "#TITLE"@ {
        Some((Ok(Token::Title(read_rest(s, b).0)), read_rest(s, b).1))
    } else if u == "#SUBTITLE"@ {
        Some((Ok(Token::SubTitle(read_rest(s, b).0)), read_rest(s, b).1))
    } else if u == "#ARTIST"@ {
        Some((Ok(Token::Artist(read_rest(s, b).0)), read_rest(s, b).1))
    } else if u == "#SUBARTIST"@ {
        Some((Ok(Token::SubArtist(read_rest(s, b).0)), read_rest(s, b).1))
    } else if u == "#DIFFICULTY"@ {
        Some(lift(spec_int_arg(s, b, "difficulty"@, "integer"@, false, 0, 255), |v: int| Token::Difficulty(v as u8)))
    } else if u == "#STAEGFILE"@ {
        Some(lift(spec_file_arg(s, b, "stage filename"@), |t: Seq<char>| Token::StageFile(t)))
    } else if u == "#BANNER"@ {
        Some(lift(spec_file_arg(s, b, "banner filename"@), |t: Seq<char>| Token::Banner(t)))
    } else if u == "#BACKBMP"@ {
        Some(lift(spec_file_arg(s, b, "backbmp filename"@), |t: Seq<char>| Token::BackBmp(t)))
    } else if u == "#TOTAL"@ {
        Some(lift(spec_word_arg(s, b, "gauge increase rate"@), |t: Seq<char>| Token::Total(t)))
    } else if u == "#BPM"@ {
        Some(lift(spec_word_arg(s, b, "bpm"@), |t: Seq<char>| Token::Bpm(t)))
    } else if u == "#PLAYLEVEL"@ {
        Some(lift(spec_int_arg(s, b, "play level"@, "integer"@, false, 0, 255), |v: int| Token::PlayLevel(v as u8)))
    } else if u == "#RANK"@ {
        Some(lift(spec_int_arg(s, b, "one of [0,4]"@, "one of [0,4]"@, true, i64::MIN as int, i64::MAX as int), |v: int| Token::Rank(JudgeLevel::spec_from_int(v as i64))))
    } else if u == "#LNTYPE"@ {
        Some((if read_word(s, b).0 == Some("2"@) {
            Ok(Token::LnTypeMgq)
        } else {
            Ok(Token::LnTypeRdm)
        }, read_word(s, b).1))
    } else if u == "#RANDOM"@ {
        Some(lift(spec_int_arg(s, b, "random max"@, "integer"@, false, 0, 4294967295), |v: int| Token::Random(v as u32)))
    } else if u == "#SETRANDOM"@ {
        Some(lift(spec_int_arg(s, b, "random value"@, "integer"@, false, 0, 4294967295), |v: int| Token::SetRandom(v as u32)))
    } else if u == "#IF"@ {
        Some(lift(spec_int_arg(s, b, "random target"@, "integer"@, false, 0, 4294967295), |v: int| Token::If(v as u32)))
    } else if u == "#ELSEIF"@ {
        Some(lift(spec_int_arg(s, b, "random target"@, "integer"@, false, 0, 4294967295), |v: int| Token::ElseIf(v as u32)))
    } else if u == "#ELSE"@ {
        Some((Ok(Token::Else), b))
    } else if u == "#ENDIF"@ {
        Some((Ok(Token::EndIf), b))
    } else if u == "#ENDRANDOM"@ {
        Some((Ok(Token::EndRandom), b))
    } else if u == "#SWITCH"@ {
        Some(lift(spec_int_arg(s, b, "switch max"@, "integer"@, false, 0, 4294967295), |v: int| Token::Switch(v as u32)))
    } else if u == "#SETSWITCH"@ {
        Some(lift(spec_int_arg(s, b, "switch value"@, "integer"@, false, 0, 4294967295), |v: int| Token::SetSwitch(v as u32)))
    } else if u == "#CASE"@ {
        Some(lift(spec_int_arg(s, b, "switch case value"@, "integer"@, false, 0, 4294967295), |v: int| Token::Case(v as u32)))
    } else if u == "#SKIP"@ {
        Some((Ok(Token::Skip), b))
    } else if u == "#DEF"@ {
        Some((Ok(Token::Def), b))
    } else if u == "#ENDSW"@ {
        Some((Ok(Token::EndSwitch), b))
    } else if u == "#STAGEFILE"@ {
        Some(lift(spec_file_arg(s, b, "splashscreen image filename"@), |t: Seq<char>| Token::StageFile(t)))
    } else if u == "#VOLWAV"@ {
        Some(lift(spec_int_arg(s, b, "volume"@, "integer"@, false, 0, 255), |v: int| Token::VolWav(Volume { relative_percent: v as u8 })))
    } else if u == "#BASE"@ {
        Some((if read_rest(s, b).0 == "62"@ {
            Ok(Token::Base62)
        } else {
            Err(LexWarning::UnknownBase(read_rest(s, b).0))
        }, read_rest(s, b).1))
    } else if u == "#COMMENT"@ {
        Some((Ok(Token::Comment(read_rest(s, b).0)), read_rest(s, b).1))
    } else if u == "#EMAIL"@ || u == "%EMAIL"@ {
        Some((Ok(Token::Email(read_rest(s, b).0)), read_rest(s, b).1))
    } else if u == "#URL"@ || u == "%URL"@ {
        Some((Ok(Token::Url(read_rest(s, b).0)), read_rest(s, b).1))
    } else if u == "#OCT/FP"@ {
        Some((Ok(Token::OctFp), b))
    } else if u == "#OPTION"@ {
        Some((Ok(Token::PlayOption(read_rest(s, b).0)), read_rest(s, b).1))
    } else if u == "#PATH_WAV"@ {
        Some(lift(spec_file_arg(s, b, "wav root path"@), |t: Seq<char>| Token::PathWav(t)))
    } else if u == "#MAKER"@ {
        Some((Ok(Token::Maker(read_rest(s, b).0)), read_rest(s, b).1))
    } else if u == "#MIDIFILE"@ {
        Some(lift(spec_file_arg(s, b, "midi filename"@), |t: Seq<char>| Token::MidiFile(t)))
    } else if u == "#POORBGA"@ {
        Some((match read_word(s, b).0 {
            Some(t) => match PoorMode::spec_from_arg(t) {
                Some(m) => Ok(Token::PoorBga(m)),
                None => Err(LexWarning::ExpectedToken("one of 0, 1 or 2"@)),
            },
            None => Err(LexWarning::ExpectedToken("one of 0, 1 or 2"@)),
        }, read_word(s, b).1))
    } else if u == "#VIDEOFILE"@ || u == "#MOVIE"@ {
        Some(lift(spec_file_arg(s, b, "video filename"@), |t: Seq<char>| Token::VideoFile(t)))
    } else {
        None
    }
}

/// The outcome of a definition `#<prefix><id>` once its arguments gave `r`: the id text `idt`
/// must then be an object id.
pub open spec fn with_id<X>(
    idt: Seq<char>,
    r: (Result<X, LexWarning<Seq<char>>>, int),
    f: spec_fn(ObjId, X) -> Token<Seq<char>>,
) -> Lexed {
    match r.0 {
        Err(e) => (Err(e), r.1),
        Ok(x) => match spec_obj_id(idt) {
            None => (Err(LexWarning::InvalidObjectId(idt)), r.1),
            Some(id) => (Ok(f(id, x)), r.1),
        },
    }
}

/// The parameters of `#EXWAV` from the `k`-th letter of `params` on, each letter reading one
/// integer, with the values read so far.
pub open spec fn spec_exwav_params(
    s: Seq<char>,
    i: int,
    params: Seq<char>,
    k: int,
    pan: Option<ExWavPan>,
    volume: Option<ExWavVolume>,
    frequency: Option<ExWavFrequency>,
) -> (Result<(Option<ExWavPan>, Option<ExWavVolume>, Option<ExWavFrequency>), LexWarning<Seq<char>>>, int)
    decreases params.len() - k,
{
    if k < 0 || k >= params.len() {
        (Ok((pan, volume, frequency)), i)
    } else if params[k] == 'p' {
        let (r, p) = spec_int_arg(s, i, "pan"@, "integer"@, true, i64::MIN as int, i64::MAX as int);
        match r {
            Err(e) => (Err(e), p),
            Ok(v) => if -10000 <= v <= 10000 {
                spec_exwav_params(s, p, params, k + 1, Some(ExWavPan::spec_new(v as i64)), volume, frequency)
            } else {
                (Err(LexWarning::ExpectedToken("pan value out of range [-10000, 10000]"@)), p)
            },
        }
    } else if params[k] == 'v' {
        let (r, p) = spec_int_arg(s, i, "volume"@, "integer"@, true, i64::MIN as int, i64::MAX as int);
        match r {
            Err(e) => (Err(e), p),
            Ok(v) => if -10000 <= v <= 0 {
                spec_exwav_params(s, p, params, k + 1, pan, Some(ExWavVolume::spec_new(v as i64)), frequency)
            } else {
                (Err(LexWarning::ExpectedToken("volume value out of range [-10000, 0]"@)), p)
            },
        }
    } else if params[k] == 'f' {
        let (r, p) = spec_int_arg(s, i, "frequency"@, "integer"@, false, 0, u64::MAX as int);
        match r {
            Err(e) => (Err(e), p),
            Ok(v) => if 100 <= v <= 100000 {
                spec_exwav_params(s, p, params, k + 1, pan, volume, Some(ExWavFrequency::spec_new(v as u64)))
            } else {
                (Err(LexWarning::ExpectedToken("frequency value out of range [100, 100000]"@)), p)
            },
        }
    } else {
        (Err(LexWarning::ExpectedToken("expected p, v or f"@)), i)
    }
}

/// `#EXWAV<id> <order> <values...> <file>`: the order is a string of the letters `p`, `v`, `f`.
pub open spec fn spec_exwav(s: Seq<char>, b: int, idt: Seq<char>) -> Lexed {
    match read_word(s, b).0 {
        None => (Err(LexWarning::ExpectedToken("param1"@)), read_word(s, b).1),
        Some(params) => {
            let (r, p) = spec_exwav_params(s, read_word(s, b).1, params, 0, None, None, None);
            match r {
                Err(e) => (Err(e), p),
                Ok((pan, volume, frequency)) => with_id(
                    idt,
                    spec_file_arg(s, p, "filename"@),
                    |id: ObjId, path: Seq<char>|
                        Token::ExWav {
                            id,
                            pan: match pan {
                                Some(x) => x,
                                None => ExWavPan::spec_new(0),
                            },
                            volume: match volume {
                                Some(x) => x,
                                None => ExWavVolume::spec_new(0),
                            },
                            frequency,
                            path,
                        },
                ),
            }
        },
    }
}

/// The first index at or after `i` of a comma in `t`, or its length.
pub open spec fn find_comma(t: Seq<char>, i: int) -> int
    decreases t.len() - i,
{
    if i < 0 || i >= t.len() {
        if i < 0 { 0 } else { t.len() as int }
    } else if t[i] == ',' {
        i
    } else {
        find_comma(t, i + 1)
    }
}

/// A component of a color: a `u8`, or the error `ExpectedToken(bad)`.
pub open spec fn spec_color_part(t: Seq<char>, bad: Seq<char>) -> Result<u8, LexWarning<Seq<char>>> {
    match decimal_in(t, false, 0, 255) {
        Some(v) => Ok(v as u8),
        None => Err(LexWarning::ExpectedToken(bad)),
    }
}

/// The color that `a,r,g,b` writes: exactly four comma-separated bytes.
pub open spec fn spec_argb(t: Seq<char>) -> Result<Argb, LexWarning<Seq<char>>> {
    let i1 = find_comma(t, 0);
    let i2 = find_comma(t, i1 + 1);
    let i3 = find_comma(t, i2 + 1);
    let i4 = find_comma(t, i3 + 1);
    if !(i1 < t.len() && i2 < t.len() && i3 < t.len() && i4 == t.len()) {
        Err(LexWarning::ExpectedToken("expected 4 comma-separated values"@))
    } else {
        match spec_color_part(t.subrange(0, i1), "invalid alpha value"@) {
            Err(e) => Err(e),
            Ok(alpha) => match spec_color_part(t.subrange(i1 + 1, i2), "invalid red value"@) {
                Err(e) => Err(e),
                Ok(red) => match spec_color_part(t.subrange(i2 + 1, i3), "invalid green value"@) {
                    Err(e) => Err(e),
                    Ok(green) => match spec_color_part(t.subrange(i3 + 1, i4), "invalid blue value"@) {
                        Err(e) => Err(e),
                        Ok(blue) => Ok(Argb { alpha, red, green, blue }),
                    },
                },
            },
        }
    }
}

/// `#EXBMP<id> <a,r,g,b> <file>`.
pub open spec fn spec_exbmp(s: Seq<char>, b: int, idt: Seq<char>) -> Lexed {
    match read_word(s, b).0 {
        None => (Err(LexWarning::ExpectedToken("argb"@)), read_word(s, b).1),
        Some(argb) => {
            let p = read_word(s, b).1;
            match read_word(s, p).0 {
                None => (Err(LexWarning::ExpectedToken("filename"@)), read_word(s, p).1),
                Some(file) => with_id(
                    idt,
                    (spec_argb(argb), read_word(s, p).1),
                    |id: ObjId, color: Argb| Token::ExBmp(id, color, file),
                ),
            }
        },
    }
}

/// One number of the geometry of `#BGA` and `#@BGA`: an `u16` when `size`, else an `i16`.
pub open spec fn spec_geo_arg(s: Seq<char>, i: int, what: Seq<char>, size: bool) -> (
    Result<int, LexWarning<Seq<char>>>,
    int,
) {
    if size {
        spec_int_arg(s, i, what, "integer"@, false, 0, 65535)
    } else {
        spec_int_arg(s, i, what, "integer"@, true, -32768, 32767)
    }
}

/// The source image and the six numbers of `#BGA` (`at` false) or `#@BGA` (`at` true).
pub open spec fn spec_geometry(s: Seq<char>, b: int, at: bool) -> (
    Result<(Seq<char>, Seq<int>), LexWarning<Seq<char>>>,
    int,
) {
    match read_word(s, b).0 {
        None => (Err(LexWarning::ExpectedToken("source bmp"@)), read_word(s, b).1),
        Some(src) => {
            let (r1, p1) = spec_geo_arg(s, read_word(s, b).1, if at { "sx"@ } else { "x1"@ }, false);
            match r1 {
                Err(e) => (Err(e), p1),
                Ok(v1) => {
                    let (r2, p2) = spec_geo_arg(s, p1, if at { "sy"@ } else { "y1"@ }, false);
                    match r2 {
                        Err(e) => (Err(e), p2),
                        Ok(v2) => {
                            let (r3, p3) = spec_geo_arg(s, p2, if at { "w"@ } else { "x2"@ }, at);
                            match r3 {
                                Err(e) => (Err(e), p3),
                                Ok(v3) => {
                                    let (r4, p4) = spec_geo_arg(s, p3, if at { "h"@ } else { "y2"@ }, at);
                                    match r4 {
                                        Err(e) => (Err(e), p4),
                                        Ok(v4) => {
                                            let (r5, p5) = spec_geo_arg(s, p4, "dx"@, false);
                                            match r5 {
                                                Err(e) => (Err(e), p5),
                                                Ok(v5) => {
                                                    let (r6, p6) = spec_geo_arg(s, p5, "dy"@, false);
                                                    match r6 {
                                                        Err(e) => (Err(e), p6),
                                                        Ok(v6) => (Ok((src, seq![v1, v2, v3, v4, v5, v6])), p6),
                                                    }
                                                },
                                            }
                                        },
                                    }
                                },
                            }
                        },
                    }
                },
            }
        },
    }
}

/// `#BGA<id> <src> <x1> <y1> <x2> <y2> <dx> <dy>` (`at` false) or
/// `#@BGA<id> <src> <sx> <sy> <w> <h> <dx> <dy>` (`at` true).
pub open spec fn spec_bga(s: Seq<char>, b: int, idt: Seq<char>, at: bool) -> Lexed {
    let (r, p) = spec_geometry(s, b, at);
    match r {
        Err(e) => (Err(e), p),
        Ok((src, v)) => match spec_obj_id(idt) {
            None => (Err(LexWarning::InvalidObjectId(idt)), p),
            Some(id) => match spec_obj_id(src) {
                None => (Err(LexWarning::InvalidObjectId(src)), p),
                Some(source_bmp) => (Ok(if at {
                    Token::AtBga {
                        id,
                        source_bmp,
                        trim_top_left: PixelPoint { x: v[0] as i16, y: v[1] as i16 },
                        trim_size: PixelSize { width: v[2] as u16, height: v[3] as u16 },
                        draw_point: PixelPoint { x: v[4] as i16, y: v[5] as i16 },
                    }
                } else {
                    Token::Bga {
                        id,
                        source_bmp,
                        trim_top_left: PixelPoint { x: v[0] as i16, y: v[1] as i16 },
                        trim_bottom_right: PixelPoint { x: v[2] as i16, y: v[3] as i16 },
                        draw_point: PixelPoint { x: v[4] as i16, y: v[5] as i16 },
                    }
                }), p),
            },
        },
    }
}

/// Whether the word has the shape of a message line `#XXXYY:...`.
pub open spec fn is_message_like(m: Seq<char>) -> bool {
    m.len() >= 8 && m[0] == '#' && m[6] == ':'
}

/// The track, channel and body of a message line `#XXXYY:BODY`.
pub open spec fn spec_message_parts(m: Seq<char>, layout: KeyLayout) -> Result<
    (Track, crate::channel::Channel, Seq<char>),
    LexWarning<Seq<char>>,
> {
    match decimal_in(m.subrange(1, 4), false, 0, u32::MAX as int) {
        None => Err(LexWarning::ExpectedToken("[000-999]"@)),
        Some(track) => match spec_read_channel(layout, m.subrange(4, 6)) {
            None => Err(LexWarning::UnknownChannel(m.subrange(4, 6))),
            Some(channel) => Ok((Track(track as u32), channel, m.subrange(7, m.len() as int))),
        },
    }
}

/// `#EXT #XXXYY:...`.
pub open spec fn spec_ext(s: Seq<char>, b: int, layout: KeyLayout) -> Lexed {
    match read_word(s, b).0 {
        None => (Err(LexWarning::ExpectedToken("message definition"@)), read_word(s, b).1),
        Some(m) => if !is_message_like(m) {
            (Err(LexWarning::UnknownExtendedMessage(m)), read_word(s, b).1)
        } else {
            match spec_message_parts(m, layout) {
                Err(e) => (Err(e), read_word(s, b).1),
                Ok((track, channel, message)) => (
                    Ok(Token::ExtendedMessage { track, channel, message }),
                    read_word(s, b).1,
                ),
            }
        },
    }
}

/// The id text of a word whose uppercase starts with `lit`: what follows the first
/// `lit.len()` characters (nothing if the word is shorter).
pub open spec fn id_text(w: Seq<char>, lit: Seq<char>) -> Seq<char> {
    if lit.len() <= w.len() {
        w.subrange(lit.len() as int, w.len() as int)
    } else {
        w.subrange(w.len() as int, w.len() as int)
    }
}

/// The outcome of a command word `s[a..b]` that names no command exactly.
pub open spec fn spec_prefixed(s: Seq<char>, a: int, b: int, layout: KeyLayout) -> Lexed {
    let w = s.subrange(a, b);
    let u = uppercase(w);
    if has_prefix(u, "#WAV"@) {
        with_id(
            id_text(w, "#WAV"@),
            spec_file_arg(s, b, "key audio filename"@),
            |id: ObjId, t: Seq<char>| Token::Wav(id, t),
        )
    } else if has_prefix(u, "#BMP"@) {
        let (r, p) = spec_file_arg(s, b, "key audio filename"@);
        match r {
            Err(e) => (Err(e), p),
            Ok(t) => if id_text(w, "#BMP"@) == "00"@ {
                (Ok(Token::Bmp(None, t)), p)
            } else {
                with_id(id_text(w, "#BMP"@), (r, p), |id: ObjId, t: Seq<char>| Token::Bmp(Some(id), t))
            },
        }
    } else if has_prefix(u, "#BPM"@) {
        with_id(
            id_text(w, "#BPM"@),
            spec_word_arg(s, b, "bpm"@),
            |id: ObjId, t: Seq<char>| Token::BpmChange(id, t),
        )
    } else if has_prefix(u, "#STOP"@) {
        with_id(
            id_text(w, "#STOP"@),
            spec_int_arg(s, b, "stop beats"@, "integer"@, false, 0, u32::MAX as int),
            |id: ObjId, v: int| Token::Stop(id, v as u32),
        )
    } else if has_prefix(u, "#SCROLL"@) {
        with_id(
            id_text(w, "#SCROLL"@),
            spec_word_arg(s, b, "scroll factor"@),
            |id: ObjId, t: Seq<char>| Token::Scroll(id, t),
        )
    } else if has_prefix(u, "#SPEED"@) {
        with_id(
            id_text(w, "#SPEED"@),
            spec_word_arg(s, b, "spacing factor"@),
            |id: ObjId, t: Seq<char>| Token::Speed(id, t),
        )
    } else if has_prefix(u, "#EXBMP"@) {
        spec_exbmp(s, b, id_text(w, "#EXBMP"@))
    } else if has_prefix(u, "#EXRANK"@) {
        with_id(
            id_text(w, "#EXRANK"@),
            spec_int_arg(s, b, "one of [0,4]"@, "one of [0,4]"@, true, i64::MIN as int, i64::MAX as int),
            |id: ObjId, v: int| Token::ExRank(id, JudgeLevel::spec_from_int(v as i64)),
        )
    } else if has_prefix(u, "#EXWAV"@) {
        spec_exwav(s, b, id_text(w, "#EXWAV"@))
    } else if has_prefix(u, "#TEXT"@) {
        with_id(
            id_text(w, "#TEXT"@),
            (Ok(read_rest(s, b).0), read_rest(s, b).1),
            |id: ObjId, t: Seq<char>| Token::Text(id, t),
        )
    } else if has_prefix(u, "#@BGA"@) {
        spec_bga(s, b, id_text(w, "#@BGA"@), true)
    } else if has_prefix(u, "#BGA"@) && !has_prefix(u, "#BGAPOOR"@) {
        spec_bga(s, b, id_text(w, "#BGA"@), false)
    } else if has_prefix(u, "#CHANGEOPTION"@) {
        with_id(
            id_text(w, "#CHANGEOPTION"@),
            (Ok(read_rest(s, b).0), read_rest(s, b).1),
            |id: ObjId, t: Seq<char>| Token::ChangeOption(id, t),
        )
    } else if has_prefix(u, "#LNOBJ"@) {
        with_id(id_text(w, "#LNOBJ"@), (Ok(0int), b), |id: ObjId, x: int| Token::LnObj(id))
    } else if has_prefix(u, "#EXT"@) {
        spec_ext(s, b, layout)
    } else if is_message_like(w) {
        match spec_message_parts(w, layout) {
            Err(e) => (Err(e), b),
            Ok((track, channel, message)) => (Ok(Token::Message { track, channel, message }), b),
        }
    } else {
        let line = s.subrange(a, crate::cursor::trim_end_index(s, a, crate::cursor::line_end(s, b)));
        (
            Ok(if w.len() > 0 && w[0] == '#' {
                Token::UnknownCommand(line)
            } else {
                Token::NotACommand(line)
            }),
            next_line_start(s, b),
        )
    }
}

/// The outcome of the command whose word is `s[a..b]`.
#[verifier::opaque]
pub open spec fn spec_command(s: Seq<char>, a: int, b: int, layout: KeyLayout) -> Lexed {
    match spec_exact(s, b, uppercase(s.subrange(a, b))) {
        Some(o) => o,
        None => spec_prefixed(s, a, b, layout),
    }
}

/// The cursor `c1` reads the same text as `c0`, is well formed, and has not moved back.
pub open spec fn advanced<'a>(c0: Cursor<'a>, c1: Cursor<'a>) -> bool {
    &&& c1.wf()
    &&& c1.text() == c0.text()
    &&& c1.source() == c0.source()
    &&& c0.pos() <= c1.pos()
}

/// Whether `u` is the text of `lit`.
fn eq_lit(u: &Vec<char>, lit: &str) -> (r: bool)
    ensures
        r == (u@ == lit@),
{
    let n = lit.unicode_len();
    if u.len() != n {
        return false;
    }
    let mut i: usize = 0;
    while i < n
        invariant
            n == lit@.len(),
            n == u@.len(),
            i <= n,
            u@.subrange(0, i as int) == lit@.subrange(0, i as int),
        decreases n - i,
    {
        if u[i] != lit.get_char(i) {
            return false;
        }
        i += 1;
        assert(u@.subrange(0, i as int) =~= lit@.subrange(0, i as int)) by {
            assert(u@.subrange(0, i as int) =~= u@.subrange(0, i - 1).push(u@[i - 1]));
            assert(lit@.subrange(0, i as int) =~= lit@.subrange(0, i - 1).push(lit@[i - 1]));
        }
    }
    assert(u@ =~= u@.subrange(0, n as int));
    assert(lit@ =~= lit@.subrange(0, n as int));
    true
}

/// Whether `lit` is a prefix of `u`.
fn starts_lit(u: &Vec<char>, lit: &str) -> (r: bool)
    ensures
        r == has_prefix(u@, lit@),
{
    let n = lit.unicode_len();
    if u.len() < n {
        return false;
    }
    let mut i: usize = 0;
    while i < n
        invariant
            n == lit@.len(),
            n <= u@.len(),
            i <= n,
            u@.subrange(0, i as int) == lit@.subrange(0, i as int),
        decreases n - i,
    {
        if u[i] != lit.get_char(i) {
            assert(u@.subrange(0, n as int)[i as int] != lit@[i as int]);
            return false;
        }
        i += 1;
        assert(u@.subrange(0, i as int) =~= lit@.subrange(0, i as int)) by {
            assert(u@.subrange(0, i as int) =~= u@.subrange(0, i - 1).push(u@[i - 1]));
            assert(lit@.subrange(0, i as int) =~= lit@.subrange(0, i - 1).push(lit@[i - 1]));
        }
    }
    assert(lit@ =~= lit@.subrange(0, n as int));
    true
}

/// Whether the text of `a` is the text of `lit`.
fn eq_str(a: &str, lit: &str) -> (r: bool)
    ensures
        r == (a@ == lit@),
{
    let v = crate::cursor::chars_of(a);
    eq_lit(&v, lit)
}

/// Reads a required word argument.
fn word_arg<'a>(c: &mut Cursor<'a>, what: &'a str) -> (r: Result<&'a str, LexWarning<&'a str>>)
    requires
        old(c).wf(),
    ensures
        advanced(*old(c), *final(c)),
        (match r {
            Ok(t) => Ok(t@),
            Err(e) => Err(e@),
        }, final(c).pos()) == spec_word_arg(old(c).text(), old(c).pos(), what@),
{
    match c.next_token() {
        Some(t) => Ok(t),
        None => Err(LexWarning::ExpectedToken(what)),
    }
}

/// Reads a required integer argument in `[lo, hi]`.
fn int_arg<'a>(
    c: &mut Cursor<'a>,
    what: &'a str,
    bad: &'a str,
    signed: bool,
    lo: i64,
    hi: u64,
) -> (r: Result<i128, LexWarning<&'a str>>)
    requires
        old(c).wf(),
        lo <= 0,
        !signed ==> lo == 0,
        signed ==> hi <= i64::MAX,
    ensures
        advanced(*old(c), *final(c)),
        (match r {
            Ok(v) => Ok(v as int),
            Err(e) => Err(e@),
        }, final(c).pos()) == spec_int_arg(
            old(c).text(),
            old(c).pos(),
            what@,
            bad@,
            signed,
            lo as int,
            hi as int,
        ),
{
    let t = match c.next_token() {
        Some(t) => t,
        None => return Err(LexWarning::ExpectedToken(what)),
    };
    if signed {
        match parse_i64(t) {
            Some(v) => {
                if lo <= v && v as i128 <= hi as i128 {
                    Ok(v as i128)
                } else {
                    Err(LexWarning::ExpectedToken(bad))
                }
            },
            None => Err(LexWarning::ExpectedToken(bad)),
        }
    } else {
        match parse_u64(t) {
            Some(v) => {
                if v <= hi {
                    Ok(v as i128)
                } else {
                    Err(LexWarning::ExpectedToken(bad))
                }
            },
            None => Err(LexWarning::ExpectedToken(bad)),
        }
    }
}

/// Reads a required file name from the rest of the line.
fn file_arg<'a>(c: &mut Cursor<'a>, what: &'a str) -> (r: Result<&'a str, LexWarning<&'a str>>)
    requires
        old(c).wf(),
    ensures
        advanced(*old(c), *final(c)),
        (match r {
            Ok(t) => Ok(t@),
            Err(e) => Err(e@),
        }, final(c).pos()) == spec_file_arg(old(c).text(), old(c).pos(), what@),
{
    let t = c.next_line_remaining();
    if t.unicode_len() == 0 {
        Err(LexWarning::ExpectedToken(what))
    } else {
        Ok(t)
    }
}

/// Lexes a command whose word, uppercased, is `u` and names a command exactly.
fn lex_exact<'a>(c: &mut Cursor<'a>, u: &Vec<char>) -> (r: Option<
    Result<Token<&'a str>, LexWarning<&'a str>>,
>)
    requires
        old(c).wf(),
    ensures
        advanced(*old(c), *final(c)),
        match spec_exact(old(c).text(), old(c).pos(), u@) {
            None => r.is_none() && *final(c) == *old(c),
            Some((o, p)) => r.is_some() && outcome_view(r.unwrap()) == o && final(c).pos() == p,
        },
{
    let ghost s = c.text();
    let ghost b = c.pos();
    if eq_lit(u, "#PLAYER") {
        Some(match c.next_token() {
            Some(t) => match PlayerMode::from_arg(t) {
                Some(m) => Ok(Token::Player(m)),
                None => Err(LexWarning::ExpectedToken("one of 1, 2 or 3")),
            },
            None => Err(LexWarning::ExpectedToken("one of 1, 2 or 3")),
        })
    } else if eq_lit(u, "#GENRE") {
        Some(Ok(Token::Genre(c.next_line_remaining())))
    } else if eq_lit(u, "#TITLE") {
        Some(Ok(Token::Title(c.next_line_remaining())))
    } else if eq_lit(u, "#SUBTITLE") {
        Some(Ok(Token::SubTitle(c.next_line_remaining())))
    } else if eq_lit(u, "#ARTIST") {
        Some(Ok(Token::Artist(c.next_line_remaining())))
    } else if eq_lit(u, "#SUBARTIST") {
        Some(Ok(Token::SubArtist(c.next_line_remaining())))
    } else if eq_lit(u, "#DIFFICULTY") {
        Some(match int_arg(c, "difficulty", "integer", false, 0, 255) {
            Ok(v) => Ok(Token::Difficulty(v as u8)),
            Err(e) => Err(e),
        })
    } else if eq_lit(u, "#STAEGFILE") {
        Some(match file_arg(c, "stage filename") {
            Ok(t) => Ok(Token::StageFile(t)),
            Err(e) => Err(e),
        })
    } else if eq_lit(u, "#BANNER") {
        Some(match file_arg(c, "banner filename") {
            Ok(t) => Ok(Token::Banner(t)),
            Err(e) => Err(e),
        })
    } else if eq_lit(u, "#BACKBMP") {
        Some(match file_arg(c, "backbmp filename") {
            Ok(t) => Ok(Token::BackBmp(t)),
            Err(e) => Err(e),
        })
    } else if eq_lit(u, "#TOTAL") {
        Some(match word_arg(c, "gauge increase rate") {
            Ok(t) => Ok(Token::Total(t)),
            Err(e) => Err(e),
        })
    } else if eq_lit(u, "#BPM") {
        Some(match word_arg(c, "bpm") {
            Ok(t) => Ok(Token::Bpm(t)),
            Err(e) => Err(e),
        })
    } else if eq_lit(u, "#PLAYLEVEL") {
        Some(match int_arg(c, "play level", "integer", false, 0, 255) {
            Ok(v) => Ok(Token::PlayLevel(v as u8)),
            Err(e) => Err(e),
        })
    } else if eq_lit(u, "#RANK") {
        Some(match int_arg(c, "one of [0,4]", "one of [0,4]", true, i64::MIN, i64::MAX as u64) {
            Ok(v) => Ok(Token::Rank(JudgeLevel::from_int(v as i64))),
            Err(e) => Err(e),
        })
    } else if eq_lit(u, "#LNTYPE") {
        Some(match c.next_token() {
            Some(t) => if eq_str(t, "2") {
                Ok(Token::LnTypeMgq)
            } else {
                Ok(Token::LnTypeRdm)
            },
            None => Ok(Token::LnTypeRdm),
        })
    } else if eq_lit(u, "#RANDOM") {
        Some(match int_arg(c, "random max", "integer", false, 0, 4294967295) {
            Ok(v) => Ok(Token::Random(v as u32)),
            Err(e) => Err(e),
        })
    } else if eq_lit(u, "#SETRANDOM") {
        Some(match int_arg(c, "random value", "integer", false, 0, 4294967295) {
            Ok(v) => Ok(Token::SetRandom(v as u32)),
            Err(e) => Err(e),
        })
    } else if eq_lit(u, "#IF") {
        Some(match int_arg(c, "random target", "integer", false, 0, 4294967295) {
            Ok(v) => Ok(Token::If(v as u32)),
            Err(e) => Err(e),
        })
    } else if eq_lit(u, "#ELSEIF") {
        Some(match int_arg(c, "random target", "integer", false, 0, 4294967295) {
            Ok(v) => Ok(Token::ElseIf(v as u32)),
            Err(e) => Err(e),
        })
    } else if eq_lit(u, "#ELSE") {
        Some(Ok(Token::Else))
    } else if eq_lit(u, "#ENDIF") {
        Some(Ok(Token::EndIf))
    } else if eq_lit(u, "#ENDRANDOM") {
        Some(Ok(Token::EndRandom))
    } else if eq_lit(u, "#SWITCH") {
        Some(match int_arg(c, "switch max", "integer", false, 0, 4294967295) {
            Ok(v) => Ok(Token::Switch(v as u32)),
            Err(e) => Err(e),
        })
    } else if eq_lit(u, "#SETSWITCH") {
        Some(match int_arg(c, "switch value", "integer", false, 0, 4294967295) {
            Ok(v) => Ok(Token::SetSwitch(v as u32)),
            Err(e) => Err(e),
        })
    } else if eq_lit(u, "#CASE") {
        Some(match int_arg(c, "switch case value", "integer", false, 0, 4294967295) {
            Ok(v) => Ok(Token::Case(v as u32)),
            Err(e) => Err(e),
        })
    } else if eq_lit(u, "#SKIP") {
        Some(Ok(Token::Skip))
    } else if eq_lit(u, "#DEF") {
        Some(Ok(Token::Def))
    } else if eq_lit(u, "#ENDSW") {
        Some(Ok(Token::EndSwitch))
    } else if eq_lit(u, "#STAGEFILE") {
        Some(match file_arg(c, "splashscreen image filename") {
            Ok(t) => Ok(Token::StageFile(t)),
            Err(e) => Err(e),
        })
    } else if eq_lit(u, "#VOLWAV") {
        Some(match int_arg(c, "volume", "integer", false, 0, 255) {
            Ok(v) => Ok(Token::VolWav(Volume { relative_percent: v as u8 })),
            Err(e) => Err(e),
        })
    } else if eq_lit(u, "#BASE") {
        let t = c.next_line_remaining();
        Some(if eq_str(t, "62") {
            Ok(Token::Base62)
        } else {
            Err(LexWarning::UnknownBase(t))
        })
    } else if eq_lit(u, "#COMMENT") {
        Some(Ok(Token::Comment(c.next_line_remaining())))
    } else if eq_lit(u, "#EMAIL") || eq_lit(u, "%EMAIL") {
        Some(Ok(Token::Email(c.next_line_remaining())))
    } else if eq_lit(u, "#URL") || eq_lit(u, "%URL") {
        Some(Ok(Token::Url(c.next_line_remaining())))
    } else if eq_lit(u, "#OCT/FP") {
        Some(Ok(Token::OctFp))
    } else if eq_lit(u, "#OPTION") {
        Some(Ok(Token::PlayOption(c.next_line_remaining())))
    } else if eq_lit(u, "#PATH_WAV") {
        Some(match file_arg(c, "wav root path") {
            Ok(t) => Ok(Token::PathWav(t)),
            Err(e) => Err(e),
        })
    } else if eq_lit(u, "#MAKER") {
        Some(Ok(Token::Maker(c.next_line_remaining())))
    } else if eq_lit(u, "#MIDIFILE") {
        Some(match file_arg(c, "midi filename") {
            Ok(t) => Ok(Token::MidiFile(t)),
            Err(e) => Err(e),
        })
    } else if eq_lit(u, "#POORBGA") {
        Some(match c.next_token() {
            Some(t) => match PoorMode::from_arg(t) {
                Some(m) => Ok(Token::PoorBga(m)),
                None => Err(LexWarning::ExpectedToken("one of 0, 1 or 2")),
            },
            None => Err(LexWarning::ExpectedToken("one of 0, 1 or 2")),
        })
    } else if eq_lit(u, "#VIDEOFILE") || eq_lit(u, "#MOVIE") {
        Some(match file_arg(c, "video filename") {
            Ok(t) => Ok(Token::VideoFile(t)),
            Err(e) => Err(e),
        })
    } else {
        None
    }
}

/// Reads the object id that `idt` writes.
fn obj_id_of<'a>(idt: &'a str) -> (r: Result<ObjId, LexWarning<&'a str>>)
    ensures
        match spec_obj_id(idt@) {
            None => r.is_err() && r.unwrap_err()@ == LexWarning::InvalidObjectId(idt@),
            Some(id) => r == Ok::<ObjId, LexWarning<&'a str>>(id),
        },
{
    match ObjId::try_from_str(idt) {
        Some(id) => Ok(id),
        None => Err(LexWarning::InvalidObjectId(idt)),
    }
}

/// Reads the parameters of `#EXWAV` in the order that `params` gives.
fn exwav_params<'a>(c: &mut Cursor<'a>, params: &'a str) -> (r: Result<
    (Option<ExWavPan>, Option<ExWavVolume>, Option<ExWavFrequency>),
    LexWarning<&'a str>,
>)
    requires
        old(c).wf(),
    ensures
        advanced(*old(c), *final(c)),
        (match r {
            Ok(x) => Ok(x),
            Err(e) => Err(e@),
        }, final(c).pos()) == spec_exwav_params(
            old(c).text(),
            old(c).pos(),
            params@,
            0,
            None,
            None,
            None,
        ),
{
    let ghost c0 = *c;
    let letters = crate::cursor::chars_of(params);
    let mut pan: Option<ExWavPan> = None;
    let mut volume: Option<ExWavVolume> = None;
    let mut frequency: Option<ExWavFrequency> = None;
    let mut k: usize = 0;
    while k < letters.len()
        invariant
            c0 == *old(c),
            advanced(c0, *c),
            letters@ == params@,
            k <= letters@.len(),
            spec_exwav_params(c0.text(), c0.pos(), params@, 0, None, None, None)
                == spec_exwav_params(c.text(), c.pos(), params@, k as int, pan, volume, frequency),
        decreases letters@.len() - k,
    {
        let l = letters[k];
        if l == 'p' {
            let v = match int_arg(c, "pan", "integer", true, i64::MIN, i64::MAX as u64) {
                Ok(v) => v,
                Err(e) => return Err(e),
            };
            match ExWavPan::new(v as i64) {
                Some(x) => pan = Some(x),
                None => return Err(LexWarning::ExpectedToken("pan value out of range [-10000, 10000]")),
            }
        } else if l == 'v' {
            let v = match int_arg(c, "volume", "integer", true, i64::MIN, i64::MAX as u64) {
                Ok(v) => v,
                Err(e) => return Err(e),
            };
            match ExWavVolume::new(v as i64) {
                Some(x) => volume = Some(x),
                None => return Err(LexWarning::ExpectedToken("volume value out of range [-10000, 0]")),
            }
        } else if l == 'f' {
            let v = match int_arg(c, "frequency", "integer", false, 0, u64::MAX) {
                Ok(v) => v,
                Err(e) => return Err(e),
            };
            match ExWavFrequency::new(v as u64) {
                Some(x) => frequency = Some(x),
                None => return Err(
                    LexWarning::ExpectedToken("frequency value out of range [100, 100000]"),
                ),
            }
        } else {
            return Err(LexWarning::ExpectedToken("expected p, v or f"));
        }
        k += 1;
    }
    Ok((pan, volume, frequency))
}

/// Lexes the arguments of `#EXWAV<idt>`.
fn lex_exwav<'a>(c: &mut Cursor<'a>, idt: &'a str) -> (r: Result<Token<&'a str>, LexWarning<&'a str>>)
    requires
        old(c).wf(),
    ensures
        advanced(*old(c), *final(c)),
        (outcome_view(r), final(c).pos()) == spec_exwav(old(c).text(), old(c).pos(), idt@),
{
    let params = match c.next_token() {
        Some(t) => t,
        None => return Err(LexWarning::ExpectedToken("param1")),
    };
    let (pan, volume, frequency) = match exwav_params(c, params) {
        Ok(x) => x,
        Err(e) => return Err(e),
    };
    let path = match file_arg(c, "filename") {
        Ok(t) => t,
        Err(e) => return Err(e),
    };
    let id = match obj_id_of(idt) {
        Ok(id) => id,
        Err(e) => return Err(e),
    };
    let pan = match pan {
        Some(x) => x,
        None => ExWavPan::default(),
    };
    let volume = match volume {
        Some(x) => x,
        None => ExWavVolume::default(),
    };
    Ok(Token::ExWav { id, pan, volume, frequency, path })
}

/// The index of the first comma at or after `i` in `t`, or its length.
fn find_comma_from(t: &Vec<char>, i: usize) -> (r: usize)
    requires
        i <= t@.len(),
    ensures
        r == find_comma(t@, i as int),
        i <= r <= t@.len(),
{
    let mut j: usize = i;
    while j < t.len() && t[j] != ','
        invariant
            i <= j <= t@.len(),
            find_comma(t@, i as int) == find_comma(t@, j as int),
        decreases t@.len() - j,
    {
        j += 1;
    }
    j
}

/// Reads one component of a color.
fn color_part<'a>(t: &str, bad: &'a str) -> (r: Result<u8, LexWarning<&'a str>>)
    ensures
        match r {
            Ok(v) => Ok(v),
            Err(e) => Err(e@),
        } == spec_color_part(t@, bad@),
{
    match parse_u64(t) {
        Some(v) => if v <= 255 {
            Ok(v as u8)
        } else {
            Err(LexWarning::ExpectedToken(bad))
        },
        None => Err(LexWarning::ExpectedToken(bad)),
    }
}

/// Reads the color `a,r,g,b`.
fn argb_of<'a>(t: &'a str) -> (r: Result<Argb, LexWarning<&'a str>>)
    ensures
        match r {
            Ok(v) => Ok(v),
            Err(e) => Err(e@),
        } == spec_argb(t@),
{
    let v = crate::cursor::chars_of(t);
    let n = v.len();
    let i1 = find_comma_from(&v, 0);
    if i1 >= n {
        return Err(LexWarning::ExpectedToken("expected 4 comma-separated values"));
    }
    let i2 = find_comma_from(&v, i1 + 1);
    if i2 >= n {
        return Err(LexWarning::ExpectedToken("expected 4 comma-separated values"));
    }
    let i3 = find_comma_from(&v, i2 + 1);
    if i3 >= n {
        return Err(LexWarning::ExpectedToken("expected 4 comma-separated values"));
    }
    let i4 = find_comma_from(&v, i3 + 1);
    if i4 != n {
        return Err(LexWarning::ExpectedToken("expected 4 comma-separated values"));
    }
    let alpha = match color_part(t.substring_char(0, i1), "invalid alpha value") {
        Ok(x) => x,
        Err(e) => return Err(e),
    };
    let red = match color_part(t.substring_char(i1 + 1, i2), "invalid red value") {
        Ok(x) => x,
        Err(e) => return Err(e),
    };
    let green = match color_part(t.substring_char(i2 + 1, i3), "invalid green value") {
        Ok(x) => x,
        Err(e) => return Err(e),
    };
    let blue = match color_part(t.substring_char(i3 + 1, i4), "invalid blue value") {
        Ok(x) => x,
        Err(e) => return Err(e),
    };
    Ok(Argb { alpha, red, green, blue })
}

/// Lexes the arguments of `#EXBMP<idt>`.
fn lex_exbmp<'a>(c: &mut Cursor<'a>, idt: &'a str) -> (r: Result<Token<&'a str>, LexWarning<&'a str>>)
    requires
        old(c).wf(),
    ensures
        advanced(*old(c), *final(c)),
        (outcome_view(r), final(c).pos()) == spec_exbmp(old(c).text(), old(c).pos(), idt@),
{
    let argb = match c.next_token() {
        Some(t) => t,
        None => return Err(LexWarning::ExpectedToken("argb")),
    };
    let file = match c.next_token() {
        Some(t) => t,
        None => return Err(LexWarning::ExpectedToken("filename")),
    };
    let color = match argb_of(argb) {
        Ok(x) => x,
        Err(e) => return Err(e),
    };
    let id = match obj_id_of(idt) {
        Ok(id) => id,
        Err(e) => return Err(e),
    };
    Ok(Token::ExBmp(id, color, file))
}

/// Reads one number of a geometry.
fn geo_arg<'a>(c: &mut Cursor<'a>, what: &'a str, size: bool) -> (r: Result<i128, LexWarning<&'a str>>)
    requires
        old(c).wf(),
    ensures
        advanced(*old(c), *final(c)),
        (match r {
            Ok(v) => Ok(v as int),
            Err(e) => Err(e@),
        }, final(c).pos()) == spec_geo_arg(old(c).text(), old(c).pos(), what@, size),
        r.is_ok() && size ==> 0 <= r.unwrap() <= 65535,
        r.is_ok() && !size ==> -32768 <= r.unwrap() <= 32767,
{
    if size {
        int_arg(c, what, "integer", false, 0, 65535)
    } else {
        int_arg(c, what, "integer", true, -32768, 32767)
    }
}

/// Lexes the arguments of `#BGA<idt>` or `#@BGA<idt>`.
fn lex_bga<'a>(c: &mut Cursor<'a>, idt: &'a str, at: bool) -> (r: Result<
    Token<&'a str>,
    LexWarning<&'a str>,
>)
    requires
        old(c).wf(),
    ensures
        advanced(*old(c), *final(c)),
        (outcome_view(r), final(c).pos()) == spec_bga(old(c).text(), old(c).pos(), idt@, at),
{
    let src = match c.next_token() {
        Some(t) => t,
        None => return Err(LexWarning::ExpectedToken("source bmp")),
    };
    let v1 = match geo_arg(c, if at { "sx" } else { "x1" }, false) {
        Ok(v) => v,
        Err(e) => return Err(e),
    };
    let v2 = match geo_arg(c, if at { "sy" } else { "y1" }, false) {
        Ok(v) => v,
        Err(e) => return Err(e),
    };
    let v3 = match geo_arg(c, if at { "w" } else { "x2" }, at) {
        Ok(v) => v,
        Err(e) => return Err(e),
    };
    let v4 = match geo_arg(c, if at { "h" } else { "y2" }, at) {
        Ok(v) => v,
        Err(e) => return Err(e),
    };
    let v5 = match geo_arg(c, "dx", false) {
        Ok(v) => v,
        Err(e) => return Err(e),
    };
    let v6 = match geo_arg(c, "dy", false) {
        Ok(v) => v,
        Err(e) => return Err(e),
    };
    let ghost vs = seq![v1 as int, v2 as int, v3 as int, v4 as int, v5 as int, v6 as int];
    let id = match obj_id_of(idt) {
        Ok(id) => id,
        Err(e) => return Err(e),
    };
    let source_bmp = match obj_id_of(src) {
        Ok(id) => id,
        Err(e) => return Err(e),
    };
    if at {
        Ok(Token::AtBga {
            id,
            source_bmp,
            trim_top_left: PixelPoint { x: v1 as i16, y: v2 as i16 },
            trim_size: PixelSize { width: v3 as u16, height: v4 as u16 },
            draw_point: PixelPoint { x: v5 as i16, y: v6 as i16 },
        })
    } else {
        Ok(Token::Bga {
            id,
            source_bmp,
            trim_top_left: PixelPoint { x: v1 as i16, y: v2 as i16 },
            trim_bottom_right: PixelPoint { x: v3 as i16, y: v4 as i16 },
            draw_point: PixelPoint { x: v5 as i16, y: v6 as i16 },
        })
    }
}

/// Whether the word has the shape of a message line.
fn message_like(m: &Vec<char>) -> (r: bool)
    ensures
        r == is_message_like(m@),
{
    m.len() >= 8 && m[0] == '#' && m[6] == ':'
}

/// Reads the track, channel and body of a message line.
fn message_parts<'a>(m: &'a str, layout: KeyLayout) -> (r: Result<
    (Track, crate::channel::Channel, &'a str),
    LexWarning<&'a str>,
>)
    requires
        is_message_like(m@),
    ensures
        match r {
            Ok((t, ch, body)) => Ok((t, ch, body@)),
            Err(e) => Err(e@),
        } == spec_message_parts(m@, layout),
{
    let n = m.unicode_len();
    let track = match crate::number::parse_u32(m.substring_char(1, 4)) {
        Some(v) => v,
        None => return Err(LexWarning::ExpectedToken("[000-999]")),
    };
    let code = m.substring_char(4, 6);
    let channel = match layout.read_channel(code) {
        Some(ch) => ch,
        None => return Err(LexWarning::UnknownChannel(code)),
    };
    Ok((Track(track), channel, m.substring_char(7, n)))
}

/// Lexes the payload of `#EXT`.
fn lex_ext<'a>(c: &mut Cursor<'a>, layout: KeyLayout) -> (r: Result<Token<&'a str>, LexWarning<&'a str>>)
    requires
        old(c).wf(),
    ensures
        advanced(*old(c), *final(c)),
        (outcome_view(r), final(c).pos()) == spec_ext(old(c).text(), old(c).pos(), layout),
{
    let m = match c.next_token() {
        Some(t) => t,
        None => return Err(LexWarning::ExpectedToken("message definition")),
    };
    let mc = crate::cursor::chars_of(m);
    if !message_like(&mc) {
        return Err(LexWarning::UnknownExtendedMessage(m));
    }
    match message_parts(m, layout) {
        Ok((track, channel, message)) => Ok(Token::ExtendedMessage { track, channel, message }),
        Err(e) => Err(e),
    }
}

/// The text of `w` after the prefix `lit`.
fn after_prefix<'a>(w: &'a str, lit: &str) -> (r: &'a str)
    ensures
        r@ == id_text(w@, lit@),
{
    let n = w.unicode_len();
    let k = lit.unicode_len();
    if k <= n {
        w.substring_char(k, n)
    } else {
        w.substring_char(n, n)
    }
}

/// Lexes a command whose word `word`, at `[a, b)`, names no command exactly.
fn lex_prefixed<'a>(
    c: &mut Cursor<'a>,
    word: &'a str,
    a: usize,
    layout: KeyLayout,
) -> (r: Result<Token<&'a str>, LexWarning<&'a str>>)
    requires
        old(c).wf(),
        a <= old(c).pos(),
        word@ == old(c).text().subrange(a as int, old(c).pos()),
    ensures
        advanced(*old(c), *final(c)),
        (outcome_view(r), final(c).pos()) == spec_prefixed(old(c).text(), a as int, old(c).pos(), layout),
{
    let ghost s = c.text();
    let ghost b = c.pos();
    let u = uppercase_chars(word);
    if starts_lit(&u, "#WAV") {
        let idt = after_prefix(word, "#WAV");
        let t = match file_arg(c, "key audio filename") {
            Ok(t) => t,
            Err(e) => return Err(e),
        };
        match obj_id_of(idt) {
            Ok(id) => Ok(Token::Wav(id, t)),
            Err(e) => Err(e),
        }
    } else if starts_lit(&u, "#BMP") {
        let idt = after_prefix(word, "#BMP");
        let t = match file_arg(c, "key audio filename") {
            Ok(t) => t,
            Err(e) => return Err(e),
        };
        if eq_str(idt, "00") {
            Ok(Token::Bmp(None, t))
        } else {
            match obj_id_of(idt) {
                Ok(id) => Ok(Token::Bmp(Some(id), t)),
                Err(e) => Err(e),
            }
        }
    } else if starts_lit(&u, "#BPM") {
        let idt = after_prefix(word, "#BPM");
        let t = match word_arg(c, "bpm") {
            Ok(t) => t,
            Err(e) => return Err(e),
        };
        match obj_id_of(idt) {
            Ok(id) => Ok(Token::BpmChange(id, t)),
            Err(e) => Err(e),
        }
    } else if starts_lit(&u, "#STOP") {
        let idt = after_prefix(word, "#STOP");
        let v = match int_arg(c, "stop beats", "integer", false, 0, u32::MAX as u64) {
            Ok(v) => v,
            Err(e) => return Err(e),
        };
        match obj_id_of(idt) {
            Ok(id) => Ok(Token::Stop(id, v as u32)),
            Err(e) => Err(e),
        }
    } else if starts_lit(&u, "#SCROLL") {
        let idt = after_prefix(word, "#SCROLL");
        let t = match word_arg(c, "scroll factor") {
            Ok(t) => t,
            Err(e) => return Err(e),
        };
        match obj_id_of(idt) {
            Ok(id) => Ok(Token::Scroll(id, t)),
            Err(e) => Err(e),
        }
    } else if starts_lit(&u, "#SPEED") {
        let idt = after_prefix(word, "#SPEED");
        let t = match word_arg(c, "spacing factor") {
            Ok(t) => t,
            Err(e) => return Err(e),
        };
        match obj_id_of(idt) {
            Ok(id) => Ok(Token::Speed(id, t)),
            Err(e) => Err(e),
        }
    } else if starts_lit(&u, "#EXBMP") {
        lex_exbmp(c, after_prefix(word, "#EXBMP"))
    } else if starts_lit(&u, "#EXRANK") {
        let idt = after_prefix(word, "#EXRANK");
        let v = match int_arg(c, "one of [0,4]", "one of [0,4]", true, i64::MIN, i64::MAX as u64) {
            Ok(v) => v,
            Err(e) => return Err(e),
        };
        match obj_id_of(idt) {
            Ok(id) => Ok(Token::ExRank(id, JudgeLevel::from_int(v as i64))),
            Err(e) => Err(e),
        }
    } else if starts_lit(&u, "#EXWAV") {
        lex_exwav(c, after_prefix(word, "#EXWAV"))
    } else if starts_lit(&u, "#TEXT") {
        let idt = after_prefix(word, "#TEXT");
        let t = c.next_line_remaining();
        match obj_id_of(idt) {
            Ok(id) => Ok(Token::Text(id, t)),
            Err(e) => Err(e),
        }
    } else if starts_lit(&u, "#@BGA") {
        lex_bga(c, after_prefix(word, "#@BGA"), true)
    } else if starts_lit(&u, "#BGA") && !starts_lit(&u, "#BGAPOOR") {
        lex_bga(c, after_prefix(word, "#BGA"), false)
    } else if starts_lit(&u, "#CHANGEOPTION") {
        let idt = after_prefix(word, "#CHANGEOPTION");
        let t = c.next_line_remaining();
        match obj_id_of(idt) {
            Ok(id) => Ok(Token::ChangeOption(id, t)),
            Err(e) => Err(e),
        }
    } else if starts_lit(&u, "#LNOBJ") {
        match obj_id_of(after_prefix(word, "#LNOBJ")) {
            Ok(id) => Ok(Token::LnObj(id)),
            Err(e) => Err(e),
        }
    } else if starts_lit(&u, "#EXT") {
        lex_ext(c, layout)
    } else {
        let wc = crate::cursor::chars_of(word);
        if message_like(&wc) {
            match message_parts(word, layout) {
                Ok((track, channel, message)) => Ok(Token::Message { track, channel, message }),
                Err(e) => Err(e),
            }
        } else {
            let is_command = wc.len() > 0 && wc[0] == '#';
            let line = c.next_line_entire(a);
            if is_command {
                Ok(Token::UnknownCommand(line))
            } else {
                Ok(Token::NotACommand(line))
            }
        }
    }
}

/// Lexes the next command, if any word is left: its outcome and the bounds of its word.
pub fn lex_command<'a>(c: &mut Cursor<'a>, layout: KeyLayout) -> (r: Option<
    (Result<Token<&'a str>, LexWarning<&'a str>>, usize, usize),
>)
    requires
        old(c).wf(),
    ensures
        advanced(*old(c), *final(c)),
        match next_word(old(c).text(), old(c).pos()) {
            None => r.is_none() && final(c).pos() == old(c).text().len(),
            Some((a, b)) => r.is_some() && r.unwrap().1 == a && r.unwrap().2 == b && (
            outcome_view(r.unwrap().0), final(c).pos()) == spec_command(old(c).text(), a, b, layout)
                && b <= final(c).pos() && old(c).pos() <= a && a < b,
        },
{
    proof {
        reveal(spec_command);
    }
    let (word, a, b) = match c.next_token_at() {
        Some(x) => x,
        None => return None,
    };
    let u = uppercase_chars(word);
    match lex_exact(c, &u) {
        Some(o) => Some((o, a, b)),
        None => Some((lex_prefixed(c, word, a, layout), a, b)),
    }
}

/// A token with the bounds of its command word in the source, as character indices.
#[derive(Debug, Clone, Copy, PartialEq, Eq, Hash)]
pub struct TokenWithRange<S> {
    /// The token.
    pub token: Token<S>,
    /// The index of the first character of the command word.
    pub start: usize,
    /// The index after the last character of the command word.
    pub end: usize,
}

impl<'a> View for TokenWithRange<&'a str> {
    type V = TokenWithRange<Seq<char>>;

    open spec fn view(&self) -> TokenWithRange<Seq<char>> {
        TokenWithRange { token: self.token@, start: self.start, end: self.end }
    }
}

/// A warning with the bounds of the command word it concerns, as character indices.
#[derive(Debug, Clone, Copy, PartialEq, Eq, Hash)]
pub struct LexWarningWithRange<S> {
    /// The warning.
    pub warning: LexWarning<S>,
    /// The index of the first character of the command word.
    pub start: usize,
    /// The index after the last character of the command word.
    pub end: usize,
}

impl<'a> View for LexWarningWithRange<&'a str> {
    type V = LexWarningWithRange<Seq<char>>;

    open spec fn view(&self) -> LexWarningWithRange<Seq<char>> {
        LexWarningWithRange { warning: self.warning@, start: self.start, end: self.end }
    }
}

/// Where the lexer goes on after the command at `[a, b)` that moved the cursor to `p`: after a
/// failed command, at least to the next line.
pub open spec fn resume_at(s: Seq<char>, b: int, p: int, failed: bool) -> int {
    if failed && p < next_line_start(s, b) {
        next_line_start(s, b)
    } else {
        p
    }
}

/// The tokens and warnings of the source `s` from the index `pos` on.
pub open spec fn spec_lex(s: Seq<char>, pos: int, layout: KeyLayout) -> (
    Seq<TokenWithRange<Seq<char>>>,
    Seq<LexWarningWithRange<Seq<char>>>,
)
    decreases s.len() - pos,
{
    if pos < 0 || pos > s.len() {
        (seq![], seq![])
    } else {
        match next_word(s, pos) {
            None => (seq![], seq![]),
            Some((a, b)) => {
                let (o, p) = spec_command(s, a, b, layout);
                let p2 = resume_at(s, b, p, o is Err);
                let rest = if pos < p2 && p2 <= s.len() {
                    spec_lex(s, p2, layout)
                } else {
                    (seq![], seq![])
                };
                match o {
                    Ok(t) => (
                        seq![TokenWithRange { token: t, start: a as usize, end: b as usize }]
                            + rest.0,
                        rest.1,
                    ),
                    Err(e) => (
                        rest.0,
                        seq![LexWarningWithRange { warning: e, start: a as usize, end: b as usize }]
                            + rest.1,
                    ),
                }
            },
        }
    }
}

/// Whether the tokens declare `#BASE 62`.
pub open spec fn declares_base62(ts: Seq<TokenWithRange<Seq<char>>>) -> bool {
    exists|i: int| 0 <= i < ts.len() && ts[i].token is Base62
}

/// The tokens with their object ids and message bodies uppercased, unless they declare
/// `#BASE 62`.
pub open spec fn normalize_case(ts: Seq<TokenWithRange<Seq<char>>>) -> Seq<TokenWithRange<Seq<char>>> {
    if declares_base62(ts) {
        ts
    } else {
        ts.map_values(
            |t: TokenWithRange<Seq<char>>|
                TokenWithRange { token: crate::token::upper_token(t.token), start: t.start, end: t.end },
        )
    }
}

/// The views of a sequence of tokens.
pub open spec fn tokens_view<'a>(v: Seq<TokenWithRange<&'a str>>) -> Seq<TokenWithRange<Seq<char>>> {
    v.map_values(|t: TokenWithRange<&'a str>| t@)
}

/// The views of a sequence of warnings.
pub open spec fn warnings_view<'a>(v: Seq<LexWarningWithRange<&'a str>>) -> Seq<
    LexWarningWithRange<Seq<char>>,
> {
    v.map_values(|w: LexWarningWithRange<&'a str>| w@)
}

/// A sequence of tokens with their source ranges.
#[derive(Debug, Clone, PartialEq, Eq, Hash)]
pub struct TokenStream<'a> {
    /// The tokens, in source order.
    pub tokens: Vec<TokenWithRange<&'a str>>,
}

impl<'a> TokenStream<'a> {
    /// The stream of the given tokens.
    pub fn from_tokens(tokens: Vec<TokenWithRange<&'a str>>) -> (r: TokenStream<'a>)
        ensures
            r.tokens@ == tokens@,
    {
        TokenStream { tokens }
    }

    /// An iterator over the tokens, from the first.
    pub fn iter<'t>(&'t self) -> (r: TokenStreamIter<'t, 'a>)
        ensures
            r.spec_tokens() == self.tokens@,
            r.next_index() == 0,
    {
        TokenStreamIter { tokens: &self.tokens, index: 0 }
    }
}

/// An iterator over the tokens of a [`TokenStream`].
pub struct TokenStreamIter<'t, 'a> {
    tokens: &'t Vec<TokenWithRange<&'a str>>,
    index: usize,
}

impl<'t, 'a> TokenStreamIter<'t, 'a> {
    /// The index of the token that `next` returns.
    pub closed spec fn next_index(&self) -> int {
        self.index as int
    }

    /// The tokens iterated over.
    pub closed spec fn spec_tokens(&self) -> Seq<TokenWithRange<&'a str>> {
        self.tokens@
    }

    /// Returns the next token, if any.
    pub fn next(&mut self) -> (r: Option<&'t TokenWithRange<&'a str>>)
        ensures
            final(self).spec_tokens() == old(self).spec_tokens(),
            old(self).next_index() < old(self).spec_tokens().len() ==> r.is_some() && *r.unwrap()
                == old(self).spec_tokens()[old(self).next_index()] && final(self).next_index()
                == old(self).next_index() + 1,
            old(self).next_index() >= old(self).spec_tokens().len() ==> r.is_none()
                && final(self).next_index() == old(self).next_index(),
    {
        if self.index < self.tokens.len() {
            let t = &self.tokens[self.index];
            self.index = self.index + 1;
            Some(t)
        } else {
            None
        }
    }
}

/// What the lexer gives: the tokens, and the warnings of the commands that yielded none. Lexing
/// goes on after a failed command; [`LexOutput::fatal_error`] tells whether one failure makes
/// the parse fail.
pub struct LexOutput<'a> {
    /// The tokens, in source order.
    pub tokens: TokenStream<'a>,
    /// The warnings, in source order.
    pub lex_warnings: Vec<LexWarningWithRange<&'a str>>,
}

/// Whether a warning makes the parse fail: an ill-formed object id, an unknown channel, or a
/// missing or unparseable argument. A value out of its range, an unknown `#BASE` and a malformed
/// `#EXT` payload are warnings only.
pub open spec fn is_fatal(w: LexWarning<Seq<char>>) -> bool {
    match w {
        LexWarning::InvalidObjectId(_) | LexWarning::UnknownChannel(_) => true,
        LexWarning::ExpectedToken(m) => m != "pan value out of range [-10000, 10000]"@ && m
            != "volume value out of range [-10000, 0]"@ && m
            != "frequency value out of range [100, 100000]"@,
        LexWarning::UnknownBase(_) | LexWarning::UnknownExtendedMessage(_) => false,
    }
}

impl<'a> LexOutput<'a> {
    /// The first warning that makes the parse fail, if any.
    pub fn fatal_error(&self) -> (r: Option<LexWarningWithRange<&'a str>>)
        ensures
            match r {
                None => forall|k: int|
                    0 <= k < self.lex_warnings@.len() ==> !is_fatal(
                        (#[trigger] self.lex_warnings@[k])@.warning,
                    ),
                Some(w) => exists|k: int|
                    0 <= k < self.lex_warnings@.len() && #[trigger] self.lex_warnings@[k] == w
                        && is_fatal(w@.warning) && forall|j: int|
                        0 <= j < k ==> !is_fatal((#[trigger] self.lex_warnings@[j])@.warning),
            },
    {
        let mut i: usize = 0;
        while i < self.lex_warnings.len()
            invariant
                i <= self.lex_warnings@.len(),
                forall|j: int| 0 <= j < i ==> !is_fatal((#[trigger] self.lex_warnings@[j])@.warning),
            decreases self.lex_warnings@.len() - i,
        {
            let w = self.lex_warnings[i];
            let fatal = match w.warning {
                LexWarning::InvalidObjectId(_) | LexWarning::UnknownChannel(_) => true,
                LexWarning::ExpectedToken(m) => !eq_str(m, "pan value out of range [-10000, 10000]")
                    && !eq_str(m, "volume value out of range [-10000, 0]") && !eq_str(
                    m,
                    "frequency value out of range [100, 100000]",
                ),
                _ => false,
            };
            if fatal {
                return Some(w);
            }
            i += 1;
        }
        None
    }
}

/// Lexes every command of `source`, parsing channel codes with the parser of `layout`.
fn lex_all<'a>(source: &'a str, layout: KeyLayout) -> (r: (
    Vec<TokenWithRange<&'a str>>,
    Vec<LexWarningWithRange<&'a str>>,
))
    ensures
        tokens_view(r.0@) == spec_lex(source@, 0, layout).0,
        warnings_view(r.1@) == spec_lex(source@, 0, layout).1,
{
    let mut c = Cursor::new(source);
    let ghost s = source@;
    let mut tokens: Vec<TokenWithRange<&'a str>> = Vec::new();
    let mut warnings: Vec<LexWarningWithRange<&'a str>> = Vec::new();
    loop
        invariant
            c.wf(),
            c.text() == s,
            c.source() == source,
            0 <= c.pos() <= s.len(),
            spec_lex(s, 0, layout).0 == tokens_view(tokens@) + spec_lex(s, c.pos(), layout).0,
            spec_lex(s, 0, layout).1 == warnings_view(warnings@) + spec_lex(s, c.pos(), layout).1,
        ensures
            tokens_view(tokens@) == spec_lex(s, 0, layout).0,
            warnings_view(warnings@) == spec_lex(s, 0, layout).1,
        decreases s.len() - c.pos(),
    {
        let ghost pos = c.pos();
        let ghost old_t = tokens@;
        let ghost old_w = warnings@;
        match lex_command(&mut c, layout) {
            None => {
                assert(spec_lex(s, pos, layout).0 =~= Seq::<TokenWithRange<Seq<char>>>::empty());
                assert(spec_lex(s, pos, layout).1 =~= Seq::<LexWarningWithRange<Seq<char>>>::empty());
                assert(tokens_view(tokens@) + spec_lex(s, pos, layout).0 =~= tokens_view(tokens@));
                assert(warnings_view(warnings@) + spec_lex(s, pos, layout).1 =~= warnings_view(warnings@));
                break;
            },
            Some((o, a, b)) => {
                match o {
                    Ok(t) => {
                        tokens.push(TokenWithRange { token: t, start: a, end: b });
                        assert(tokens_view(tokens@) =~= tokens_view(old_t).push(
                            TokenWithRange { token: t@, start: a, end: b },
                        ));
                    },
                    Err(e) => {
                        warnings.push(LexWarningWithRange { warning: e, start: a, end: b });
                        assert(warnings_view(warnings@) =~= warnings_view(old_w).push(
                            LexWarningWithRange { warning: e@, start: a, end: b },
                        ));
                        proof {
                            c.lemma_pos_bound();
                        }
                        c.skip_line_of(b);
                    },
                }
                proof {
                    c.lemma_pos_bound();
                }
                let ghost rest = spec_lex(s, c.pos(), layout);
                assert(spec_lex(s, 0, layout).0 =~= tokens_view(tokens@) + rest.0);
                assert(spec_lex(s, 0, layout).1 =~= warnings_view(warnings@) + rest.1);
            },
        }
    }
    (tokens, warnings)
}

/// Whether the body of each message in `ts` is the text of `s` after its command word's first
/// seven characters `#TTTCC:`.
pub open spec fn bodies_in_place(s: Seq<char>, ts: Seq<TokenWithRange<Seq<char>>>) -> bool {
    forall|i: int|
        0 <= i < ts.len() ==> match #[trigger] ts[i].token {
            Token::Message { message, .. } => ts[i].start + 7 <= ts[i].end <= s.len() && message
                == s.subrange(ts[i].start + 7, ts[i].end as int),
            _ => true,
        }
}

#[verifier::rlimit(100)]
proof fn lemma_exact_no_message(s: Seq<char>, b: int, u: Seq<char>)
    ensures
        match spec_exact(s, b, u) {
            Some((Ok(Token::Message { .. }), _)) => false,
            _ => true,
        },
{
}

#[verifier::rlimit(100)]
proof fn lemma_prefixed_message_body(s: Seq<char>, a: int, b: int, layout: KeyLayout)
    requires
        0 <= a < b <= s.len(),
    ensures
        match spec_prefixed(s, a, b, layout).0 {
            Ok(Token::Message { message, .. }) => a + 7 <= b && message == s.subrange(a + 7, b),
            _ => true,
        },
{
    let w = s.subrange(a, b);
    if w.len() >= 8 {
        assert(w.subrange(7, w.len() as int) =~= s.subrange(a + 7, b));
    }
}

proof fn lemma_command_message_body(s: Seq<char>, a: int, b: int, layout: KeyLayout)
    requires
        0 <= a < b <= s.len(),
    ensures
        match spec_command(s, a, b, layout).0 {
            Ok(Token::Message { message, .. }) => a + 7 <= b && message == s.subrange(a + 7, b),
            _ => true,
        },
{
    reveal(spec_command);
    lemma_exact_no_message(s, b, uppercase(s.subrange(a, b)));
    lemma_prefixed_message_body(s, a, b, layout);
}

proof fn lemma_lex_bodies(s: Seq<char>, pos: int, layout: KeyLayout)
    requires
        0 <= pos <= s.len(),
        s.len() <= usize::MAX,
    ensures
        bodies_in_place(s, spec_lex(s, pos, layout).0),
    decreases s.len() - pos,
{
    crate::cursor::lemma_skip_ws_bounds(s, pos);
    match next_word(s, pos) {
        None => {},
        Some((a, b)) => {
            crate::cursor::lemma_word_end_bounds(s, a);
            crate::cursor::lemma_word_end_bounds(s, a + 1);
            lemma_command_message_body(s, a, b, layout);
            let (o, p) = spec_command(s, a, b, layout);
            let p2 = resume_at(s, b, p, o is Err);
            if pos < p2 && p2 <= s.len() {
                lemma_lex_bodies(s, p2, layout);
            }
            let ts = spec_lex(s, pos, layout).0;
            let rest = if pos < p2 && p2 <= s.len() {
                spec_lex(s, p2, layout)
            } else {
                (seq![], seq![])
            };
            assert forall|i: int| 0 <= i < ts.len() implies match #[trigger] ts[i].token {
                Token::Message { message, .. } => ts[i].start + 7 <= ts[i].end <= s.len() && message
                    == s.subrange(ts[i].start + 7, ts[i].end as int),
                _ => true,
            } by {
                if o is Ok {
                    if i > 0 {
                        assert(ts[i] == rest.0[i - 1]);
                    }
                } else {
                    assert(ts[i] == rest.0[i]);
                }
            }
        },
    }
}

/// The source text with its ASCII uppercase, which the bodies of rewritten messages borrow.
pub struct Source<'a> {
    text: &'a str,
    upper: String,
}

/// Relies on `str::to_ascii_uppercase`: each ASCII letter `a` to `z` becomes `A` to `Z` and every
/// other character stays.
#[verifier::external_body]
fn ascii_uppercase(s: &str) -> (r: String)
    ensures
        r@ == upper_seq(s@),
{
    s.to_ascii_uppercase()
}

impl<'a> Source<'a> {
    #[verifier::type_invariant]
    spec fn upper_matches(self) -> bool {
        self.upper@ == upper_seq(self.text@)
    }

    /// The source text.
    pub closed spec fn spec_text(&self) -> &'a str {
        self.text
    }

    /// The source `text`, with its uppercase copy.
    pub fn new(text: &'a str) -> (r: Source<'a>)
        ensures
            r.spec_text() == text,
    {
        Source { text, upper: ascii_uppercase(text) }
    }

    /// The source text.
    pub fn text(&self) -> (r: &'a str)
        ensures
            r == self.spec_text(),
    {
        self.text
    }
}

/// Uppercases the object ids and message bodies of every token, unless one of them declares
/// `#BASE 62`. A rewritten body is the matching slice of the uppercase copy of the source.
fn normalize_tokens<'a, 'b>(tokens: &mut Vec<TokenWithRange<&'a str>>, source: &'a Source<'b>)
    requires
        bodies_in_place(source.spec_text()@, tokens_view(old(tokens)@)),
    ensures
        tokens_view(final(tokens)@) == normalize_case(tokens_view(old(tokens)@)),
{
    proof {
        use_type_invariant(source);
    }
    let ghost text = source.spec_text()@;
    let n = tokens.len();
    let mut i: usize = 0;
    while i < n
        invariant
            n == tokens@.len(),
            i <= n,
            forall|k: int| 0 <= k < i ==> !(tokens@[k].token is Base62),
        decreases n - i,
    {
        if let Token::Base62 = tokens[i].token {
            assert(tokens_view(tokens@)[i as int].token is Base62);
            return;
        }
        i += 1;
    }
    let ghost orig = tokens@;
    assert(!declares_base62(tokens_view(orig))) by {
        assert forall|k: int| 0 <= k < n implies !(#[trigger] tokens_view(orig)[k].token is Base62) by {
            assert(!(orig[k].token is Base62));
        }
    }
    let mut j: usize = 0;
    while j < n
        invariant
            n == tokens@.len(),
            n == orig.len(),
            !declares_base62(tokens_view(orig)),
            bodies_in_place(text, tokens_view(orig)),
            source.upper@ == upper_seq(text),
            text == source.spec_text()@,
            j <= n,
            forall|k: int| 0 <= k < j ==> #[trigger] tokens_view(tokens@)[k] == normalize_case(tokens_view(orig))[k],
            forall|k: int| j <= k < n ==> #[trigger] tokens@[k] == orig[k],
        decreases n - j,
    {
        let ghost before = tokens@;
        let mut t = tokens[j];
        assert(t@ == tokens_view(orig)[j as int]);
        if let Token::Message { message, .. } = t.token {
            assert(t.start + 7 <= t.end <= text.len());
            let up = source.upper.as_str().substring_char(t.start + 7, t.end);
            assert(upper_seq(message@) =~= upper_seq(text).subrange(t.start + 7, t.end as int));
            t.token.make_id_uppercase(up);
        } else {
            t.token.make_id_uppercase("");
        }
        tokens.set(j, t);
        proof {
            assert forall|k: int| 0 <= k <= j implies #[trigger] tokens_view(tokens@)[k]
                == normalize_case(tokens_view(orig))[k] by {
                if k < j {
                    assert(tokens_view(tokens@)[k] == tokens_view(before)[k]);
                } else {
                    assert(normalize_case(tokens_view(orig)) == tokens_view(orig).map_values(
                        |t: TokenWithRange<Seq<char>>|
                            TokenWithRange { token: crate::token::upper_token(t.token), start: t.start, end: t.end },
                    ));
                    assert(tokens_view(orig)[k] == orig[k]@);
                }
            }
        }
        j += 1;
    }
    assert(tokens_view(tokens@) =~= normalize_case(tokens_view(orig)));
}

/// Lexes the source with the channel parser of `layout`. Without `#BASE 62` the object ids
/// and message bodies are uppercased, so that ids differing only in case denote the same
/// object.
pub fn parse_lex<'a, 'b>(source: &'a Source<'b>, layout: KeyLayout) -> (r: LexOutput<'a>)
    ensures
        tokens_view(r.tokens.tokens@) == normalize_case(spec_lex(source.spec_text()@, 0, layout).0),
        warnings_view(r.lex_warnings@) == spec_lex(source.spec_text()@, 0, layout).1,
{
    let text: &'a str = source.text();
    let _n = text.unicode_len();
    let (mut tokens, warnings) = lex_all(text, layout);
    proof {
        lemma_lex_bodies(text@, 0, layout);
    }
    normalize_tokens(&mut tokens, source);
    LexOutput { tokens: TokenStream { tokens }, lex_warnings: warnings }
}

/// Whether `p` lies at or after `i` and within the text `s`.
pub open spec fn within(s: Seq<char>, i: int, p: int) -> bool {
    i <= p <= s.len()
}

proof fn lemma_read_bounds(s: Seq<char>, i: int)
    requires
        0 <= i <= s.len(),
    ensures
        within(s, i, read_word(s, i).1),
        within(s, i, read_rest(s, i).1),
{
    crate::cursor::lemma_skip_ws_bounds(s, i);
    crate::cursor::lemma_line_end_bounds(s, i);
    match next_word(s, i) {
        None => {},
        Some((a, b)) => {
            crate::cursor::lemma_word_end_bounds(s, a);
        },
    }
}

#[verifier::rlimit(100)]
proof fn lemma_exact_bound(s: Seq<char>, b: int, u: Seq<char>)
    requires
        0 <= b <= s.len(),
    ensures
        spec_exact(s, b, u) is Some ==> within(s, b, spec_exact(s, b, u).unwrap().1),
{
    lemma_read_bounds(s, b);
}

proof fn lemma_exwav_params_bound(
    s: Seq<char>,
    i: int,
    params: Seq<char>,
    k: int,
    pan: Option<ExWavPan>,
    volume: Option<ExWavVolume>,
    frequency: Option<ExWavFrequency>,
)
    requires
        0 <= i <= s.len(),
    ensures
        within(s, i, spec_exwav_params(s, i, params, k, pan, volume, frequency).1),
    decreases params.len() - k,
{
    lemma_read_bounds(s, i);
    if 0 <= k < params.len() {
        let p = read_word(s, i).1;
        if params[k] == 'p' {
            match spec_int_arg(s, i, "pan"@, "integer"@, true, i64::MIN as int, i64::MAX as int).0 {
                Ok(v) => if -10000 <= v <= 10000 {
                    lemma_exwav_params_bound(s, p, params, k + 1, Some(ExWavPan::spec_new(v as i64)), volume, frequency);
                },
                Err(_) => {},
            }
        } else if params[k] == 'v' {
            match spec_int_arg(s, i, "volume"@, "integer"@, true, i64::MIN as int, i64::MAX as int).0 {
                Ok(v) => if -10000 <= v <= 0 {
                    lemma_exwav_params_bound(s, p, params, k + 1, pan, Some(ExWavVolume::spec_new(v as i64)), frequency);
                },
                Err(_) => {},
            }
        } else if params[k] == 'f' {
            match spec_int_arg(s, i, "frequency"@, "integer"@, false, 0, u64::MAX as int).0 {
                Ok(v) => if 100 <= v <= 100000 {
                    lemma_exwav_params_bound(s, p, params, k + 1, pan, volume, Some(ExWavFrequency::spec_new(v as u64)));
                },
                Err(_) => {},
            }
        }
    }
}

proof fn lemma_geometry_bound(s: Seq<char>, b: int, at: bool)
    requires
        0 <= b <= s.len(),
    ensures
        within(s, b, spec_geometry(s, b, at).1),
{
    lemma_read_bounds(s, b);
    let p0 = read_word(s, b).1;
    lemma_read_bounds(s, p0);
    let p1 = read_word(s, p0).1;
    lemma_read_bounds(s, p1);
    let p2 = read_word(s, p1).1;
    lemma_read_bounds(s, p2);
    let p3 = read_word(s, p2).1;
    lemma_read_bounds(s, p3);
    let p4 = read_word(s, p3).1;
    lemma_read_bounds(s, p4);
    let p5 = read_word(s, p4).1;
    lemma_read_bounds(s, p5);
}

#[verifier::rlimit(100)]
proof fn lemma_prefixed_bound(s: Seq<char>, a: int, b: int, layout: KeyLayout)
    requires
        0 <= a < b <= s.len(),
    ensures
        within(s, b, spec_prefixed(s, a, b, layout).1),
{
    lemma_read_bounds(s, b);
    lemma_read_bounds(s, read_word(s, b).1);
    lemma_geometry_bound(s, b, true);
    lemma_geometry_bound(s, b, false);
    match read_word(s, b).0 {
        Some(params) => {
            let p = read_word(s, b).1;
            lemma_exwav_params_bound(s, p, params, 0, None, None, None);
            lemma_read_bounds(s, spec_exwav_params(s, p, params, 0, None, None, None).1);
        },
        None => {},
    }
}

/// Where the command of the word `s[a..b]` leaves the cursor: at or after the word, within
/// the text.
pub proof fn lemma_command_bound(s: Seq<char>, a: int, b: int, layout: KeyLayout)
    requires
        0 <= a < b <= s.len(),
    ensures
        within(s, b, spec_command(s, a, b, layout).1),
{
    reveal(spec_command);
    lemma_exact_bound(s, b, uppercase(s.subrange(a, b)));
    lemma_prefixed_bound(s, a, b, layout);
}

/// A command that fails yields its warning and no token, and lexing does not stop there: it
/// goes on after the command, from the next line at the earliest, and the rest of the source
/// gives the same tokens and warnings as if lexed on its own from there.
pub proof fn lemma_lexing_goes_on_after_failure(s: Seq<char>, pos: int, layout: KeyLayout)
    requires
        0 <= pos <= s.len(),
        next_word(s, pos) is Some,
        spec_command(s, next_word(s, pos).unwrap().0, next_word(s, pos).unwrap().1, layout).0 is Err,
    ensures
        ({
            let (a, b) = next_word(s, pos).unwrap();
            let (o, p) = spec_command(s, a, b, layout);
            let p2 = resume_at(s, b, p, true);
            &&& pos < p2 <= s.len()
            &&& spec_lex(s, pos, layout).0 == spec_lex(s, p2, layout).0
            &&& spec_lex(s, pos, layout).1 == seq![
                LexWarningWithRange { warning: o->Err_0, start: a as usize, end: b as usize },
            ] + spec_lex(s, p2, layout).1
        }),
{
    let (a, b) = next_word(s, pos).unwrap();
    crate::cursor::lemma_skip_ws_bounds(s, pos);
    crate::cursor::lemma_word_end_bounds(s, a);
    crate::cursor::lemma_word_end_bounds(s, a + 1);
    crate::cursor::lemma_line_end_bounds(s, b);
    lemma_command_bound(s, a, b, layout);
}

} // verus!
