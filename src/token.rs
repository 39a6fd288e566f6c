//! Tokens of the BMS format: one per command line.
use vstd::prelude::*;

use crate::channel::Channel;
use crate::command::{
    upper_char, Argb, ExWavFrequency, ExWavPan, ExWavVolume, JudgeLevel, ObjId, PlayerMode, PoorMode, Track,
    Volume,
};

verus! {

/// A point on an image, in pixels.
#[derive(Debug, Clone, Copy, PartialEq, Eq, Hash, Structural)]
pub struct PixelPoint {
    /// The horizontal coordinate.
    pub x: i16,
    /// The vertical coordinate.
    pub y: i16,
}

impl PixelPoint {
    /// The point `(x, y)`.
    pub fn new(x: i16, y: i16) -> (r: PixelPoint)
        ensures
            r == (PixelPoint { x, y }),
    {
        PixelPoint { x, y }
    }
}

/// A size of an image area, in pixels.
#[derive(Debug, Clone, Copy, PartialEq, Eq, Hash, Structural)]
pub struct PixelSize {
    /// The width.
    pub width: u16,
    /// The height.
    pub height: u16,
}

impl PixelSize {
    /// The size `width` by `height`.
    pub fn new(width: u16, height: u16) -> (r: PixelSize)
        ensures
            r == (PixelSize { width, height }),
    {
        PixelSize { width, height }
    }
}

/// A token of the BMS format. `S` is the type of the text it holds: a slice of the source in
/// executable code, a character sequence in specifications.
#[derive(Debug, Clone, Copy, PartialEq, Eq, Hash)]
pub enum Token<S> {
    /// `#ARTIST [string]`. The artist name of the music.
    Artist(S),
    /// `#@BGA[01-ZZ] [01-ZZ] [sx] [sy] [w] [h] [dx] [dy]`. An image object trimmed from an existing image object.
    AtBga {
        id: ObjId,
        source_bmp: ObjId,
        trim_top_left: PixelPoint,
        trim_size: PixelSize,
        draw_point: PixelPoint,
    },
    /// `#BANNER [filename]`. The banner image.
    Banner(S),
    /// `#BACKBMP [filename]`. The background image of the play view.
    BackBmp(S),
    /// `#BASE 62`. Declares that object ids are case-sensitive.
    Base62,
    /// `#BGA[01-ZZ] [01-ZZ] [x1] [y1] [x2] [y2] [dx] [dy]`. An image object trimmed from an existing image object.
    Bga {
        id: ObjId,
        source_bmp: ObjId,
        trim_top_left: PixelPoint,
        trim_bottom_right: PixelPoint,
        draw_point: PixelPoint,
    },
    /// `#BMP[01-ZZ] [filename]`. A background image object; id `00` gives `None`, the image shown on a miss.
    Bmp(Option<ObjId>, S),
    /// `#BPM [number]`. The base beats per minute.
    Bpm(S),
    /// `#BPM[01-ZZ] [number]`. A beats-per-minute change object.
    BpmChange(ObjId, S),
    /// `#CASE [u32]`. Starts a case scope of a switch.
    Case(u32),
    /// `#CHANGEOPTION[01-ZZ] [string]`. A play option change object.
    ChangeOption(ObjId, S),
    /// `#COMMENT [string]`. The text shown in the music select view.
    Comment(S),
    /// `#DEF`. Starts the case scope taken when no `#CASE` matched.
    Def,
    /// `#DIFFICULTY [1-5]`. The difficulty of the score.
    Difficulty(u8),
    /// `#ELSE`. Starts the branch taken when no preceding branch matched.
    Else,
    /// `#ELSEIF [u32]`. Starts a branch taken when no preceding branch matched and the integer equals the drawn number.
    ElseIf(u32),
    /// `%EMAIL [string]`. The email address of the author.
    Email(S),
    /// `#ENDIF`. Closes the if scope.
    EndIf,
    /// `#ENDRANDOM`. Closes the random scope.
    EndRandom,
    /// `#ENDSW`. Closes the switch scope.
    EndSwitch,
    /// `#EXT #XXXYY:...`. An extended message.
    ExtendedMessage {
        track: Track,
        channel: Channel,
        message: S,
    },
    /// `#EXBMP[01-ZZ] [a],[r],[g],[b] [filename]`. A background image object with a transparent color.
    ExBmp(ObjId, Argb, S),
    /// `#EXRANK[01-ZZ] [0-3]`. A judge level change object.
    ExRank(ObjId, JudgeLevel),
    /// `#EXWAV[01-ZZ] [p|v|f order] [values] [filename]`. A key sound object with pan, volume and frequency.
    ExWav {
        id: ObjId,
        pan: ExWavPan,
        volume: ExWavVolume,
        frequency: Option<ExWavFrequency>,
        path: S,
    },
    /// `#GENRE [string]`. The genre of the music.
    Genre(S),
    /// `#IF [u32]`. Starts a branch taken when the integer equals the drawn number.
    If(u32),
    /// `#LNOBJ [01-ZZ]`. Declares the object as the end of a long note.
    LnObj(ObjId),
    /// `#LNTYPE 1`. Long notes in the RDM notation.
    LnTypeRdm,
    /// `#LNTYPE 2`. Long notes in the MGQ notation.
    LnTypeMgq,
    /// `#MAKER [string]`. The author of the score.
    Maker(S),
    /// `#XXXYY:ZZ...`. Places objects onto track `XXX` in channel `YY`.
    Message {
        track: Track,
        channel: Channel,
        message: S,
    },
    /// `#MIDIFILE [filename]`. A MIDI file as the BGM.
    MidiFile(S),
    /// A non-empty line that does not start with `#`.
    NotACommand(S),
    /// `#OCT/FP`. Declares the score as the octave mode.
    OctFp,
    /// `#OPTION [string]`. The play option of the score.
    PlayOption(S),
    /// `#PATH_WAV [string]`. The root path of the sound files.
    PathWav(S),
    /// `#PLAYER [1-3]`. The play style of the score.
    Player(PlayerMode),
    /// `#PLAYLEVEL [integer]`. The difficulty level of the score.
    PlayLevel(u8),
    /// `#POORBGA [0-2]`. The display mode of the POOR BGA.
    PoorBga(PoorMode),
    /// `#RANDOM [u32]`. Starts a random scope with a number drawn from 1 to the integer.
    Random(u32),
    /// `#RANK [0-3]`. The judgement level.
    Rank(JudgeLevel),
    /// `#SCROLL[01-ZZ] [number]`. A scroll speed change object.
    Scroll(ObjId, S),
    /// `#SETRANDOM [u32]`. Starts a random scope whose drawn number is the integer.
    SetRandom(u32),
    /// `#SETSWITCH [u32]`. Starts a switch scope whose drawn number is the integer.
    SetSwitch(u32),
    /// `#SKIP`. Leaves the current switch scope.
    Skip,
    /// `#SPEED[01-ZZ] [number]`. A note spacing change object.
    Speed(ObjId, S),
    /// `#STAGEFILE [filename]`. The splash screen image.
    StageFile(S),
    /// `#STOP[01-ZZ] [u32]`. A stop object of the integer / 192 beats.
    Stop(ObjId, u32),
    /// `#SUBARTIST [string]`. The sub-artist name of the music.
    SubArtist(S),
    /// `#SUBTITLE [string]`. The subtitle of the music.
    SubTitle(S),
    /// `#SWITCH [u32]`. Starts a switch scope with a number drawn from 1 to the integer.
    Switch(u32),
    /// `#TEXT[01-ZZ] string`. A text object.
    Text(ObjId, S),
    /// `#TITLE [string]`. The title of the music.
    Title(S),
    /// `#TOTAL [number]`. The total gauge percentage.
    Total(S),
    /// A line starting with `#` that is no known command.
    UnknownCommand(S),
    /// `%URL [string]`. The url of the score.
    Url(S),
    /// `#VIDEOFILE [filename]` / `#MOVIE [filename]`. The background movie file.
    VideoFile(S),
    /// `#VOLWAV [0-255]`. The relative volume percentage of the sound.
    VolWav(Volume),
    /// `#WAV[01-ZZ] [filename]`. A key sound object.
    Wav(ObjId, S),
}

impl<'a> View for Token<&'a str> {
    type V = Token<Seq<char>>;

    open spec fn view(&self) -> Token<Seq<char>> {
        match self {
            Token::Artist(a0) => Token::Artist(a0@),
            Token::AtBga { id, source_bmp, trim_top_left, trim_size, draw_point } => Token::AtBga { id: *id, source_bmp: *source_bmp, trim_top_left: *trim_top_left, trim_size: *trim_size, draw_point: *draw_point },
            Token::Banner(a0) => Token::Banner(a0@),
            Token::BackBmp(a0) => Token::BackBmp(a0@),
            Token::Base62 => Token::Base62,
            Token::Bga { id, source_bmp, trim_top_left, trim_bottom_right, draw_point } => Token::Bga { id: *id, source_bmp: *source_bmp, trim_top_left: *trim_top_left, trim_bottom_right: *trim_bottom_right, draw_point: *draw_point },
            Token::Bmp(a0, a1) => Token::Bmp(*a0, a1@),
            Token::Bpm(a0) => Token::Bpm(a0@),
            Token::BpmChange(a0, a1) => Token::BpmChange(*a0, a1@),
            Token::Case(a0) => Token::Case(*a0),
            Token::ChangeOption(a0, a1) => Token::ChangeOption(*a0, a1@),
            Token::Comment(a0) => Token::Comment(a0@),
            Token::Def => Token::Def,
            Token::Difficulty(a0) => Token::Difficulty(*a0),
            Token::Else => Token::Else,
            Token::ElseIf(a0) => Token::ElseIf(*a0),
            Token::Email(a0) => Token::Email(a0@),
            Token::EndIf => Token::EndIf,
            Token::EndRandom => Token::EndRandom,
            Token::EndSwitch => Token::EndSwitch,
            Token::ExtendedMessage { track, channel, message } => Token::ExtendedMessage { track: *track, channel: *channel, message: message@ },
            Token::ExBmp(a0, a1, a2) => Token::ExBmp(*a0, *a1, a2@),
            Token::ExRank(a0, a1) => Token::ExRank(*a0, *a1),
            Token::ExWav { id, pan, volume, frequency, path } => Token::ExWav { id: *id, pan: *pan, volume: *volume, frequency: *frequency, path: path@ },
            Token::Genre(a0) => Token::Genre(a0@),
            Token::If(a0) => Token::If(*a0),
            Token::LnObj(a0) => Token::LnObj(*a0),
            Token::LnTypeRdm => Token::LnTypeRdm,
            Token::LnTypeMgq => Token::LnTypeMgq,
            Token::Maker(a0) => Token::Maker(a0@),
            Token::Message { track, channel, message } => Token::Message { track: *track, channel: *channel, message: message@ },
            Token::MidiFile(a0) => Token::MidiFile(a0@),
            Token::NotACommand(a0) => Token::NotACommand(a0@),
            Token::OctFp => Token::OctFp,
            Token::PlayOption(a0) => Token::PlayOption(a0@),
            Token::PathWav(a0) => Token::PathWav(a0@),
            Token::Player(a0) => Token::Player(*a0),
            Token::PlayLevel(a0) => Token::PlayLevel(*a0),
            Token::PoorBga(a0) => Token::PoorBga(*a0),
            Token::Random(a0) => Token::Random(*a0),
            Token::Rank(a0) => Token::Rank(*a0),
            Token::Scroll(a0, a1) => Token::Scroll(*a0, a1@),
            Token::SetRandom(a0) => Token::SetRandom(*a0),
            Token::SetSwitch(a0) => Token::SetSwitch(*a0),
            Token::Skip => Token::Skip,
            Token::Speed(a0, a1) => Token::Speed(*a0, a1@),
            Token::StageFile(a0) => Token::StageFile(a0@),
            Token::Stop(a0, a1) => Token::Stop(*a0, *a1),
            Token::SubArtist(a0) => Token::SubArtist(a0@),
            Token::SubTitle(a0) => Token::SubTitle(a0@),
            Token::Switch(a0) => Token::Switch(*a0),
            Token::Text(a0, a1) => Token::Text(*a0, a1@),
            Token::Title(a0) => Token::Title(a0@),
            Token::Total(a0) => Token::Total(a0@),
            Token::UnknownCommand(a0) => Token::UnknownCommand(a0@),
            Token::Url(a0) => Token::Url(a0@),
            Token::VideoFile(a0) => Token::VideoFile(a0@),
            Token::VolWav(a0) => Token::VolWav(*a0),
            Token::Wav(a0, a1) => Token::Wav(*a0, a1@),
        }
    }
}

/// Whether the token is one of the control flow tokens of random and switch scopes.
pub open spec fn is_control_flow<S>(t: Token<S>) -> bool {
    match t {
        Token::Random(_) | Token::SetRandom(_) | Token::If(_) | Token::ElseIf(_) | Token::Else
        | Token::EndIf | Token::EndRandom | Token::Switch(_) | Token::SetSwitch(_) | Token::Case(_)
        | Token::Def | Token::Skip | Token::EndSwitch => true,
        _ => false,
    }
}

/// The token with every object id of a definition in ASCII uppercase.
pub open spec fn upper_ids<S>(t: Token<S>) -> Token<S> {
    match t {
        Token::AtBga { id, source_bmp, trim_top_left, trim_size, draw_point } => Token::AtBga { id: id.spec_upper(), source_bmp: source_bmp.spec_upper(), trim_top_left, trim_size, draw_point },
        Token::Bga { id, source_bmp, trim_top_left, trim_bottom_right, draw_point } => Token::Bga { id: id.spec_upper(), source_bmp: source_bmp.spec_upper(), trim_top_left, trim_bottom_right, draw_point },
        Token::Bmp(Some(id), p) => Token::Bmp(Some(id.spec_upper()), p),
        Token::BpmChange(a0, a1) => Token::BpmChange(a0.spec_upper(), a1),
        Token::ChangeOption(a0, a1) => Token::ChangeOption(a0.spec_upper(), a1),
        Token::ExBmp(a0, a1, a2) => Token::ExBmp(a0.spec_upper(), a1, a2),
        Token::ExRank(a0, a1) => Token::ExRank(a0.spec_upper(), a1),
        Token::ExWav { id, pan, volume, frequency, path } => Token::ExWav { id: id.spec_upper(), pan, volume, frequency, path },
        Token::LnObj(a0) => Token::LnObj(a0.spec_upper()),
        Token::Scroll(a0, a1) => Token::Scroll(a0.spec_upper(), a1),
        Token::Speed(a0, a1) => Token::Speed(a0.spec_upper(), a1),
        Token::Stop(a0, a1) => Token::Stop(a0.spec_upper(), a1),
        Token::Text(a0, a1) => Token::Text(a0.spec_upper(), a1),
        Token::Wav(a0, a1) => Token::Wav(a0.spec_upper(), a1),
        _ => t,
    }
}

/// The text in ASCII uppercase.
pub open spec fn upper_seq(s: Seq<char>) -> Seq<char> {
    s.map_values(|c: char| upper_char(c))
}

/// Whether the text holds an ASCII lowercase letter.
pub open spec fn has_ascii_lower(s: Seq<char>) -> bool {
    exists|k: int| 0 <= k < s.len() && 'a' <= #[trigger] s[k] && s[k] <= 'z'
}

/// The token after the case pass: object ids of definitions and message bodies in ASCII
/// uppercase.
pub open spec fn upper_token(t: Token<Seq<char>>) -> Token<Seq<char>> {
    match t {
        Token::Message { track, channel, message } => Token::Message {
            track,
            channel,
            message: upper_seq(message),
        },
        _ => upper_ids(t),
    }
}

/// Text without ASCII lowercase letters is its own uppercase.
pub proof fn lemma_upper_seq_unchanged(s: Seq<char>)
    requires
        !has_ascii_lower(s),
    ensures
        upper_seq(s) == s,
{
    assert forall|k: int| 0 <= k < s.len() implies upper_seq(s)[k] == s[k] by {
        assert(!('a' <= s[k] && s[k] <= 'z'));
    }
    assert(upper_seq(s) =~= s);
}

/// The case pass changes nothing the second time.
pub proof fn lemma_upper_token_idempotent(t: Token<Seq<char>>)
    ensures
        upper_token(upper_token(t)) == upper_token(t),
{
    broadcast use crate::command::ObjId::lemma_spec_upper_idempotent;

    if let Token::Message { message, .. } = t {
        assert(upper_seq(upper_seq(message)) =~= upper_seq(message));
    }
}

/// Whether `s` holds an ASCII lowercase letter.
fn has_lower(s: &str) -> (r: bool)
    ensures
        r == has_ascii_lower(s@),
{
    let v = crate::cursor::chars_of(s);
    let mut i: usize = 0;
    while i < v.len()
        invariant
            v@ == s@,
            i <= v@.len(),
            forall|k: int| 0 <= k < i ==> !('a' <= #[trigger] s@[k] && s@[k] <= 'z'),
        decreases v@.len() - i,
    {
        if 'a' <= v[i] && v[i] <= 'z' {
            return true;
        }
        i += 1;
    }
    false
}

impl<'a> Token<&'a str> {
    /// Checks if a token is a control flow token.
    pub fn is_control_flow_token(&self) -> (r: bool)
        ensures
            r == is_control_flow(self@),
    {
        match self {
            Token::Random(_) | Token::SetRandom(_) | Token::If(_) | Token::ElseIf(_) | Token::Else
            | Token::EndIf | Token::EndRandom | Token::Switch(_) | Token::SetSwitch(_)
            | Token::Case(_) | Token::Def | Token::Skip | Token::EndSwitch => true,
            _ => false,
        }
    }

    /// Makes every object id that the token defines or refers to uppercase. A message body
    /// with a lowercase letter is replaced by `upper_body`, its ASCII uppercase (a slice of an
    /// uppercased copy of the source); a body without one is kept as it is.
    pub fn make_id_uppercase(&mut self, upper_body: &'a str)
        requires
            match *old(self) {
                Token::Message { message, .. } => upper_body@ == upper_seq(message@),
                _ => true,
            },
        ensures
            final(self)@ == upper_token(old(self)@),
            match *old(self) {
                Token::Message { message, .. } => !has_ascii_lower(message@) ==> *final(self)
                    == *old(self),
                _ => true,
            },
    {
        match self {
            Token::Message { message, .. } => {
                if has_lower(message) {
                    *message = upper_body;
                } else {
                    proof {
                        lemma_upper_seq_unchanged(message@);
                    }
                }
            },
            Token::AtBga { id, source_bmp, .. } => {
                id.make_uppercase();
                source_bmp.make_uppercase();
            },
            Token::Bga { id, source_bmp, .. } => {
                id.make_uppercase();
                source_bmp.make_uppercase();
            },
            Token::Bmp(Some(id), _) => {
                id.make_uppercase();
            },
            Token::BpmChange(id, _) => {
                id.make_uppercase();
            },
            Token::ChangeOption(id, _) => {
                id.make_uppercase();
            },
            Token::ExBmp(id, _, _) => {
                id.make_uppercase();
            },
            Token::ExRank(id, _) => {
                id.make_uppercase();
            },
            Token::ExWav { id, .. } => {
                id.make_uppercase();
            },
            Token::LnObj(id) => {
                id.make_uppercase();
            },
            Token::Scroll(id, _) => {
                id.make_uppercase();
            },
            Token::Speed(id, _) => {
                id.make_uppercase();
            },
            Token::Stop(id, _) => {
                id.make_uppercase();
            },
            Token::Text(id, _) => {
                id.make_uppercase();
            },
            Token::Wav(id, _) => {
                id.make_uppercase();
            },
            _ => {},
        }
    }
}

} // verus!
