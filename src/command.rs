//! Argument data of commands: object ids, modes, keys and bounded numbers.
use vstd::prelude::*;

verus! {

/// A play style of the score.
#[derive(Debug, Clone, Copy, PartialEq, Eq, Hash, Structural)]
pub enum PlayerMode {
    /// For single play, a player uses 5 or 7 keys.
    Single,
    /// For couple play, two players use each 5 or 7 keys.
    Two,
    /// For double play, a player uses 10 or 14 keys.
    Double,
}

impl PlayerMode {
    /// The mode that the `#PLAYER` argument `arg` names, if any.
    pub open spec fn spec_from_arg(arg: Seq<char>) -> Option<PlayerMode> {
        if arg == seq!['1'] {
            Some(PlayerMode::Single)
        } else if arg == seq!['2'] {
            Some(PlayerMode::Two)
        } else if arg == seq!['3'] {
            Some(PlayerMode::Double)
        } else {
            None
        }
    }

    /// Reads the argument of `#PLAYER`: `1`, `2` or `3`.
    pub fn from_arg(arg: &str) -> (r: Option<PlayerMode>)
        ensures
            r == Self::spec_from_arg(arg@),
    {
        if arg.unicode_len() != 1 {
            return None;
        }
        let c = arg.get_char(0);
        assert(arg@ =~= seq![c]);
        if c == '1' {
            Some(PlayerMode::Single)
        } else if c == '2' {
            Some(PlayerMode::Two)
        } else if c == '3' {
            Some(PlayerMode::Double)
        } else {
            None
        }
    }
}

/// A rank to determine judge level, but treatment differs among the BMS players.
///
/// For `#RANK 4`, `#RANK 6` and `#RANK -1` the usage differs among the players,
/// so any other integer is kept verbatim.
#[derive(Debug, Clone, Copy, PartialEq, Eq, Hash, Structural)]
pub enum JudgeLevel {
    /// Rank 0, the most difficult rank.
    VeryHard,
    /// Rank 1, the harder rank.
    Hard,
    /// Rank 2, the normal rank.
    Normal,
    /// Rank 3, the easier rank.
    Easy,
    /// Other integer value.
    OtherInt(i64),
}

impl JudgeLevel {
    pub open spec fn spec_from_int(value: i64) -> JudgeLevel {
        if value == 0 {
            JudgeLevel::VeryHard
        } else if value == 1 {
            JudgeLevel::Hard
        } else if value == 2 {
            JudgeLevel::Normal
        } else if value == 3 {
            JudgeLevel::Easy
        } else {
            JudgeLevel::OtherInt(value)
        }
    }

    /// The judge level of a rank number.
    pub fn from_int(value: i64) -> (r: JudgeLevel)
        ensures
            r == Self::spec_from_int(value),
    {
        match value {
            0 => JudgeLevel::VeryHard,
            1 => JudgeLevel::Hard,
            2 => JudgeLevel::Normal,
            3 => JudgeLevel::Easy,
            val => JudgeLevel::OtherInt(val),
        }
    }
}

/// Whether `c` is a digit of the base-62 alphabet `0-9A-Za-z`.
pub open spec fn is_base62_char(c: char) -> bool {
    ('0' <= c && c <= '9') || ('A' <= c && c <= 'Z') || ('a' <= c && c <= 'z')
}

/// Whether the byte `b` is a digit of the base-62 alphabet.
pub open spec fn is_base62_byte(b: u8) -> bool {
    is_base62_char(b as char)
}

/// The numeric value of a base-62 digit; 0 for any other byte.
pub open spec fn base62_value(b: u8) -> int {
    if 48u8 <= b && b <= 57u8 {
        b - 48u8
    } else if 65u8 <= b && b <= 90u8 {
        b - 65u8 + 10
    } else if 97u8 <= b && b <= 122u8 {
        b - 97u8 + 36
    } else {
        0
    }
}

/// The ASCII uppercase of a byte: lowercase letters are mapped to uppercase, other bytes kept.
pub open spec fn upper_byte(b: u8) -> u8 {
    if 97u8 <= b && b <= 122u8 {
        (b - 32) as u8
    } else {
        b
    }
}

/// The ASCII uppercase of a character.
pub open spec fn upper_char(c: char) -> char {
    if 'a' <= c && c <= 'z' {
        ((c as u32) - 32) as char
    } else {
        c
    }
}

/// Whether every character of `s` is ASCII.
pub open spec fn all_ascii(s: Seq<char>) -> bool {
    forall|k: int| 0 <= k < s.len() ==> (#[trigger] s[k] as u32) < 128
}

/// The Unicode uppercase of `s`, as `str::to_uppercase` gives it.
pub uninterp spec fn upper_of(s: Seq<char>) -> Seq<char>;

/// The uppercase of `s`: for ASCII text its ASCII uppercase, else its Unicode uppercase.
pub open spec fn uppercase(s: Seq<char>) -> Seq<char> {
    if all_ascii(s) {
        s.map_values(|c: char| upper_char(c))
    } else {
        upper_of(s)
    }
}

/// Relies on `str::to_uppercase`: the Unicode uppercase of the text, which depends on its
/// characters alone; on ASCII text, the letters `a` to `z` become `A` to `Z` and every other
/// character stays.
#[verifier::external_body]
pub(crate) fn to_upper(s: &str) -> (r: String)
    ensures
        r@ == upper_of(s@),
        all_ascii(s@) ==> r@ == s@.map_values(|c: char| upper_char(c)),
{
    s.to_uppercase()
}

/// The uppercase of `s`, character by character.
pub(crate) fn uppercase_chars(s: &str) -> (r: Vec<char>)
    ensures
        r@ == uppercase(s@),
{
    let u = to_upper(s);
    crate::cursor::chars_of(u.as_str())
}

/// Checks that `ch` is a base-62 digit and returns it as an ASCII byte.
pub fn char_to_base62(ch: char) -> (r: Option<u8>)
    ensures
        is_base62_char(ch) <==> r.is_some(),
        r.is_some() ==> r.unwrap() as char == ch && is_base62_byte(r.unwrap()),
{
    if ('0' <= ch && ch <= '9') || ('A' <= ch && ch <= 'Z') || ('a' <= ch && ch <= 'z') {
        Some(ch as u32 as u8)
    } else {
        None
    }
}

/// The numeric value of the base-62 digit `base62`; 0 for a byte outside the alphabet.
pub fn base62_to_byte(base62: u8) -> (r: u8)
    ensures
        r as int == base62_value(base62),
        r < 62,
{
    if 48u8 <= base62 && base62 <= 57u8 {
        base62 - 48u8
    } else if 65u8 <= base62 && base62 <= 90u8 {
        base62 - 65u8 + 10
    } else if 97u8 <= base62 && base62 <= 122u8 {
        base62 - 97u8 + 36
    } else {
        0
    }
}

/// An object id. Its meaning is determined by the channel it belongs to.
///
/// The representation is two base-62 digits as ASCII bytes.
#[derive(Debug, Clone, Copy, PartialEq, Eq, PartialOrd, Ord, Hash, Structural)]
pub struct ObjId {
    first: u8,
    second: u8,
}

impl View for ObjId {
    type V = (u8, u8);

    closed spec fn view(&self) -> (u8, u8) {
        (self.first, self.second)
    }
}

/// The numeric value `d0 * 62 + d1` of an id made of the digits `v`.
pub open spec fn obj_id_value(v: (u8, u8)) -> int {
    base62_value(v.0) * 62 + base62_value(v.1)
}

/// The id that a string of two base-62 characters writes, keeping their case.
pub open spec fn spec_obj_id(t: Seq<char>) -> Option<ObjId> {
    if t.len() == 2 && is_base62_char(t[0]) && is_base62_char(t[1]) {
        Some(ObjId::spec_new(t[0] as u8, t[1] as u8))
    } else {
        None
    }
}

impl ObjId {
    /// The id made of the digits `b0` and `b1`.
    pub closed spec fn spec_new(b0: u8, b1: u8) -> ObjId {
        ObjId { first: b0, second: b1 }
    }

    /// The digits of an id made by `spec_new`.
    pub broadcast proof fn lemma_spec_new(b0: u8, b1: u8)
        ensures
            (#[trigger] ObjId::spec_new(b0, b1))@ == (b0, b1),
    {
    }

    /// The id with both digits in ASCII uppercase.
    pub closed spec fn spec_upper(self) -> ObjId {
        ObjId { first: upper_byte(self.first), second: upper_byte(self.second) }
    }

    /// The digits of the uppercased id.
    pub broadcast proof fn lemma_spec_upper(self)
        ensures
            (#[trigger] self.spec_upper())@ == (upper_byte(self@.0), upper_byte(self@.1)),
    {
    }

    /// Makes an id of two characters, keeping their case.
    pub fn try_from_chars(c0: char, c1: char) -> (r: Result<ObjId, (char, char)>)
        ensures
            (is_base62_char(c0) && is_base62_char(c1)) <==> r.is_ok(),
            r.is_ok() ==> r.unwrap()@ == (c0 as u8, c1 as u8),
            r.is_ok() ==> r.unwrap()@.0 as char == c0 && r.unwrap()@.1 as char == c1,
            r.is_err() ==> r == Err::<ObjId, (char, char)>((c0, c1)),
            r.is_ok() ==> Some(r.unwrap()) == spec_obj_id(seq![c0, c1]),
            r.is_err() ==> spec_obj_id(seq![c0, c1]).is_none(),
    {
        assert(seq![c0, c1][0] == c0 && seq![c0, c1][1] == c1);
        let b0 = match char_to_base62(c0) {
            Some(b) => b,
            None => return Err((c0, c1)),
        };
        let b1 = match char_to_base62(c1) {
            Some(b) => b,
            None => return Err((c0, c1)),
        };
        Ok(ObjId { first: b0, second: b1 })
    }

    /// Two ids with the same digits are the same id.
    pub broadcast proof fn lemma_view_eq(self, other: ObjId)
        ensures
            #![trigger self@, other@]
            self@ == other@ <==> self == other,
    {
    }

    /// An id is the one made of its digits.
    pub broadcast proof fn lemma_spec_new_of_view(self)
        ensures
            #[trigger] ObjId::spec_new(self@.0, self@.1) == self,
    {
    }

    /// Uppercasing an id twice is uppercasing it once.
    pub broadcast proof fn lemma_spec_upper_idempotent(self)
        ensures
            #[trigger] self.spec_upper().spec_upper() == self.spec_upper(),
    {
    }

    /// Reads an id from a string of exactly two base-62 characters, keeping their case; the
    /// error gives the string back.
    pub fn try_from(value: &str) -> (r: Result<ObjId, &str>)
        ensures
            match spec_obj_id(value@) {
                Some(id) => r == Ok::<ObjId, &str>(id),
                None => r == Err::<ObjId, &str>(value),
            },
    {
        match Self::try_from_str(value) {
            Some(id) => Ok(id),
            None => Err(value),
        }
    }

    /// Makes an id of a string of exactly two base-62 characters, keeping their case.
    pub fn try_from_str(value: &str) -> (r: Option<ObjId>)
        ensures
            r.is_some() <==> (value@.len() == 2 && is_base62_char(value@[0]) && is_base62_char(
                value@[1],
            )),
            r.is_some() ==> r.unwrap()@ == (value@[0] as u8, value@[1] as u8),
            r == spec_obj_id(value@),
    {
        if value.unicode_len() != 2 {
            return None;
        }
        match Self::try_from_chars(value.get_char(0), value.get_char(1)) {
            Ok(id) => {
                assert(id == ObjId::spec_new(value@[0] as u8, value@[1] as u8));
                Some(id)
            },
            Err(_) => None,
        }
    }

    /// The id made of two bytes already known to be base-62 digits.
    pub(crate) fn from_digits(b0: u8, b1: u8) -> (r: ObjId)
        requires
            is_base62_byte(b0),
            is_base62_byte(b1),
        ensures
            r@ == (b0, b1),
    {
        ObjId { first: b0, second: b1 }
    }

    /// Instances a special null id, which means the rest object.
    pub fn null() -> (r: ObjId)
        ensures
            r@ == (48u8, 48u8),
            r == ObjId::spec_new(48u8, 48u8),
            Some(r) == spec_obj_id(seq!['0', '0']),
    {
        assert(seq!['0', '0'][0] == '0' && seq!['0', '0'][1] == '0');
        ObjId { first: 48u8, second: 48u8 }
    }

    /// Whether this id is the null id `00`.
    pub fn is_null(self) -> (r: bool)
        ensures
            r == (self@ == (48u8, 48u8)),
    {
        self.first == 48u8 && self.second == 48u8
    }

    /// The two characters of the id.
    pub fn as_chars(self) -> (r: (char, char))
        ensures
            r == (self@.0 as char, self@.1 as char),
    {
        (self.first as char, self.second as char)
    }

    /// Converts the object id into an `u16` value.
    pub fn as_u16(self) -> (r: u16)
        ensures
            r as int == obj_id_value(self@),
            r < 3844,
    {
        let d0 = base62_to_byte(self.first) as u16;
        let d1 = base62_to_byte(self.second) as u16;
        d0 * 62 + d1
    }

    /// Converts the object id into an `u32` value.
    pub fn as_u32(self) -> (r: u32)
        ensures
            r as int == obj_id_value(self@),
    {
        self.as_u16() as u32
    }

    /// Converts the object id into an `u64` value.
    pub fn as_u64(self) -> (r: u64)
        ensures
            r as int == obj_id_value(self@),
    {
        self.as_u16() as u64
    }

    /// Makes the object id uppercase.
    pub fn make_uppercase(&mut self)
        ensures
            final(self)@ == (upper_byte(old(self)@.0), upper_byte(old(self)@.1)),
            *final(self) == old(self).spec_upper(),
    {
        let f = to_ascii_upper(self.first);
        let s = to_ascii_upper(self.second);
        *self = ObjId { first: f, second: s };
    }
}

proof fn lemma_char_byte(c: char)
    requires
        is_base62_char(c),
    ensures
        (c as u8) as char == c,
        is_base62_byte(c as u8),
        (upper_byte(c as u8)) as char == upper_char(c),
{
}

/// A two-character base-62 string read as an object id gives its characters back; read without
/// case sensitivity (the id uppercased), it gives back their ASCII uppercase.
pub proof fn lemma_obj_id_round_trip(s: Seq<char>)
    requires
        s.len() == 2,
        is_base62_char(s[0]),
        is_base62_char(s[1]),
    ensures
        spec_obj_id(s).is_some(),
        (spec_obj_id(s).unwrap()@.0 as char, spec_obj_id(s).unwrap()@.1 as char) == (s[0], s[1]),
        (spec_obj_id(s).unwrap().spec_upper()@.0 as char, spec_obj_id(s).unwrap().spec_upper()@.1 as char)
            == (upper_char(s[0]), upper_char(s[1])),
{
    lemma_char_byte(s[0]);
    lemma_char_byte(s[1]);
}

/// The ASCII uppercase of a byte.
pub fn to_ascii_upper(b: u8) -> (r: u8)
    ensures
        r == upper_byte(b),
        is_base62_byte(b) ==> is_base62_byte(r),
{
    if 97u8 <= b && b <= 122u8 {
        b - 32
    } else {
        b
    }
}

/// A play volume of the sound in the score. Defaults to 100.
#[derive(Debug, Clone, Copy, PartialEq, Eq, Hash, Structural)]
pub struct Volume {
    /// A play volume percentage of the sound.
    pub relative_percent: u8,
}

impl Default for Volume {
    fn default() -> (r: Volume)
        ensures
            r.relative_percent == 100,
    {
        Volume { relative_percent: 100 }
    }
}

/// An alpha-red-green-blue color data.
#[derive(Debug, Clone, Copy, PartialEq, Eq, Hash, Structural)]
pub struct Argb {
    /// A component of alpha.
    pub alpha: u8,
    /// A component of red.
    pub red: u8,
    /// A component of green.
    pub green: u8,
    /// A component of blue.
    pub blue: u8,
}

impl Default for Argb {
    fn default() -> (r: Argb)
        ensures
            r == (Argb { alpha: 255, red: 0, green: 0, blue: 0 }),
    {
        Argb { alpha: 255, red: 0, green: 0, blue: 0 }
    }
}

/// A kind of the note.
#[derive(Debug, Clone, Copy, PartialEq, Eq, Hash, Structural)]
pub enum NoteKind {
    /// A normal note can be seen by the user.
    Visible,
    /// A invisible note cannot be played by the user.
    Invisible,
    /// A long-press note (LN), requires the user to hold pressing the key.
    Long,
    /// A landmine note that is treated as POOR judgement when pressed.
    Landmine,
}

impl NoteKind {
    /// Returns whether the note is a playable.
    pub fn is_playable(self) -> (r: bool)
        ensures
            r == !(self is Invisible),
    {
        !matches!(self, NoteKind::Invisible)
    }

    /// Returns whether the note is a long-press note.
    pub fn is_long(self) -> (r: bool)
        ensures
            r == (self is Long),
    {
        matches!(self, NoteKind::Long)
    }
}

/// A key of the controller or keyboard.
#[derive(Debug, Clone, Copy, PartialEq, Eq, Hash, Structural)]
pub enum Key {
    /// The leftmost white key.
    Key1,
    /// The leftmost black key.
    Key2,
    /// The second white key from the left.
    Key3,
    /// The second black key from the left.
    Key4,
    /// The third white key from the left.
    Key5,
    /// The rightmost black key.
    Key6,
    /// The rightmost white key.
    Key7,
    /// The extra black key. Used in PMS or other modes.
    Key8,
    /// The extra white key. Used in PMS or other modes.
    Key9,
    /// The extra key for OCT/FP.
    Key10,
    /// The extra key for OCT/FP.
    Key11,
    /// The extra key for OCT/FP.
    Key12,
    /// The extra key for OCT/FP.
    Key13,
    /// The extra key for OCT/FP.
    Key14,
    /// The scratch disk.
    Scratch,
    /// The extra scratch disk on the right. Used in DSC and OCT/FP mode.
    ScratchExtra,
    /// The foot pedal.
    FootPedal,
    /// The zone that the user can scratch disk freely.
    FreeZone,
}

/// A POOR BGA display mode.
#[derive(Debug, Clone, Copy, PartialEq, Eq, Hash, Structural)]
pub enum PoorMode {
    /// To hide the normal BGA and display the POOR BGA.
    Interrupt,
    /// To overlap the POOR BGA onto the normal BGA.
    Overlay,
    /// Not to display the POOR BGA.
    Hidden,
}

impl Default for PoorMode {
    fn default() -> (r: PoorMode)
        ensures
            r == PoorMode::Interrupt,
    {
        PoorMode::Interrupt
    }
}

impl PoorMode {
    /// The mode that the `#POORBGA` argument `arg` names, if any.
    pub open spec fn spec_from_arg(arg: Seq<char>) -> Option<PoorMode> {
        if arg == seq!['0'] {
            Some(PoorMode::Interrupt)
        } else if arg == seq!['1'] {
            Some(PoorMode::Overlay)
        } else if arg == seq!['2'] {
            Some(PoorMode::Hidden)
        } else {
            None
        }
    }

    /// Reads the argument of `#POORBGA`: `0`, `1` or `2`.
    pub fn from_arg(arg: &str) -> (r: Option<PoorMode>)
        ensures
            r == Self::spec_from_arg(arg@),
    {
        if arg.unicode_len() != 1 {
            return None;
        }
        let c = arg.get_char(0);
        assert(arg@ =~= seq![c]);
        if c == '0' {
            Some(PoorMode::Interrupt)
        } else if c == '1' {
            Some(PoorMode::Overlay)
        } else if c == '2' {
            Some(PoorMode::Hidden)
        } else {
            None
        }
    }
}

/// A track, or bar, in the score. Some scores include the 0 track.
#[derive(Debug, Clone, Copy, PartialEq, Eq, PartialOrd, Ord, Hash, Structural)]
pub struct Track(pub u32);

/// Pan value for the ExWav sound effect, in `[-10000, 10000]`.
/// -10000 is leftmost, 10000 is rightmost. Defaults to 0.
#[derive(Debug, Clone, Copy, PartialEq, Eq, Hash, Structural)]
pub struct ExWavPan(i64);

impl View for ExWavPan {
    type V = i64;

    closed spec fn view(&self) -> i64 {
        self.0
    }
}

/// Clamps `v` into `[lo, hi]`.
pub open spec fn clamp(v: int, lo: int, hi: int) -> int {
    if v < lo {
        lo
    } else if v > hi {
        hi
    } else {
        v
    }
}

impl ExWavPan {
    /// The value holding `v`.
    pub closed spec fn spec_new(v: i64) -> ExWavPan {
        ExWavPan(v)
    }

    #[verifier::type_invariant]
    spec fn in_range(self) -> bool {
        -10000 <= self.0 <= 10000
    }

    /// Creates a new pan value, or `None` when `value` is outside `[-10000, 10000]`.
    pub fn new(value: i64) -> (r: Option<ExWavPan>)
        ensures
            r.is_some() <==> -10000 <= value <= 10000,
            r.is_some() ==> r.unwrap()@ == value,
            r.is_some() ==> r.unwrap() == ExWavPan::spec_new(value),
    {
        if -10000 <= value && value <= 10000 {
            Some(ExWavPan(value))
        } else {
            None
        }
    }

    /// Creates a new pan value; out of range, the error holds `value` clamped into the range.
    pub fn try_from(value: i64) -> (r: Result<ExWavPan, i64>)
        ensures
            r.is_ok() <==> -10000 <= value <= 10000,
            r.is_ok() ==> r.unwrap()@ == value,
            r.is_err() ==> r == Err::<ExWavPan, i64>(clamp(value as int, -10000, 10000) as i64),
    {
        match Self::new(value) {
            Some(p) => Ok(p),
            None => Err(if value < -10000 {
                -10000
            } else {
                10000
            }),
        }
    }

    /// Returns the underlying value.
    pub fn value(self) -> (r: i64)
        ensures
            r == self@,
            -10000 <= r <= 10000,
    {
        proof {
            use_type_invariant(&self);
        }
        self.0
    }

    /// Returns the default value (0).
    pub fn default() -> (r: ExWavPan)
        ensures
            r@ == 0,
            r == ExWavPan::spec_new(0),
    {
        ExWavPan(0)
    }
}

/// Volume value for the ExWav sound effect, in `[-10000, 0]`.
/// -10000 is 0%, 0 is 100%. Defaults to 0.
#[derive(Debug, Clone, Copy, PartialEq, Eq, Hash, Structural)]
pub struct ExWavVolume(i64);

impl View for ExWavVolume {
    type V = i64;

    closed spec fn view(&self) -> i64 {
        self.0
    }
}

impl ExWavVolume {
    /// The value holding `v`.
    pub closed spec fn spec_new(v: i64) -> ExWavVolume {
        ExWavVolume(v)
    }

    #[verifier::type_invariant]
    spec fn in_range(self) -> bool {
        -10000 <= self.0 <= 0
    }

    /// Creates a new volume value, or `None` when `value` is outside `[-10000, 0]`.
    pub fn new(value: i64) -> (r: Option<ExWavVolume>)
        ensures
            r.is_some() <==> -10000 <= value <= 0,
            r.is_some() ==> r.unwrap()@ == value,
            r.is_some() ==> r.unwrap() == ExWavVolume::spec_new(value),
    {
        if -10000 <= value && value <= 0 {
            Some(ExWavVolume(value))
        } else {
            None
        }
    }

    /// Creates a new volume value; out of range, the error holds `value` clamped into the range.
    pub fn try_from(value: i64) -> (r: Result<ExWavVolume, i64>)
        ensures
            r.is_ok() <==> -10000 <= value <= 0,
            r.is_ok() ==> r.unwrap()@ == value,
            r.is_err() ==> r == Err::<ExWavVolume, i64>(clamp(value as int, -10000, 0) as i64),
    {
        match Self::new(value) {
            Some(v) => Ok(v),
            None => Err(if value < -10000 {
                -10000
            } else {
                0
            }),
        }
    }

    /// Returns the underlying value.
    pub fn value(self) -> (r: i64)
        ensures
            r == self@,
            -10000 <= r <= 0,
    {
        proof {
            use_type_invariant(&self);
        }
        self.0
    }

    /// Returns the default value (0).
    pub fn default() -> (r: ExWavVolume)
        ensures
            r@ == 0,
            r == ExWavVolume::spec_new(0),
    {
        ExWavVolume(0)
    }
}

/// Frequency value for the ExWav sound effect, in `[100, 100000]` Hz.
#[derive(Debug, Clone, Copy, PartialEq, Eq, Hash, Structural)]
pub struct ExWavFrequency(u64);

impl View for ExWavFrequency {
    type V = u64;

    closed spec fn view(&self) -> u64 {
        self.0
    }
}

impl ExWavFrequency {
    /// The value holding `v`.
    pub closed spec fn spec_new(v: u64) -> ExWavFrequency {
        ExWavFrequency(v)
    }

    #[verifier::type_invariant]
    spec fn in_range(self) -> bool {
        100 <= self.0 <= 100000
    }

    /// Creates a new frequency value, or `None` when `value` is outside `[100, 100000]`.
    pub fn new(value: u64) -> (r: Option<ExWavFrequency>)
        ensures
            r.is_some() <==> 100 <= value <= 100000,
            r.is_some() ==> r.unwrap()@ == value,
            r.is_some() ==> r.unwrap() == ExWavFrequency::spec_new(value),
    {
        if 100 <= value && value <= 100000 {
            Some(ExWavFrequency(value))
        } else {
            None
        }
    }

    /// Creates a new frequency value; out of range, the error holds `value` clamped into the range.
    pub fn try_from(value: u64) -> (r: Result<ExWavFrequency, u64>)
        ensures
            r.is_ok() <==> 100 <= value <= 100000,
            r.is_ok() ==> r.unwrap()@ == value,
            r.is_err() ==> r == Err::<ExWavFrequency, u64>(clamp(value as int, 100, 100000) as u64),
    {
        match Self::new(value) {
            Some(f) => Ok(f),
            None => Err(if value < 100 {
                100
            } else {
                100000
            }),
        }
    }

    /// Returns the underlying value.
    pub fn value(self) -> (r: u64)
        ensures
            r == self@,
            100 <= r <= 100000,
    {
        proof {
            use_type_invariant(&self);
        }
        self.0
    }
}

/// A side of the player.
#[derive(Debug, Clone, Copy, PartialEq, Eq, Hash, Structural)]
pub enum PlayerSide {
    /// The player 1 side.
    Player1,
    /// The player 2 side.
    Player2,
}

impl Default for PlayerSide {
    fn default() -> (r: PlayerSide)
        ensures
            r == PlayerSide::Player1,
    {
        PlayerSide::Player1
    }
}

} // verus!
