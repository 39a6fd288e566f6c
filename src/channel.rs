//! Channels of message lines, and the parsers of channel codes for each key layout.
//!
//! - `read_channel_beat` for Beat 5K/7K/10K/14K
//! - `read_channel_pms_bme_type` for PMS BME-type
//! - `read_channel_pms` for PMS
//! - `read_channel_beat_nanasi` for Beat nanasi/angolmois
//! - `read_channel_dsc_oct_fp` for DSC & OCT/FP
use vstd::prelude::*;

use crate::command::{uppercase, uppercase_chars, Key, NoteKind, PlayerSide};

verus! {

/// The channel, or lane, where the object will be on.
#[derive(Debug, Clone, Copy, PartialEq, Eq, Hash, Structural)]
pub enum Channel {
    /// The BGA channel.
    BgaBase,
    /// The BGA channel but overlay to [`Channel::BgaBase`] channel.
    BgaLayer,
    /// The POOR BGA channel.
    BgaPoor,
    /// For the note which will be auto-played.
    Bgm,
    /// For the bpm change by an [`u8`] integer.
    BpmChangeU8,
    /// For the bpm change object.
    BpmChange,
    /// For the change option object.
    ChangeOption,
    /// For the note which the user can interact.
    Note {
        /// The kind of the note.
        kind: NoteKind,
        /// The note for the player side.
        side: PlayerSide,
        /// The key which corresponds to the note.
        key: Key,
    },
    /// For the section length change object.
    SectionLen,
    /// For the stop object.
    Stop,
    /// For the scroll speed change object.
    Scroll,
    /// For the note spacing change object.
    Speed,
}

/// A key layout, which selects the channel parser.
#[derive(Debug, Clone, Copy, PartialEq, Eq, Hash, Structural)]
pub enum KeyLayout {
    /// Beat 5K/7K/10K/14K.
    Beat,
    /// PMS BME-type.
    PmsBmeType,
    /// PMS.
    Pms,
    /// Beat nanasi/angolmois.
    BeatNanasi,
    /// DSC & OCT/FP.
    DscOctFp,
}

/// The non-note channel that a code names, compared after uppercasing (Unicode uppercasing, so
/// that the long s of `ſc` reads as `S`).
pub open spec fn spec_channel_general(s: Seq<char>) -> Option<Channel> {
    let u = uppercase(s);
    if u.len() != 2 {
        None
    } else {
        let a = u[0];
        let b = u[1];
        if a == '0' && b == '1' {
            Some(Channel::Bgm)
        } else if a == '0' && b == '2' {
            Some(Channel::SectionLen)
        } else if a == '0' && b == '3' {
            Some(Channel::BpmChangeU8)
        } else if a == '0' && b == '8' {
            Some(Channel::BpmChange)
        } else if a == '0' && b == '4' {
            Some(Channel::BgaBase)
        } else if a == '0' && b == '6' {
            Some(Channel::BgaPoor)
        } else if a == '0' && b == '7' {
            Some(Channel::BgaLayer)
        } else if a == '0' && b == '9' {
            Some(Channel::Stop)
        } else if a == 'S' && b == 'C' {
            Some(Channel::Scroll)
        } else if a == 'S' && b == 'P' {
            Some(Channel::Speed)
        } else {
            None
        }
    }
}

/// The note kind and side that the first character of a note channel selects.
pub open spec fn spec_note_kind(c: char) -> Option<(NoteKind, PlayerSide)> {
    if c == '1' {
        Some((NoteKind::Visible, PlayerSide::Player1))
    } else if c == '2' {
        Some((NoteKind::Visible, PlayerSide::Player2))
    } else if c == '3' {
        Some((NoteKind::Invisible, PlayerSide::Player1))
    } else if c == '4' {
        Some((NoteKind::Invisible, PlayerSide::Player2))
    } else if c == '5' {
        Some((NoteKind::Long, PlayerSide::Player1))
    } else if c == '6' {
        Some((NoteKind::Long, PlayerSide::Player2))
    } else if c == 'D' {
        Some((NoteKind::Landmine, PlayerSide::Player1))
    } else if c == 'E' {
        Some((NoteKind::Landmine, PlayerSide::Player2))
    } else {
        None
    }
}

/// The key that the second character of a note channel selects in the Beat layout.
pub open spec fn spec_key_beat(c: char) -> Option<Key> {
    if c == '1' {
        Some(Key::Key1)
    } else if c == '2' {
        Some(Key::Key2)
    } else if c == '3' {
        Some(Key::Key3)
    } else if c == '4' {
        Some(Key::Key4)
    } else if c == '5' {
        Some(Key::Key5)
    } else if c == '6' {
        Some(Key::Scratch)
    } else if c == '7' {
        Some(Key::FreeZone)
    } else if c == '8' {
        Some(Key::Key6)
    } else if c == '9' {
        Some(Key::Key7)
    } else {
        None
    }
}

/// The key that the second character of a note channel selects in the PMS BME-type layout.
pub open spec fn spec_key_pms_bme_type(c: char) -> Option<Key> {
    if c == '1' {
        Some(Key::Key1)
    } else if c == '2' {
        Some(Key::Key2)
    } else if c == '3' {
        Some(Key::Key3)
    } else if c == '4' {
        Some(Key::Key4)
    } else if c == '5' {
        Some(Key::Key5)
    } else if c == '6' {
        Some(Key::Key8)
    } else if c == '7' {
        Some(Key::Key9)
    } else if c == '8' {
        Some(Key::Key6)
    } else if c == '9' {
        Some(Key::Key7)
    } else {
        None
    }
}

/// The note kind, side and key of a note code; the key is read with the PMS BME-type table when
/// `bme_keys`, else with the Beat table.
pub open spec fn spec_note_parts(s: Seq<char>, bme_keys: bool) -> Option<(NoteKind, PlayerSide, Key)> {
    if s.len() < 2 {
        None
    } else {
        let ks = spec_note_kind(s[0]);
        let k = if bme_keys {
            spec_key_pms_bme_type(s[1])
        } else {
            spec_key_beat(s[1])
        };
        if ks.is_some() && k.is_some() {
            Some((ks.unwrap().0, ks.unwrap().1, k.unwrap()))
        } else {
            None
        }
    }
}

/// The channel of a code in the Beat layout.
pub open spec fn spec_channel_beat(s: Seq<char>) -> Option<Channel> {
    if spec_channel_general(s).is_some() {
        spec_channel_general(s)
    } else {
        match spec_note_parts(s, false) {
            Some((kind, side, key)) => Some(Channel::Note { kind, side, key }),
            None => None,
        }
    }
}

/// The channel of a code in the PMS BME-type layout.
pub open spec fn spec_channel_pms_bme_type(s: Seq<char>) -> Option<Channel> {
    if spec_channel_general(s).is_some() {
        spec_channel_general(s)
    } else {
        match spec_note_parts(s, true) {
            Some((kind, side, key)) => Some(Channel::Note { kind, side, key }),
            None => None,
        }
    }
}

/// The PMS key that a BME-type side and key are translated into.
pub open spec fn spec_pms_key(side: PlayerSide, key: Key) -> Option<Key> {
    match side {
        PlayerSide::Player1 => match key {
            Key::Key1 | Key::Key2 | Key::Key3 | Key::Key4 | Key::Key5 => Some(key),
            _ => None,
        },
        PlayerSide::Player2 => match key {
            Key::Key2 => Some(Key::Key6),
            Key::Key3 => Some(Key::Key7),
            Key::Key4 => Some(Key::Key8),
            Key::Key5 => Some(Key::Key9),
            _ => None,
        },
    }
}

/// The channel of a code in the PMS layout: player 2 keys become the extra keys of player 1.
pub open spec fn spec_channel_pms(s: Seq<char>) -> Option<Channel> {
    if spec_channel_general(s).is_some() {
        spec_channel_general(s)
    } else {
        match spec_note_parts(s, true) {
            Some((kind, side, key)) => match spec_pms_key(side, key) {
                Some(k) => Some(Channel::Note { kind, side: PlayerSide::Player1, key: k }),
                None => None,
            },
            None => None,
        }
    }
}

/// The nanasi key that a Beat key is translated into.
pub open spec fn spec_nanasi_key(key: Key) -> Option<Key> {
    match key {
        Key::Key1 | Key::Key2 | Key::Key3 | Key::Key4 | Key::Key5 | Key::Scratch => Some(key),
        Key::FreeZone => Some(Key::FootPedal),
        _ => None,
    }
}

/// The channel of a code in the Beat nanasi/angolmois layout.
pub open spec fn spec_channel_beat_nanasi(s: Seq<char>) -> Option<Channel> {
    if spec_channel_general(s).is_some() {
        spec_channel_general(s)
    } else {
        match spec_note_parts(s, false) {
            Some((kind, side, key)) => match spec_nanasi_key(key) {
                Some(k) => Some(Channel::Note { kind, side, key: k }),
                None => None,
            },
            None => None,
        }
    }
}

/// The DSC/OCT-FP key that a Beat side and key are translated into.
pub open spec fn spec_dsc_key(side: PlayerSide, key: Key) -> Option<Key> {
    match side {
        PlayerSide::Player1 => match key {
            Key::Key1 | Key::Key2 | Key::Key3 | Key::Key4 | Key::Key5 | Key::Key6 | Key::Key7
            | Key::Scratch => Some(key),
            _ => None,
        },
        PlayerSide::Player2 => match key {
            Key::Key1 => Some(Key::FootPedal),
            Key::Key2 => Some(Key::Key8),
            Key::Key3 => Some(Key::Key9),
            Key::Key4 => Some(Key::Key10),
            Key::Key5 => Some(Key::Key11),
            Key::Key6 => Some(Key::Key12),
            Key::Key7 => Some(Key::Key13),
            Key::Scratch => Some(Key::ScratchExtra),
            _ => None,
        },
    }
}

/// The channel of a code in the DSC & OCT/FP layout.
pub open spec fn spec_channel_dsc_oct_fp(s: Seq<char>) -> Option<Channel> {
    if spec_channel_general(s).is_some() {
        spec_channel_general(s)
    } else {
        match spec_note_parts(s, false) {
            Some((kind, side, key)) => match spec_dsc_key(side, key) {
                Some(k) => Some(Channel::Note { kind, side: PlayerSide::Player1, key: k }),
                None => None,
            },
            None => None,
        }
    }
}

/// The channel of a code in the given layout.
pub open spec fn spec_read_channel(layout: KeyLayout, s: Seq<char>) -> Option<Channel> {
    match layout {
        KeyLayout::Beat => spec_channel_beat(s),
        KeyLayout::PmsBmeType => spec_channel_pms_bme_type(s),
        KeyLayout::Pms => spec_channel_pms(s),
        KeyLayout::BeatNanasi => spec_channel_beat_nanasi(s),
        KeyLayout::DscOctFp => spec_channel_dsc_oct_fp(s),
    }
}

/// Reads a non-note channel from a code, compared case-insensitively.
fn read_channel_general(channel: &str) -> (r: Option<Channel>)
    ensures
        r == spec_channel_general(channel@),
{
    let u = uppercase_chars(channel);
    if u.len() != 2 {
        return None;
    }
    let a = u[0];
    let b = u[1];
    if a == '0' && b == '1' {
        Some(Channel::Bgm)
    } else if a == '0' && b == '2' {
        Some(Channel::SectionLen)
    } else if a == '0' && b == '3' {
        Some(Channel::BpmChangeU8)
    } else if a == '0' && b == '8' {
        Some(Channel::BpmChange)
    } else if a == '0' && b == '4' {
        Some(Channel::BgaBase)
    } else if a == '0' && b == '6' {
        Some(Channel::BgaPoor)
    } else if a == '0' && b == '7' {
        Some(Channel::BgaLayer)
    } else if a == '0' && b == '9' {
        Some(Channel::Stop)
    } else if a == 'S' && b == 'C' {
        Some(Channel::Scroll)
    } else if a == 'S' && b == 'P' {
        Some(Channel::Speed)
    } else {
        None
    }
}

/// Reads a note kind and player side from a character.
fn get_note_kind_general(kind_char: char) -> (r: Option<(NoteKind, PlayerSide)>)
    ensures
        r == spec_note_kind(kind_char),
{
    match kind_char {
        '1' => Some((NoteKind::Visible, PlayerSide::Player1)),
        '2' => Some((NoteKind::Visible, PlayerSide::Player2)),
        '3' => Some((NoteKind::Invisible, PlayerSide::Player1)),
        '4' => Some((NoteKind::Invisible, PlayerSide::Player2)),
        '5' => Some((NoteKind::Long, PlayerSide::Player1)),
        '6' => Some((NoteKind::Long, PlayerSide::Player2)),
        'D' => Some((NoteKind::Landmine, PlayerSide::Player1)),
        'E' => Some((NoteKind::Landmine, PlayerSide::Player2)),
        _ => None,
    }
}

/// Reads a key from a character in the Beat layout.
fn get_key_beat(key: char) -> (r: Option<Key>)
    ensures
        r == spec_key_beat(key),
{
    match key {
        '1' => Some(Key::Key1),
        '2' => Some(Key::Key2),
        '3' => Some(Key::Key3),
        '4' => Some(Key::Key4),
        '5' => Some(Key::Key5),
        '6' => Some(Key::Scratch),
        '7' => Some(Key::FreeZone),
        '8' => Some(Key::Key6),
        '9' => Some(Key::Key7),
        _ => None,
    }
}

/// Reads a key from a character in the PMS BME-type layout.
fn get_key_pms_bme_type(key: char) -> (r: Option<Key>)
    ensures
        r == spec_key_pms_bme_type(key),
{
    match key {
        '1' => Some(Key::Key1),
        '2' => Some(Key::Key2),
        '3' => Some(Key::Key3),
        '4' => Some(Key::Key4),
        '5' => Some(Key::Key5),
        '6' => Some(Key::Key8),
        '7' => Some(Key::Key9),
        '8' => Some(Key::Key6),
        '9' => Some(Key::Key7),
        _ => None,
    }
}

/// Reads the kind, side and key of a note code.
fn read_note_parts(channel: &str, bme_keys: bool) -> (r: Option<(NoteKind, PlayerSide, Key)>)
    ensures
        r == spec_note_parts(channel@, bme_keys),
{
    if channel.unicode_len() < 2 {
        return None;
    }
    let (kind, side) = match get_note_kind_general(channel.get_char(0)) {
        Some(ks) => ks,
        None => return None,
    };
    let key = if bme_keys {
        get_key_pms_bme_type(channel.get_char(1))
    } else {
        get_key_beat(channel.get_char(1))
    };
    match key {
        Some(k) => Some((kind, side, k)),
        None => None,
    }
}

/// Reads a channel from a code. (For Beat 5K/7K/10K/14K)
pub fn read_channel_beat(channel: &str) -> (r: Option<Channel>)
    ensures
        r == spec_channel_beat(channel@),
{
    if let Some(ch) = read_channel_general(channel) {
        return Some(ch);
    }
    match read_note_parts(channel, false) {
        Some((kind, side, key)) => Some(Channel::Note { kind, side, key }),
        None => None,
    }
}

/// Reads a channel from a code. (For PMS BME-type, 9 keys with 2 players)
pub fn read_channel_pms_bme_type(channel: &str) -> (r: Option<Channel>)
    ensures
        r == spec_channel_pms_bme_type(channel@),
{
    if let Some(ch) = read_channel_general(channel) {
        return Some(ch);
    }
    match read_note_parts(channel, true) {
        Some((kind, side, key)) => Some(Channel::Note { kind, side, key }),
        None => None,
    }
}

/// Reads a channel from a code. (For PMS)
pub fn read_channel_pms(channel: &str) -> (r: Option<Channel>)
    ensures
        r == spec_channel_pms(channel@),
{
    if let Some(ch) = read_channel_general(channel) {
        return Some(ch);
    }
    let (kind, side, bme_key) = match read_note_parts(channel, true) {
        Some(parts) => parts,
        None => return None,
    };
    let key = match side {
        PlayerSide::Player1 => match bme_key {
            Key::Key1 | Key::Key2 | Key::Key3 | Key::Key4 | Key::Key5 => bme_key,
            _ => return None,
        },
        PlayerSide::Player2 => match bme_key {
            Key::Key2 => Key::Key6,
            Key::Key3 => Key::Key7,
            Key::Key4 => Key::Key8,
            Key::Key5 => Key::Key9,
            _ => return None,
        },
    };
    Some(Channel::Note { kind, side: PlayerSide::Player1, key })
}

/// Reads a channel from a code. (For Beat nanasi/angolmois)
pub fn read_channel_beat_nanasi(channel: &str) -> (r: Option<Channel>)
    ensures
        r == spec_channel_beat_nanasi(channel@),
{
    if let Some(ch) = read_channel_general(channel) {
        return Some(ch);
    }
    let (kind, side, bme_key) = match read_note_parts(channel, false) {
        Some(parts) => parts,
        None => return None,
    };
    let key = match bme_key {
        Key::Key1 | Key::Key2 | Key::Key3 | Key::Key4 | Key::Key5 | Key::Scratch => bme_key,
        Key::FreeZone => Key::FootPedal,
        _ => return None,
    };
    Some(Channel::Note { kind, side, key })
}

/// Reads a channel from a code. (For DSC & OCT/FP: the keys of player 2 become the extra keys,
/// the foot pedal and the extra scratch of player 1)
pub fn read_channel_dsc_oct_fp(channel: &str) -> (r: Option<Channel>)
    ensures
        r == spec_channel_dsc_oct_fp(channel@),
{
    if let Some(ch) = read_channel_general(channel) {
        return Some(ch);
    }
    let (kind, side, bme_key) = match read_note_parts(channel, false) {
        Some(parts) => parts,
        None => return None,
    };
    let key = match side {
        PlayerSide::Player1 => match bme_key {
            Key::Key1 | Key::Key2 | Key::Key3 | Key::Key4 | Key::Key5 | Key::Key6 | Key::Key7
            | Key::Scratch => bme_key,
            _ => return None,
        },
        PlayerSide::Player2 => match bme_key {
            Key::Key1 => Key::FootPedal,
            Key::Key2 => Key::Key8,
            Key::Key3 => Key::Key9,
            Key::Key4 => Key::Key10,
            Key::Key5 => Key::Key11,
            Key::Key6 => Key::Key12,
            Key::Key7 => Key::Key13,
            Key::Scratch => Key::ScratchExtra,
            _ => return None,
        },
    };
    Some(Channel::Note { kind, side: PlayerSide::Player1, key })
}

impl KeyLayout {
    /// Reads a channel from a code with the parser of this layout.
    pub fn read_channel(self, channel: &str) -> (r: Option<Channel>)
        ensures
            r == spec_read_channel(self, channel@),
    {
        match self {
            KeyLayout::Beat => read_channel_beat(channel),
            KeyLayout::PmsBmeType => read_channel_pms_bme_type(channel),
            KeyLayout::Pms => read_channel_pms(channel),
            KeyLayout::BeatNanasi => read_channel_beat_nanasi(channel),
            KeyLayout::DscOctFp => read_channel_dsc_oct_fp(channel),
        }
    }
}

/// In every layout the code `00` names no channel and the code `01` names the BGM channel.
pub proof fn lemma_layouts_share_general_channels(layout: KeyLayout)
    ensures
        spec_read_channel(layout, seq!['0', '0']).is_none(),
        spec_read_channel(layout, seq!['0', '1']) == Some(Channel::Bgm),
{
    assert(seq!['0', '0'][0] == '0' && seq!['0', '0'][1] == '0');
    assert(seq!['0', '1'][0] == '0' && seq!['0', '1'][1] == '1');
    assert(crate::command::all_ascii(seq!['0', '0']));
    assert(crate::command::all_ascii(seq!['0', '1']));
    assert(uppercase(seq!['0', '0']) =~= seq!['0', '0']);
    assert(uppercase(seq!['0', '1']) =~= seq!['0', '1']);
}

} // verus!
