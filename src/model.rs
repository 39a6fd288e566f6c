//! The score model and the processors that build it from a resolved token stream.
//!
//! Each processor owns one family of commands: header values (the last one wins), tables of
//! definitions (a prompter decides on redefinitions), and the objects that messages place.
use vstd::prelude::*;

use crate::channel::Channel;
use crate::command::{
    Argb, ExWavFrequency, ExWavPan, ExWavVolume, JudgeLevel, ObjId, PlayerMode, PoorMode, Track,
    Volume,
};
use crate::defs::{spec_define, spec_define_warns, Defs, Prompter};
use crate::lexer::{TokenStream, TokenWithRange};
use crate::message::{
    filter_message, is_before, number_chars, FilteredText, parse_hex_values, parse_obj_ids, spec_hex_values,
    spec_hex_warnings, spec_obj_ids, spec_parse_obj_ids_warnings, time_before, ObjTime,
    ParseWarning, ParseWarningWithRange,
};
use crate::random::{resolve_control_flow, spec_resolve, ControlFlowWarningWithRange};
use crate::processor::{
    assemble, DefinitionsProcessor, HeaderProcessor, ObjectsProcessor, RepresentationProcessor,
    TokenProcessor,
};
use crate::token::{PixelPoint, PixelSize, Token};

verus! {

/// A sound with effects, defined by `#EXWAVxx`.
#[derive(Debug, Clone, Copy, PartialEq, Eq, Hash)]
pub struct ExWavDef<'a> {
    /// The pan of the sound.
    pub pan: ExWavPan,
    /// The volume of the sound.
    pub volume: ExWavVolume,
    /// The frequency of the sound, if given.
    pub frequency: Option<ExWavFrequency>,
    /// The sound file.
    pub path: &'a str,
}

/// An image with a transparent color, defined by `#EXBMPxx`.
#[derive(Debug, Clone, Copy, PartialEq, Eq, Hash)]
pub struct ExBmpDef<'a> {
    /// The color treated as transparent.
    pub argb: Argb,
    /// The image file.
    pub path: &'a str,
}

/// A trimmed image, defined by `#@BGAxx`.
#[derive(Debug, Clone, Copy, PartialEq, Eq, Hash, Structural)]
pub struct AtBgaDef {
    /// The image trimmed.
    pub source_bmp: ObjId,
    /// The top left point of the trim area.
    pub trim_top_left: PixelPoint,
    /// The size of the trim area.
    pub trim_size: PixelSize,
    /// The point where the image is drawn.
    pub draw_point: PixelPoint,
}

/// A trimmed image, defined by `#BGAxx`.
#[derive(Debug, Clone, Copy, PartialEq, Eq, Hash, Structural)]
pub struct BgaDef {
    /// The image trimmed.
    pub source_bmp: ObjId,
    /// The top left point of the trim area.
    pub trim_top_left: PixelPoint,
    /// The bottom right point of the trim area.
    pub trim_bottom_right: PixelPoint,
    /// The point where the image is drawn.
    pub draw_point: PixelPoint,
}

/// An object placed on the timeline by a message.
#[derive(Debug, Clone, Copy, PartialEq, Eq, Hash, Structural)]
pub struct Obj {
    /// The position of the object.
    pub offset: ObjTime,
    /// The channel of the message.
    pub channel: Channel,
    /// The id of the object.
    pub id: ObjId,
}

/// The definition that a token makes for `#WAVxx`: the sound files.
pub open spec fn sel_wav_files<'a>(t: Token<&'a str>) -> Option<(ObjId, &'a str)> {
    match t {
        Token::Wav(id, p) => Some((id, p)),
        _ => None,
    }
}

/// The definition that a token makes for `#BMPxx`: the image files.
pub open spec fn sel_bmp_files<'a>(t: Token<&'a str>) -> Option<(ObjId, &'a str)> {
    match t {
        Token::Bmp(Some(id), p) => Some((id, p)),
        _ => None,
    }
}

/// The definition that a token makes for `#BPMxx`: the tempos of BPM change objects.
pub open spec fn sel_bpm_defs<'a>(t: Token<&'a str>) -> Option<(ObjId, &'a str)> {
    match t {
        Token::BpmChange(id, v) => Some((id, v)),
        _ => None,
    }
}

/// The definition that a token makes for `#STOPxx`: the lengths of stops, in 1/192 beats.
pub open spec fn sel_stop_defs<'a>(t: Token<&'a str>) -> Option<(ObjId, u32)> {
    match t {
        Token::Stop(id, v) => Some((id, v)),
        _ => None,
    }
}

/// The definition that a token makes for `#SCROLLxx`: the scroll speed factors.
pub open spec fn sel_scroll_defs<'a>(t: Token<&'a str>) -> Option<(ObjId, &'a str)> {
    match t {
        Token::Scroll(id, v) => Some((id, v)),
        _ => None,
    }
}

/// The definition that a token makes for `#SPEEDxx`: the spacing factors.
pub open spec fn sel_speed_defs<'a>(t: Token<&'a str>) -> Option<(ObjId, &'a str)> {
    match t {
        Token::Speed(id, v) => Some((id, v)),
        _ => None,
    }
}

/// The definition that a token makes for `#EXRANKxx`: the judge levels.
pub open spec fn sel_exrank_defs<'a>(t: Token<&'a str>) -> Option<(ObjId, JudgeLevel)> {
    match t {
        Token::ExRank(id, v) => Some((id, v)),
        _ => None,
    }
}

/// The definition that a token makes for `#EXWAVxx`: the sounds with effects.
pub open spec fn sel_exwav_defs<'a>(t: Token<&'a str>) -> Option<(ObjId, ExWavDef<'a>)> {
    match t {
        Token::ExWav { id, pan, volume, frequency, path } => Some((id, ExWavDef { pan, volume, frequency, path })),
        _ => None,
    }
}

/// The definition that a token makes for `#EXBMPxx`: the images with a transparent color.
pub open spec fn sel_exbmp_defs<'a>(t: Token<&'a str>) -> Option<(ObjId, ExBmpDef<'a>)> {
    match t {
        Token::ExBmp(id, argb, path) => Some((id, ExBmpDef { argb, path })),
        _ => None,
    }
}

/// The definition that a token makes for `#@BGAxx`: the trimmed images, by size.
pub open spec fn sel_atbga_defs<'a>(t: Token<&'a str>) -> Option<(ObjId, AtBgaDef)> {
    match t {
        Token::AtBga { id, source_bmp, trim_top_left, trim_size, draw_point } => Some((id, AtBgaDef { source_bmp, trim_top_left, trim_size, draw_point })),
        _ => None,
    }
}

/// The definition that a token makes for `#BGAxx`: the trimmed images, by corners.
pub open spec fn sel_bga_defs<'a>(t: Token<&'a str>) -> Option<(ObjId, BgaDef)> {
    match t {
        Token::Bga { id, source_bmp, trim_top_left, trim_bottom_right, draw_point } => Some((id, BgaDef { source_bmp, trim_top_left, trim_bottom_right, draw_point })),
        _ => None,
    }
}

/// The definition that a token makes for `#CHANGEOPTIONxx`: the play option changes.
pub open spec fn sel_change_options<'a>(t: Token<&'a str>) -> Option<(ObjId, &'a str)> {
    match t {
        Token::ChangeOption(id, v) => Some((id, v)),
        _ => None,
    }
}

/// The definition that a token makes for `#TEXTxx`: the texts.
pub open spec fn sel_texts<'a>(t: Token<&'a str>) -> Option<(ObjId, &'a str)> {
    match t {
        Token::Text(id, v) => Some((id, v)),
        _ => None,
    }
}

/// The value that a token gives to `#PLAYER`.
pub open spec fn hdr_player<'a>(t: Token<&'a str>) -> Option<PlayerMode> {
    match t {
        Token::Player(v) => Some(v),
        _ => None,
    }
}

/// The value that a token gives to `#GENRE`.
pub open spec fn hdr_genre<'a>(t: Token<&'a str>) -> Option<&'a str> {
    match t {
        Token::Genre(v) => Some(v),
        _ => None,
    }
}

/// The value that a token gives to `#TITLE`.
pub open spec fn hdr_title<'a>(t: Token<&'a str>) -> Option<&'a str> {
    match t {
        Token::Title(v) => Some(v),
        _ => None,
    }
}

/// The value that a token gives to `#SUBTITLE`.
pub open spec fn hdr_subtitle<'a>(t: Token<&'a str>) -> Option<&'a str> {
    match t {
        Token::SubTitle(v) => Some(v),
        _ => None,
    }
}

/// The value that a token gives to `#ARTIST`.
pub open spec fn hdr_artist<'a>(t: Token<&'a str>) -> Option<&'a str> {
    match t {
        Token::Artist(v) => Some(v),
        _ => None,
    }
}

/// The value that a token gives to `#SUBARTIST`.
pub open spec fn hdr_sub_artist<'a>(t: Token<&'a str>) -> Option<&'a str> {
    match t {
        Token::SubArtist(v) => Some(v),
        _ => None,
    }
}

/// The value that a token gives to `#MAKER`.
pub open spec fn hdr_maker<'a>(t: Token<&'a str>) -> Option<&'a str> {
    match t {
        Token::Maker(v) => Some(v),
        _ => None,
    }
}

/// The value that a token gives to `#COMMENT`.
pub open spec fn hdr_comment<'a>(t: Token<&'a str>) -> Option<&'a str> {
    match t {
        Token::Comment(v) => Some(v),
        _ => None,
    }
}

/// The value that a token gives to `%EMAIL`.
pub open spec fn hdr_email<'a>(t: Token<&'a str>) -> Option<&'a str> {
    match t {
        Token::Email(v) => Some(v),
        _ => None,
    }
}

/// The value that a token gives to `%URL`.
pub open spec fn hdr_url<'a>(t: Token<&'a str>) -> Option<&'a str> {
    match t {
        Token::Url(v) => Some(v),
        _ => None,
    }
}

/// The value that a token gives to `#OPTION`.
pub open spec fn hdr_option<'a>(t: Token<&'a str>) -> Option<&'a str> {
    match t {
        Token::PlayOption(v) => Some(v),
        _ => None,
    }
}

/// The value that a token gives to `#DIFFICULTY`.
pub open spec fn hdr_difficulty<'a>(t: Token<&'a str>) -> Option<u8> {
    match t {
        Token::Difficulty(v) => Some(v),
        _ => None,
    }
}

/// The value that a token gives to `#PLAYLEVEL`.
pub open spec fn hdr_play_level<'a>(t: Token<&'a str>) -> Option<u8> {
    match t {
        Token::PlayLevel(v) => Some(v),
        _ => None,
    }
}

/// The value that a token gives to `#RANK`.
pub open spec fn hdr_rank<'a>(t: Token<&'a str>) -> Option<JudgeLevel> {
    match t {
        Token::Rank(v) => Some(v),
        _ => None,
    }
}

/// The value that a token gives to `#TOTAL`.
pub open spec fn hdr_total<'a>(t: Token<&'a str>) -> Option<&'a str> {
    match t {
        Token::Total(v) => Some(v),
        _ => None,
    }
}

/// The value that a token gives to `#BPM`: the base tempo.
pub open spec fn hdr_bpm<'a>(t: Token<&'a str>) -> Option<&'a str> {
    match t {
        Token::Bpm(v) => Some(v),
        _ => None,
    }
}

/// The value that a token gives to `#STAGEFILE`.
pub open spec fn hdr_stage_file<'a>(t: Token<&'a str>) -> Option<&'a str> {
    match t {
        Token::StageFile(v) => Some(v),
        _ => None,
    }
}

/// The value that a token gives to `#BANNER`.
pub open spec fn hdr_banner<'a>(t: Token<&'a str>) -> Option<&'a str> {
    match t {
        Token::Banner(v) => Some(v),
        _ => None,
    }
}

/// The value that a token gives to `#BACKBMP`.
pub open spec fn hdr_back_bmp<'a>(t: Token<&'a str>) -> Option<&'a str> {
    match t {
        Token::BackBmp(v) => Some(v),
        _ => None,
    }
}

/// The value that a token gives to `#MIDIFILE`.
pub open spec fn hdr_midi_file<'a>(t: Token<&'a str>) -> Option<&'a str> {
    match t {
        Token::MidiFile(v) => Some(v),
        _ => None,
    }
}

/// The value that a token gives to `#VIDEOFILE` / `#MOVIE`.
pub open spec fn hdr_video_file<'a>(t: Token<&'a str>) -> Option<&'a str> {
    match t {
        Token::VideoFile(v) => Some(v),
        _ => None,
    }
}

/// The value that a token gives to `#PATH_WAV`.
pub open spec fn hdr_wav_path_root<'a>(t: Token<&'a str>) -> Option<&'a str> {
    match t {
        Token::PathWav(v) => Some(v),
        _ => None,
    }
}

/// The value that a token gives to `#POORBGA`.
pub open spec fn hdr_poor_bga_mode<'a>(t: Token<&'a str>) -> Option<PoorMode> {
    match t {
        Token::PoorBga(v) => Some(v),
        _ => None,
    }
}

/// The value that a token gives to `#VOLWAV`.
pub open spec fn hdr_volume<'a>(t: Token<&'a str>) -> Option<Volume> {
    match t {
        Token::VolWav(v) => Some(v),
        _ => None,
    }
}

/// The value that a token gives to `#LNTYPE`: whether long notes are in the MGQ notation.
pub open spec fn hdr_ln_type_mgq<'a>(t: Token<&'a str>) -> Option<bool> {
    match t {
        Token::LnTypeMgq => Some(true),
        Token::LnTypeRdm => Some(false),
        _ => None,
    }
}

/// The value that a token gives to `#BMP00`: the image shown on a miss.
pub open spec fn hdr_poor_bmp<'a>(t: Token<&'a str>) -> Option<&'a str> {
    match t {
        Token::Bmp(None, v) => Some(v),
        _ => None,
    }
}


/// The last value that `f` gives of a token of `ts`.
pub open spec fn fold_last<'a, V>(ts: Seq<TokenWithRange<&'a str>>, f: spec_fn(Token<&'a str>) -> Option<V>) -> Option<V>
    decreases ts.len(),
{
    if ts.len() == 0 {
        None
    } else {
        match f(ts.last().token) {
            Some(v) => Some(v),
            None => fold_last(ts.drop_last(), f),
        }
    }
}

/// The definitions that `f` reads from the tokens `ts`, under the prompter `p`.
pub open spec fn fold_defs<'a, V>(
    ts: Seq<TokenWithRange<&'a str>>,
    f: spec_fn(Token<&'a str>) -> Option<(ObjId, V)>,
    p: Prompter,
) -> Map<ObjId, V>
    decreases ts.len(),
{
    if ts.len() == 0 {
        Map::empty()
    } else {
        let m = fold_defs(ts.drop_last(), f, p);
        match f(ts.last().token) {
            Some((id, v)) => spec_define(m, id, v, p),
            None => m,
        }
    }
}

/// The warnings on redefinitions among the definitions that `f` reads from `ts`.
pub open spec fn fold_def_warnings<'a, V>(
    ts: Seq<TokenWithRange<&'a str>>,
    f: spec_fn(Token<&'a str>) -> Option<(ObjId, V)>,
    p: Prompter,
) -> Seq<ParseWarningWithRange>
    decreases ts.len(),
{
    if ts.len() == 0 {
        seq![]
    } else {
        let prev = fold_def_warnings(ts.drop_last(), f, p);
        let t = ts.last();
        match f(t.token) {
            Some((id, v)) => if spec_define_warns(fold_defs(ts.drop_last(), f, p), id, p) {
                prev.push(
                    ParseWarningWithRange {
                        warning: ParseWarning::DuplicateDefinition(id),
                        start: t.start,
                        end: t.end,
                    },
                )
            } else {
                prev
            },
            None => prev,
        }
    }
}

/// What [`hdr_player`] gives of a token.
fn read_hdr_player<'a>(t: Token<&'a str>) -> (r: Option<PlayerMode>)
    ensures
        r == hdr_player(t),
{
    match t {
        Token::Player(v) => Some(v),
        _ => None,
    }
}

/// What [`hdr_genre`] gives of a token.
fn read_hdr_genre<'a>(t: Token<&'a str>) -> (r: Option<&'a str>)
    ensures
        r == hdr_genre(t),
{
    match t {
        Token::Genre(v) => Some(v),
        _ => None,
    }
}

/// What [`hdr_title`] gives of a token.
fn read_hdr_title<'a>(t: Token<&'a str>) -> (r: Option<&'a str>)
    ensures
        r == hdr_title(t),
{
    match t {
        Token::Title(v) => Some(v),
        _ => None,
    }
}

/// What [`hdr_subtitle`] gives of a token.
fn read_hdr_subtitle<'a>(t: Token<&'a str>) -> (r: Option<&'a str>)
    ensures
        r == hdr_subtitle(t),
{
    match t {
        Token::SubTitle(v) => Some(v),
        _ => None,
    }
}

/// What [`hdr_artist`] gives of a token.
fn read_hdr_artist<'a>(t: Token<&'a str>) -> (r: Option<&'a str>)
    ensures
        r == hdr_artist(t),
{
    match t {
        Token::Artist(v) => Some(v),
        _ => None,
    }
}

/// What [`hdr_sub_artist`] gives of a token.
fn read_hdr_sub_artist<'a>(t: Token<&'a str>) -> (r: Option<&'a str>)
    ensures
        r == hdr_sub_artist(t),
{
    match t {
        Token::SubArtist(v) => Some(v),
        _ => None,
    }
}

/// What [`hdr_maker`] gives of a token.
fn read_hdr_maker<'a>(t: Token<&'a str>) -> (r: Option<&'a str>)
    ensures
        r == hdr_maker(t),
{
    match t {
        Token::Maker(v) => Some(v),
        _ => None,
    }
}

/// What [`hdr_comment`] gives of a token.
fn read_hdr_comment<'a>(t: Token<&'a str>) -> (r: Option<&'a str>)
    ensures
        r == hdr_comment(t),
{
    match t {
        Token::Comment(v) => Some(v),
        _ => None,
    }
}

/// What [`hdr_email`] gives of a token.
fn read_hdr_email<'a>(t: Token<&'a str>) -> (r: Option<&'a str>)
    ensures
        r == hdr_email(t),
{
    match t {
        Token::Email(v) => Some(v),
        _ => None,
    }
}

/// What [`hdr_url`] gives of a token.
fn read_hdr_url<'a>(t: Token<&'a str>) -> (r: Option<&'a str>)
    ensures
        r == hdr_url(t),
{
    match t {
        Token::Url(v) => Some(v),
        _ => None,
    }
}

/// What [`hdr_option`] gives of a token.
fn read_hdr_option<'a>(t: Token<&'a str>) -> (r: Option<&'a str>)
    ensures
        r == hdr_option(t),
{
    match t {
        Token::PlayOption(v) => Some(v),
        _ => None,
    }
}

/// What [`hdr_difficulty`] gives of a token.
fn read_hdr_difficulty<'a>(t: Token<&'a str>) -> (r: Option<u8>)
    ensures
        r == hdr_difficulty(t),
{
    match t {
        Token::Difficulty(v) => Some(v),
        _ => None,
    }
}

/// What [`hdr_play_level`] gives of a token.
fn read_hdr_play_level<'a>(t: Token<&'a str>) -> (r: Option<u8>)
    ensures
        r == hdr_play_level(t),
{
    match t {
        Token::PlayLevel(v) => Some(v),
        _ => None,
    }
}

/// What [`hdr_rank`] gives of a token.
fn read_hdr_rank<'a>(t: Token<&'a str>) -> (r: Option<JudgeLevel>)
    ensures
        r == hdr_rank(t),
{
    match t {
        Token::Rank(v) => Some(v),
        _ => None,
    }
}

/// What [`hdr_total`] gives of a token.
fn read_hdr_total<'a>(t: Token<&'a str>) -> (r: Option<&'a str>)
    ensures
        r == hdr_total(t),
{
    match t {
        Token::Total(v) => Some(v),
        _ => None,
    }
}

/// What [`hdr_bpm`] gives of a token.
fn read_hdr_bpm<'a>(t: Token<&'a str>) -> (r: Option<&'a str>)
    ensures
        r == hdr_bpm(t),
{
    match t {
        Token::Bpm(v) => Some(v),
        _ => None,
    }
}

/// What [`hdr_stage_file`] gives of a token.
fn read_hdr_stage_file<'a>(t: Token<&'a str>) -> (r: Option<&'a str>)
    ensures
        r == hdr_stage_file(t),
{
    match t {
        Token::StageFile(v) => Some(v),
        _ => None,
    }
}

/// What [`hdr_banner`] gives of a token.
fn read_hdr_banner<'a>(t: Token<&'a str>) -> (r: Option<&'a str>)
    ensures
        r == hdr_banner(t),
{
    match t {
        Token::Banner(v) => Some(v),
        _ => None,
    }
}

/// What [`hdr_back_bmp`] gives of a token.
fn read_hdr_back_bmp<'a>(t: Token<&'a str>) -> (r: Option<&'a str>)
    ensures
        r == hdr_back_bmp(t),
{
    match t {
        Token::BackBmp(v) => Some(v),
        _ => None,
    }
}

/// What [`hdr_midi_file`] gives of a token.
fn read_hdr_midi_file<'a>(t: Token<&'a str>) -> (r: Option<&'a str>)
    ensures
        r == hdr_midi_file(t),
{
    match t {
        Token::MidiFile(v) => Some(v),
        _ => None,
    }
}

/// What [`hdr_video_file`] gives of a token.
fn read_hdr_video_file<'a>(t: Token<&'a str>) -> (r: Option<&'a str>)
    ensures
        r == hdr_video_file(t),
{
    match t {
        Token::VideoFile(v) => Some(v),
        _ => None,
    }
}

/// What [`hdr_wav_path_root`] gives of a token.
fn read_hdr_wav_path_root<'a>(t: Token<&'a str>) -> (r: Option<&'a str>)
    ensures
        r == hdr_wav_path_root(t),
{
    match t {
        Token::PathWav(v) => Some(v),
        _ => None,
    }
}

/// What [`hdr_poor_bga_mode`] gives of a token.
fn read_hdr_poor_bga_mode<'a>(t: Token<&'a str>) -> (r: Option<PoorMode>)
    ensures
        r == hdr_poor_bga_mode(t),
{
    match t {
        Token::PoorBga(v) => Some(v),
        _ => None,
    }
}

/// What [`hdr_volume`] gives of a token.
fn read_hdr_volume<'a>(t: Token<&'a str>) -> (r: Option<Volume>)
    ensures
        r == hdr_volume(t),
{
    match t {
        Token::VolWav(v) => Some(v),
        _ => None,
    }
}

/// What [`hdr_ln_type_mgq`] gives of a token.
fn read_hdr_ln_type_mgq<'a>(t: Token<&'a str>) -> (r: Option<bool>)
    ensures
        r == hdr_ln_type_mgq(t),
{
    match t {
        Token::LnTypeMgq => Some(true),
        Token::LnTypeRdm => Some(false),
        _ => None,
    }
}

/// What [`hdr_poor_bmp`] gives of a token.
fn read_hdr_poor_bmp<'a>(t: Token<&'a str>) -> (r: Option<&'a str>)
    ensures
        r == hdr_poor_bmp(t),
{
    match t {
        Token::Bmp(None, v) => Some(v),
        _ => None,
    }
}

/// What [`sel_wav_files`] gives of a token.
fn read_sel_wav_files<'a>(t: Token<&'a str>) -> (r: Option<(ObjId, &'a str)>)
    ensures
        r == sel_wav_files(t),
{
    match t {
        Token::Wav(id, p) => Some((id, p)),
        _ => None,
    }
}

/// What [`sel_bmp_files`] gives of a token.
fn read_sel_bmp_files<'a>(t: Token<&'a str>) -> (r: Option<(ObjId, &'a str)>)
    ensures
        r == sel_bmp_files(t),
{
    match t {
        Token::Bmp(Some(id), p) => Some((id, p)),
        _ => None,
    }
}

/// What [`sel_bpm_defs`] gives of a token.
fn read_sel_bpm_defs<'a>(t: Token<&'a str>) -> (r: Option<(ObjId, &'a str)>)
    ensures
        r == sel_bpm_defs(t),
{
    match t {
        Token::BpmChange(id, v) => Some((id, v)),
        _ => None,
    }
}

/// What [`sel_stop_defs`] gives of a token.
fn read_sel_stop_defs<'a>(t: Token<&'a str>) -> (r: Option<(ObjId, u32)>)
    ensures
        r == sel_stop_defs(t),
{
    match t {
        Token::Stop(id, v) => Some((id, v)),
        _ => None,
    }
}

/// What [`sel_scroll_defs`] gives of a token.
fn read_sel_scroll_defs<'a>(t: Token<&'a str>) -> (r: Option<(ObjId, &'a str)>)
    ensures
        r == sel_scroll_defs(t),
{
    match t {
        Token::Scroll(id, v) => Some((id, v)),
        _ => None,
    }
}

/// What [`sel_speed_defs`] gives of a token.
fn read_sel_speed_defs<'a>(t: Token<&'a str>) -> (r: Option<(ObjId, &'a str)>)
    ensures
        r == sel_speed_defs(t),
{
    match t {
        Token::Speed(id, v) => Some((id, v)),
        _ => None,
    }
}

/// What [`sel_exrank_defs`] gives of a token.
fn read_sel_exrank_defs<'a>(t: Token<&'a str>) -> (r: Option<(ObjId, JudgeLevel)>)
    ensures
        r == sel_exrank_defs(t),
{
    match t {
        Token::ExRank(id, v) => Some((id, v)),
        _ => None,
    }
}

/// What [`sel_exwav_defs`] gives of a token.
fn read_sel_exwav_defs<'a>(t: Token<&'a str>) -> (r: Option<(ObjId, ExWavDef<'a>)>)
    ensures
        r == sel_exwav_defs(t),
{
    match t {
        Token::ExWav { id, pan, volume, frequency, path } => Some((id, ExWavDef { pan, volume, frequency, path })),
        _ => None,
    }
}

/// What [`sel_exbmp_defs`] gives of a token.
fn read_sel_exbmp_defs<'a>(t: Token<&'a str>) -> (r: Option<(ObjId, ExBmpDef<'a>)>)
    ensures
        r == sel_exbmp_defs(t),
{
    match t {
        Token::ExBmp(id, argb, path) => Some((id, ExBmpDef { argb, path })),
        _ => None,
    }
}

/// What [`sel_atbga_defs`] gives of a token.
fn read_sel_atbga_defs<'a>(t: Token<&'a str>) -> (r: Option<(ObjId, AtBgaDef)>)
    ensures
        r == sel_atbga_defs(t),
{
    match t {
        Token::AtBga { id, source_bmp, trim_top_left, trim_size, draw_point } => Some((id, AtBgaDef { source_bmp, trim_top_left, trim_size, draw_point })),
        _ => None,
    }
}

/// What [`sel_bga_defs`] gives of a token.
fn read_sel_bga_defs<'a>(t: Token<&'a str>) -> (r: Option<(ObjId, BgaDef)>)
    ensures
        r == sel_bga_defs(t),
{
    match t {
        Token::Bga { id, source_bmp, trim_top_left, trim_bottom_right, draw_point } => Some((id, BgaDef { source_bmp, trim_top_left, trim_bottom_right, draw_point })),
        _ => None,
    }
}

/// What [`sel_change_options`] gives of a token.
fn read_sel_change_options<'a>(t: Token<&'a str>) -> (r: Option<(ObjId, &'a str)>)
    ensures
        r == sel_change_options(t),
{
    match t {
        Token::ChangeOption(id, v) => Some((id, v)),
        _ => None,
    }
}

/// What [`sel_texts`] gives of a token.
fn read_sel_texts<'a>(t: Token<&'a str>) -> (r: Option<(ObjId, &'a str)>)
    ensures
        r == sel_texts(t),
{
    match t {
        Token::Text(id, v) => Some((id, v)),
        _ => None,
    }
}

/// The last value that `f` gives of a token.
fn last_of<'a, V: Copy, F: Fn(Token<&'a str>) -> Option<V>>(
    tokens: &Vec<TokenWithRange<&'a str>>,
    f: F,
    Ghost(sel): Ghost<spec_fn(Token<&'a str>) -> Option<V>>,
) -> (r: Option<V>)
    requires
        forall|t: Token<&'a str>| #[trigger] f.requires((t,)),
        forall|t: Token<&'a str>, r: Option<V>| f.ensures((t,), r) ==> r == sel(t),
    ensures
        r == fold_last(tokens@, sel),
{
    let mut last: Option<V> = None;
    let mut i: usize = 0;
    while i < tokens.len()
        invariant
            i <= tokens@.len(),
            forall|t: Token<&'a str>| #[trigger] f.requires((t,)),
            forall|t: Token<&'a str>, r: Option<V>| f.ensures((t,), r) ==> r == sel(t),
            last == fold_last(tokens@.subrange(0, i as int), sel),
        decreases tokens@.len() - i,
    {
        let ghost pre = tokens@.subrange(0, i + 1);
        assert(pre.drop_last() =~= tokens@.subrange(0, i as int));
        match f(tokens[i].token) {
            Some(v) => {
                last = Some(v);
            },
            None => {},
        }
        i += 1;
    }
    assert(tokens@.subrange(0, tokens@.len() as int) =~= tokens@);
    last
}

/// The table of the definitions that `f` reads; redefinitions reported go to `warnings`.
fn collect_defs<'a, V: Copy, F: Fn(Token<&'a str>) -> Option<(ObjId, V)>>(
    tokens: &Vec<TokenWithRange<&'a str>>,
    f: F,
    Ghost(sel): Ghost<spec_fn(Token<&'a str>) -> Option<(ObjId, V)>>,
    prompter: Prompter,
    warnings: &mut Vec<ParseWarningWithRange>,
) -> (r: Defs<V>)
    requires
        forall|t: Token<&'a str>| #[trigger] f.requires((t,)),
        forall|t: Token<&'a str>, r: Option<(ObjId, V)>| f.ensures((t,), r) ==> r == sel(t),
    ensures
        r.wf(),
        r.map() == fold_defs(tokens@, sel, prompter),
        final(warnings)@ == old(warnings)@ + fold_def_warnings(tokens@, sel, prompter),
{
    let mut defs: Defs<V> = Defs::new();
    let ghost w0 = warnings@;
    let mut i: usize = 0;
    while i < tokens.len()
        invariant
            i <= tokens@.len(),
            forall|t: Token<&'a str>| #[trigger] f.requires((t,)),
            forall|t: Token<&'a str>, r: Option<(ObjId, V)>| f.ensures((t,), r) ==> r == sel(t),
            defs.wf(),
            defs.map() == fold_defs(tokens@.subrange(0, i as int), sel, prompter),
            warnings@ == w0 + fold_def_warnings(tokens@.subrange(0, i as int), sel, prompter),
        decreases tokens@.len() - i,
    {
        let ghost pre = tokens@.subrange(0, i + 1);
        assert(pre.drop_last() =~= tokens@.subrange(0, i as int));
        let t = tokens[i];
        let ghost before = warnings@;
        match f(t.token) {
            Some((id, v)) => {
                if defs.define(id, v, prompter) {
                    warnings.push(
                        ParseWarningWithRange {
                            warning: ParseWarning::DuplicateDefinition(id),
                            start: t.start,
                            end: t.end,
                        },
                    );
                    assert(warnings@ =~= w0 + fold_def_warnings(pre, sel, prompter));
                } else {
                    assert(warnings@ =~= w0 + fold_def_warnings(pre, sel, prompter));
                }
            },
            None => {
                assert(warnings@ =~= w0 + fold_def_warnings(pre, sel, prompter));
            },
        }
        i += 1;
    }
    assert(tokens@.subrange(0, tokens@.len() as int) =~= tokens@);
    defs
}

/// Whether the channel places objects by id.
pub open spec fn is_id_channel(ch: Channel) -> bool {
    match ch {
        Channel::BpmChangeU8 | Channel::SectionLen => false,
        _ => true,
    }
}

/// The index of the first object of `s` from `k` on that lies strictly after `t`, or its length.
pub open spec fn first_after(s: Seq<Obj>, t: ObjTime, k: int) -> int
    decreases s.len() - k,
{
    if k < 0 || k >= s.len() {
        if k < 0 { 0 } else { s.len() as int }
    } else if time_before(t, s[k].offset) {
        k
    } else {
        first_after(s, t, k + 1)
    }
}

/// The objects `s` with `o` inserted after every object at or before its position.
pub open spec fn insert_obj(s: Seq<Obj>, o: Obj) -> Seq<Obj> {
    s.insert(first_after(s, o.offset, 0), o)
}

/// The objects `s` with the first `n` placed ids of `ps` inserted in channel `ch`.
pub open spec fn insert_all(s: Seq<Obj>, ps: Seq<(ObjTime, ObjId)>, ch: Channel, n: int) -> Seq<Obj>
    decreases n,
{
    if n <= 0 {
        s
    } else {
        insert_obj(insert_all(s, ps, ch, n - 1), Obj { offset: ps[n - 1].0, channel: ch, id: ps[n - 1].1 })
    }
}

/// The objects that the messages of `ts` place, ordered by position; objects at one position
/// keep the order of the messages.
pub open spec fn fold_objects<'a>(ts: Seq<TokenWithRange<&'a str>>, case_sensitive: bool) -> Seq<Obj>
    decreases ts.len(),
{
    if ts.len() == 0 {
        seq![]
    } else {
        let prev = fold_objects(ts.drop_last(), case_sensitive);
        match ts.last().token {
            Token::Message { track, channel, message } => if is_id_channel(channel) {
                let ps = spec_obj_ids(track.0, message@, case_sensitive, message@.len() as int / 2);
                insert_all(prev, ps, channel, ps.len() as int)
            } else {
                prev
            },
            _ => prev,
        }
    }
}

/// The BPM changes of channel `03`, two hexadecimal digits each, in message order.
pub open spec fn fold_hex_bpm<'a>(ts: Seq<TokenWithRange<&'a str>>) -> Seq<(ObjTime, u8)>
    decreases ts.len(),
{
    if ts.len() == 0 {
        seq![]
    } else {
        let prev = fold_hex_bpm(ts.drop_last());
        match ts.last().token {
            Token::Message { track, channel: Channel::BpmChangeU8, message } => prev + spec_hex_values(
                track.0,
                message@,
                message@.len() as int / 2,
            ),
            _ => prev,
        }
    }
}

/// The section lengths of channel `02`: each message with the characters that cannot stand in
/// a number removed.
pub open spec fn fold_section_len<'a>(ts: Seq<TokenWithRange<&'a str>>) -> Seq<(Track, Seq<char>)>
    decreases ts.len(),
{
    if ts.len() == 0 {
        seq![]
    } else {
        let prev = fold_section_len(ts.drop_last());
        match ts.last().token {
            Token::Message { track, channel: Channel::SectionLen, message } => prev.push(
                (track, number_chars(message@)),
            ),
            _ => prev,
        }
    }
}

/// The warnings of the messages of `ts`, each with the range of its message.
pub open spec fn fold_message_warnings<'a>(ts: Seq<TokenWithRange<&'a str>>) -> Seq<ParseWarningWithRange>
    decreases ts.len(),
{
    if ts.len() == 0 {
        seq![]
    } else {
        let prev = fold_message_warnings(ts.drop_last());
        let t = ts.last();
        let with_range = |w: ParseWarning| ParseWarningWithRange { warning: w, start: t.start, end: t.end };
        match t.token {
            Token::Message { track, channel, message } => if channel == Channel::BpmChangeU8 {
                prev + ((if message@.len() % 2 == 1 {
                    seq![ParseWarning::OddMessageLength]
                } else {
                    seq![]
                }) + spec_hex_warnings(message@, message@.len() as int / 2)).map_values(with_range)
            } else if is_id_channel(channel) {
                prev + spec_parse_obj_ids_warnings(message@).map_values(with_range)
            } else {
                prev
            },
            _ => prev,
        }
    }
}

/// Whether the tokens declare `#BASE 62`.
pub open spec fn has_base62<'a>(ts: Seq<TokenWithRange<&'a str>>) -> bool {
    exists|i: int| 0 <= i < ts.len() && ts[i].token is Base62
}

/// Whether some token is `#OCT/FP`.
pub open spec fn has_octave<'a>(ts: Seq<TokenWithRange<&'a str>>) -> bool {
    exists|i: int| 0 <= i < ts.len() && ts[i].token is OctFp
}

/// The header values of a score.
#[derive(Debug, Clone, Copy, PartialEq, Eq, Hash)]
pub struct Header<'a> {
    /// `#PLAYER`; the last one wins.
    pub player: Option<PlayerMode>,
    /// `#GENRE`; the last one wins.
    pub genre: Option<&'a str>,
    /// `#TITLE`; the last one wins.
    pub title: Option<&'a str>,
    /// `#SUBTITLE`; the last one wins.
    pub subtitle: Option<&'a str>,
    /// `#ARTIST`; the last one wins.
    pub artist: Option<&'a str>,
    /// `#SUBARTIST`; the last one wins.
    pub sub_artist: Option<&'a str>,
    /// `#MAKER`; the last one wins.
    pub maker: Option<&'a str>,
    /// `#COMMENT`; the last one wins.
    pub comment: Option<&'a str>,
    /// `%EMAIL`; the last one wins.
    pub email: Option<&'a str>,
    /// `%URL`; the last one wins.
    pub url: Option<&'a str>,
    /// `#OPTION`; the last one wins.
    pub option: Option<&'a str>,
    /// `#DIFFICULTY`; the last one wins.
    pub difficulty: Option<u8>,
    /// `#PLAYLEVEL`; the last one wins.
    pub play_level: Option<u8>,
    /// `#RANK`; the last one wins.
    pub rank: Option<JudgeLevel>,
    /// `#TOTAL`; the last one wins.
    pub total: Option<&'a str>,
    /// `#BPM`: the base tempo; the last one wins.
    pub bpm: Option<&'a str>,
    /// `#STAGEFILE`; the last one wins.
    pub stage_file: Option<&'a str>,
    /// `#BANNER`; the last one wins.
    pub banner: Option<&'a str>,
    /// `#BACKBMP`; the last one wins.
    pub back_bmp: Option<&'a str>,
    /// `#MIDIFILE`; the last one wins.
    pub midi_file: Option<&'a str>,
    /// `#VIDEOFILE` / `#MOVIE`; the last one wins.
    pub video_file: Option<&'a str>,
    /// `#PATH_WAV`; the last one wins.
    pub wav_path_root: Option<&'a str>,
    /// `#POORBGA`; the last one wins.
    pub poor_bga_mode: Option<PoorMode>,
    /// `#VOLWAV`; the last one wins.
    pub volume: Option<Volume>,
    /// `#LNTYPE`: whether long notes are in the MGQ notation; the last one wins.
    pub ln_type_mgq: Option<bool>,
    /// `#BMP00`: the image shown on a miss; the last one wins.
    pub poor_bmp: Option<&'a str>,
    /// `#OCT/FP`: whether the score is in the octave mode.
    pub is_octave: bool,
}

impl<'a> Header<'a> {
    /// Whether the header holds the values that the tokens `ts` give.
    pub open spec fn built_from(&self, ts: Seq<TokenWithRange<&'a str>>) -> bool {
        &&& self.player == fold_last(ts, |t: Token<&'a str>| hdr_player(t))
        &&& self.genre == fold_last(ts, |t: Token<&'a str>| hdr_genre(t))
        &&& self.title == fold_last(ts, |t: Token<&'a str>| hdr_title(t))
        &&& self.subtitle == fold_last(ts, |t: Token<&'a str>| hdr_subtitle(t))
        &&& self.artist == fold_last(ts, |t: Token<&'a str>| hdr_artist(t))
        &&& self.sub_artist == fold_last(ts, |t: Token<&'a str>| hdr_sub_artist(t))
        &&& self.maker == fold_last(ts, |t: Token<&'a str>| hdr_maker(t))
        &&& self.comment == fold_last(ts, |t: Token<&'a str>| hdr_comment(t))
        &&& self.email == fold_last(ts, |t: Token<&'a str>| hdr_email(t))
        &&& self.url == fold_last(ts, |t: Token<&'a str>| hdr_url(t))
        &&& self.option == fold_last(ts, |t: Token<&'a str>| hdr_option(t))
        &&& self.difficulty == fold_last(ts, |t: Token<&'a str>| hdr_difficulty(t))
        &&& self.play_level == fold_last(ts, |t: Token<&'a str>| hdr_play_level(t))
        &&& self.rank == fold_last(ts, |t: Token<&'a str>| hdr_rank(t))
        &&& self.total == fold_last(ts, |t: Token<&'a str>| hdr_total(t))
        &&& self.bpm == fold_last(ts, |t: Token<&'a str>| hdr_bpm(t))
        &&& self.stage_file == fold_last(ts, |t: Token<&'a str>| hdr_stage_file(t))
        &&& self.banner == fold_last(ts, |t: Token<&'a str>| hdr_banner(t))
        &&& self.back_bmp == fold_last(ts, |t: Token<&'a str>| hdr_back_bmp(t))
        &&& self.midi_file == fold_last(ts, |t: Token<&'a str>| hdr_midi_file(t))
        &&& self.video_file == fold_last(ts, |t: Token<&'a str>| hdr_video_file(t))
        &&& self.wav_path_root == fold_last(ts, |t: Token<&'a str>| hdr_wav_path_root(t))
        &&& self.poor_bga_mode == fold_last(ts, |t: Token<&'a str>| hdr_poor_bga_mode(t))
        &&& self.volume == fold_last(ts, |t: Token<&'a str>| hdr_volume(t))
        &&& self.ln_type_mgq == fold_last(ts, |t: Token<&'a str>| hdr_ln_type_mgq(t))
        &&& self.poor_bmp == fold_last(ts, |t: Token<&'a str>| hdr_poor_bmp(t))
        &&& self.is_octave == has_octave(ts)
    }
}

/// The tables of definitions of a score.
#[derive(Debug, Clone, PartialEq, Eq, Hash)]
pub struct Definitions<'a> {
    /// `#WAVxx`: the sound files.
    pub wav_files: Defs<&'a str>,
    /// `#BMPxx`: the image files.
    pub bmp_files: Defs<&'a str>,
    /// `#BPMxx`: the tempos of BPM change objects.
    pub bpm_defs: Defs<&'a str>,
    /// `#STOPxx`: the lengths of stops, in 1/192 beats.
    pub stop_defs: Defs<u32>,
    /// `#SCROLLxx`: the scroll speed factors.
    pub scroll_defs: Defs<&'a str>,
    /// `#SPEEDxx`: the spacing factors.
    pub speed_defs: Defs<&'a str>,
    /// `#EXRANKxx`: the judge levels.
    pub exrank_defs: Defs<JudgeLevel>,
    /// `#EXWAVxx`: the sounds with effects.
    pub exwav_defs: Defs<ExWavDef<'a>>,
    /// `#EXBMPxx`: the images with a transparent color.
    pub exbmp_defs: Defs<ExBmpDef<'a>>,
    /// `#@BGAxx`: the trimmed images, by size.
    pub atbga_defs: Defs<AtBgaDef>,
    /// `#BGAxx`: the trimmed images, by corners.
    pub bga_defs: Defs<BgaDef>,
    /// `#CHANGEOPTIONxx`: the play option changes.
    pub change_options: Defs<&'a str>,
    /// `#TEXTxx`: the texts.
    pub texts: Defs<&'a str>,
}

impl<'a> Definitions<'a> {
    /// Whether the tables hold the definitions that the tokens `ts` make under `p`.
    pub open spec fn built_from(&self, ts: Seq<TokenWithRange<&'a str>>, p: Prompter) -> bool {
        &&& self.wav_files.wf()
        &&& self.wav_files.map() == fold_defs(ts, |t: Token<&'a str>| sel_wav_files(t), p)
        &&& self.bmp_files.wf()
        &&& self.bmp_files.map() == fold_defs(ts, |t: Token<&'a str>| sel_bmp_files(t), p)
        &&& self.bpm_defs.wf()
        &&& self.bpm_defs.map() == fold_defs(ts, |t: Token<&'a str>| sel_bpm_defs(t), p)
        &&& self.stop_defs.wf()
        &&& self.stop_defs.map() == fold_defs(ts, |t: Token<&'a str>| sel_stop_defs(t), p)
        &&& self.scroll_defs.wf()
        &&& self.scroll_defs.map() == fold_defs(ts, |t: Token<&'a str>| sel_scroll_defs(t), p)
        &&& self.speed_defs.wf()
        &&& self.speed_defs.map() == fold_defs(ts, |t: Token<&'a str>| sel_speed_defs(t), p)
        &&& self.exrank_defs.wf()
        &&& self.exrank_defs.map() == fold_defs(ts, |t: Token<&'a str>| sel_exrank_defs(t), p)
        &&& self.exwav_defs.wf()
        &&& self.exwav_defs.map() == fold_defs(ts, |t: Token<&'a str>| sel_exwav_defs(t), p)
        &&& self.exbmp_defs.wf()
        &&& self.exbmp_defs.map() == fold_defs(ts, |t: Token<&'a str>| sel_exbmp_defs(t), p)
        &&& self.atbga_defs.wf()
        &&& self.atbga_defs.map() == fold_defs(ts, |t: Token<&'a str>| sel_atbga_defs(t), p)
        &&& self.bga_defs.wf()
        &&& self.bga_defs.map() == fold_defs(ts, |t: Token<&'a str>| sel_bga_defs(t), p)
        &&& self.change_options.wf()
        &&& self.change_options.map() == fold_defs(ts, |t: Token<&'a str>| sel_change_options(t), p)
        &&& self.texts.wf()
        &&& self.texts.map() == fold_defs(ts, |t: Token<&'a str>| sel_texts(t), p)
    }

    /// The warnings on redefinitions in the tokens `ts` under `p`, table by table.
    pub open spec fn spec_warnings(ts: Seq<TokenWithRange<&'a str>>, p: Prompter) -> Seq<ParseWarningWithRange> {
        fold_def_warnings(ts, |t: Token<&'a str>| sel_wav_files(t), p) + fold_def_warnings(ts, |t: Token<&'a str>| sel_bmp_files(t), p) + fold_def_warnings(ts, |t: Token<&'a str>| sel_bpm_defs(t), p) + fold_def_warnings(ts, |t: Token<&'a str>| sel_stop_defs(t), p) + fold_def_warnings(ts, |t: Token<&'a str>| sel_scroll_defs(t), p) + fold_def_warnings(ts, |t: Token<&'a str>| sel_speed_defs(t), p) + fold_def_warnings(ts, |t: Token<&'a str>| sel_exrank_defs(t), p) + fold_def_warnings(ts, |t: Token<&'a str>| sel_exwav_defs(t), p) + fold_def_warnings(ts, |t: Token<&'a str>| sel_exbmp_defs(t), p) + fold_def_warnings(ts, |t: Token<&'a str>| sel_atbga_defs(t), p) + fold_def_warnings(ts, |t: Token<&'a str>| sel_bga_defs(t), p) + fold_def_warnings(ts, |t: Token<&'a str>| sel_change_options(t), p) + fold_def_warnings(ts, |t: Token<&'a str>| sel_texts(t), p)

    }
}

/// The objects that the messages of a score place.
#[derive(Debug, Clone, PartialEq, Eq, Hash)]
pub struct Objects<'a> {
    /// The objects placed by id, ordered by position.
    pub placed: Vec<Obj>,
    /// The BPM changes of channel `03`, in message order.
    pub bpm_changes_u8: Vec<(ObjTime, u8)>,
    /// The section lengths of channel `02`, as written, in message order.
    pub section_lens: Vec<(Track, FilteredText<'a>)>,
}

impl<'a> Objects<'a> {
    /// Whether these are the objects that the messages of `ts` place.
    pub open spec fn built_from(&self, ts: Seq<TokenWithRange<&'a str>>) -> bool {
        &&& self.placed@ == fold_objects(ts, true)
        &&& self.bpm_changes_u8@ == fold_hex_bpm(ts)
        &&& self.section_lens@.map_values(|x: (Track, FilteredText<'a>)| (x.0, x.1@)) == fold_section_len(ts)
    }
}

/// The score model.
#[derive(Debug, Clone, PartialEq, Eq, Hash)]
pub struct Bms<'a> {
    /// Whether `#BASE 62` made object ids case-sensitive.
    pub case_sensitive: bool,
    /// The header values.
    pub header: Header<'a>,
    /// The tables of definitions.
    pub defs: Definitions<'a>,
    /// The objects that messages place.
    pub objects: Objects<'a>,
}

/// The model built, with the warnings of its processors.
pub struct ParseOutput<'a> {
    /// The score model.
    pub bms: Bms<'a>,
    /// The warnings: redefinitions table by table, then those of the messages.
    pub parse_warnings: Vec<ParseWarningWithRange>,
}

impl<'a> Bms<'a> {
    /// Whether the model is what the processors build from the resolved tokens `ts` under `p`.
    pub open spec fn built_from(&self, ts: Seq<TokenWithRange<&'a str>>, p: Prompter) -> bool {
        &&& self.case_sensitive == has_base62(ts)
        &&& self.header.built_from(ts)
        &&& self.defs.built_from(ts, p)
        &&& self.objects.built_from(ts)
    }

    /// The warnings that the processors give on the resolved tokens `ts` under `p`.
    pub open spec fn spec_warnings(ts: Seq<TokenWithRange<&'a str>>, p: Prompter) -> Seq<ParseWarningWithRange> {
        Definitions::spec_warnings(ts, p) + fold_message_warnings(ts)
    }
}

/// Inserts `o` after every object at or before its position.
fn insert_sorted(objs: &mut Vec<Obj>, o: Obj)
    ensures
        final(objs)@ == insert_obj(old(objs)@, o),
{
    let mut k: usize = 0;
    while k < objs.len() && !is_before(o.offset, objs[k].offset)
        invariant
            k <= objs@.len(),
            first_after(objs@, o.offset, 0) == first_after(objs@, o.offset, k as int),
        decreases objs@.len() - k,
    {
        k += 1;
    }
    objs.insert(k, o);
}

/// Inserts the placed ids `ps` in channel `ch`.
fn place_all(objs: &mut Vec<Obj>, ps: &Vec<(ObjTime, ObjId)>, ch: Channel)
    ensures
        final(objs)@ == insert_all(old(objs)@, ps@, ch, ps@.len() as int),
{
    let ghost s0 = objs@;
    let mut j: usize = 0;
    while j < ps.len()
        invariant
            j <= ps@.len(),
            objs@ == insert_all(s0, ps@, ch, j as int),
        decreases ps@.len() - j,
    {
        let (t, id) = ps[j];
        insert_sorted(objs, Obj { offset: t, channel: ch, id });
        j += 1;
    }
}

/// Appends the warnings `ws` with the range `[start, end)`.
fn push_with_range(
    warnings: &mut Vec<ParseWarningWithRange>,
    ws: &Vec<ParseWarning>,
    start: usize,
    end: usize,
)
    ensures
        final(warnings)@ == old(warnings)@ + ws@.map_values(
            |w: ParseWarning| ParseWarningWithRange { warning: w, start, end },
        ),
{
    let ghost w0 = warnings@;
    let mut j: usize = 0;
    while j < ws.len()
        invariant
            j <= ws@.len(),
            warnings@ == w0 + ws@.subrange(0, j as int).map_values(
                |w: ParseWarning| ParseWarningWithRange { warning: w, start, end },
            ),
        decreases ws@.len() - j,
    {
        warnings.push(ParseWarningWithRange { warning: ws[j], start, end });
        j += 1;
        assert(warnings@ =~= w0 + ws@.subrange(0, j as int).map_values(
            |w: ParseWarning| ParseWarningWithRange { warning: w, start, end },
        ));
    }
    assert(ws@.subrange(0, ws@.len() as int) =~= ws@);
}

/// The objects, BPM changes and section lengths that the messages of `tokens` place; their
/// warnings go to `warnings`.
fn process_messages<'a>(
    tokens: &Vec<TokenWithRange<&'a str>>,
    case_sensitive: bool,
    warnings: &mut Vec<ParseWarningWithRange>,
) -> (r: (Vec<Obj>, Vec<(ObjTime, u8)>, Vec<(Track, FilteredText<'a>)>))
    ensures
        r.0@ == fold_objects(tokens@, case_sensitive),
        r.1@ == fold_hex_bpm(tokens@),
        r.2@.map_values(|x: (Track, FilteredText<'a>)| (x.0, x.1@)) == fold_section_len(tokens@),
        final(warnings)@ == old(warnings)@ + fold_message_warnings(tokens@),
{
    let mut objs: Vec<Obj> = Vec::new();
    let mut hex: Vec<(ObjTime, u8)> = Vec::new();
    let mut lens: Vec<(Track, FilteredText<'a>)> = Vec::new();
    let ghost w0 = warnings@;
    let mut i: usize = 0;
    while i < tokens.len()
        invariant
            i <= tokens@.len(),
            objs@ == fold_objects(tokens@.subrange(0, i as int), case_sensitive),
            hex@ == fold_hex_bpm(tokens@.subrange(0, i as int)),
            lens@.map_values(|x: (Track, FilteredText<'a>)| (x.0, x.1@)) == fold_section_len(
                tokens@.subrange(0, i as int),
            ),
            warnings@ == w0 + fold_message_warnings(tokens@.subrange(0, i as int)),
        decreases tokens@.len() - i,
    {
        let ghost pre = tokens@.subrange(0, i + 1);
        assert(pre.drop_last() =~= tokens@.subrange(0, i as int));
        let ghost wb = warnings@;
        let ghost lb = lens@;
        let t = tokens[i];
        match t.token {
            Token::Message { track, channel, message } => {
                let _len = message.unicode_len();
                match channel {
                    Channel::BpmChangeU8 => {
                        let (ws, vals) = parse_hex_values(track, message);
                        push_with_range(warnings, &ws, t.start, t.end);
                        let mut vals = vals;
                        hex.append(&mut vals);
                        assert(warnings@ =~= w0 + fold_message_warnings(pre));
                    },
                    Channel::SectionLen => {
                        lens.push((track, filter_message(message)));
                        assert(lens@.map_values(|x: (Track, FilteredText<'a>)| (x.0, x.1@)) =~= lb.map_values(
                            |x: (Track, FilteredText<'a>)| (x.0, x.1@),
                        ).push((track, number_chars(message@))));
                        assert(warnings@ =~= w0 + fold_message_warnings(pre));
                    },
                    _ => {
                        let (ws, ps) = parse_obj_ids(track, message, case_sensitive);
                        push_with_range(warnings, &ws, t.start, t.end);
                        place_all(&mut objs, &ps, channel);
                        assert(warnings@ =~= w0 + fold_message_warnings(pre));
                    },
                }
            },
            _ => {
                assert(warnings@ =~= w0 + fold_message_warnings(pre));
            },
        }
        i += 1;
    }
    assert(tokens@.subrange(0, tokens@.len() as int) =~= tokens@);
    (objs, hex, lens)
}

/// Whether some token declares `#BASE 62`.
pub fn find_base62<'a>(tokens: &Vec<TokenWithRange<&'a str>>) -> (r: bool)
    ensures
        r == has_base62(tokens@),
{
    let mut i: usize = 0;
    while i < tokens.len()
        invariant
            i <= tokens@.len(),
            forall|k: int| 0 <= k < i ==> !(tokens@[k].token is Base62),
        decreases tokens@.len() - i,
    {
        if let Token::Base62 = tokens[i].token {
            return true;
        }
        i += 1;
    }
    false
}

/// Whether some token is `#OCT/FP`.
fn find_octave<'a>(tokens: &Vec<TokenWithRange<&'a str>>) -> (r: bool)
    ensures
        r == has_octave(tokens@),
{
    let mut i: usize = 0;
    while i < tokens.len()
        invariant
            i <= tokens@.len(),
            forall|k: int| 0 <= k < i ==> !(tokens@[k].token is OctFp),
        decreases tokens@.len() - i,
    {
        if let Token::OctFp = tokens[i].token {
            return true;
        }
        i += 1;
    }
    false
}

/// The header values that the tokens give.
pub fn read_header<'a>(tokens: &Vec<TokenWithRange<&'a str>>) -> (r: Header<'a>)
    ensures
        r.built_from(tokens@),
{
    let player = last_of(
        tokens,
        read_hdr_player,
        Ghost(|t: Token<&'a str>| hdr_player(t)),
    );
    let genre = last_of(
        tokens,
        read_hdr_genre,
        Ghost(|t: Token<&'a str>| hdr_genre(t)),
    );
    let title = last_of(
        tokens,
        read_hdr_title,
        Ghost(|t: Token<&'a str>| hdr_title(t)),
    );
    let subtitle = last_of(
        tokens,
        read_hdr_subtitle,
        Ghost(|t: Token<&'a str>| hdr_subtitle(t)),
    );
    let artist = last_of(
        tokens,
        read_hdr_artist,
        Ghost(|t: Token<&'a str>| hdr_artist(t)),
    );
    let sub_artist = last_of(
        tokens,
        read_hdr_sub_artist,
        Ghost(|t: Token<&'a str>| hdr_sub_artist(t)),
    );
    let maker = last_of(
        tokens,
        read_hdr_maker,
        Ghost(|t: Token<&'a str>| hdr_maker(t)),
    );
    let comment = last_of(
        tokens,
        read_hdr_comment,
        Ghost(|t: Token<&'a str>| hdr_comment(t)),
    );
    let email = last_of(
        tokens,
        read_hdr_email,
        Ghost(|t: Token<&'a str>| hdr_email(t)),
    );
    let url = last_of(
        tokens,
        read_hdr_url,
        Ghost(|t: Token<&'a str>| hdr_url(t)),
    );
    let option = last_of(
        tokens,
        read_hdr_option,
        Ghost(|t: Token<&'a str>| hdr_option(t)),
    );
    let difficulty = last_of(
        tokens,
        read_hdr_difficulty,
        Ghost(|t: Token<&'a str>| hdr_difficulty(t)),
    );
    let play_level = last_of(
        tokens,
        read_hdr_play_level,
        Ghost(|t: Token<&'a str>| hdr_play_level(t)),
    );
    let rank = last_of(
        tokens,
        read_hdr_rank,
        Ghost(|t: Token<&'a str>| hdr_rank(t)),
    );
    let total = last_of(
        tokens,
        read_hdr_total,
        Ghost(|t: Token<&'a str>| hdr_total(t)),
    );
    let bpm = last_of(
        tokens,
        read_hdr_bpm,
        Ghost(|t: Token<&'a str>| hdr_bpm(t)),
    );
    let stage_file = last_of(
        tokens,
        read_hdr_stage_file,
        Ghost(|t: Token<&'a str>| hdr_stage_file(t)),
    );
    let banner = last_of(
        tokens,
        read_hdr_banner,
        Ghost(|t: Token<&'a str>| hdr_banner(t)),
    );
    let back_bmp = last_of(
        tokens,
        read_hdr_back_bmp,
        Ghost(|t: Token<&'a str>| hdr_back_bmp(t)),
    );
    let midi_file = last_of(
        tokens,
        read_hdr_midi_file,
        Ghost(|t: Token<&'a str>| hdr_midi_file(t)),
    );
    let video_file = last_of(
        tokens,
        read_hdr_video_file,
        Ghost(|t: Token<&'a str>| hdr_video_file(t)),
    );
    let wav_path_root = last_of(
        tokens,
        read_hdr_wav_path_root,
        Ghost(|t: Token<&'a str>| hdr_wav_path_root(t)),
    );
    let poor_bga_mode = last_of(
        tokens,
        read_hdr_poor_bga_mode,
        Ghost(|t: Token<&'a str>| hdr_poor_bga_mode(t)),
    );
    let volume = last_of(
        tokens,
        read_hdr_volume,
        Ghost(|t: Token<&'a str>| hdr_volume(t)),
    );
    let ln_type_mgq = last_of(
        tokens,
        read_hdr_ln_type_mgq,
        Ghost(|t: Token<&'a str>| hdr_ln_type_mgq(t)),
    );
    let poor_bmp = last_of(
        tokens,
        read_hdr_poor_bmp,
        Ghost(|t: Token<&'a str>| hdr_poor_bmp(t)),
    );
    let is_octave = find_octave(tokens);
        Header {
            player,
            genre,
            title,
            subtitle,
            artist,
            sub_artist,
            maker,
            comment,
            email,
            url,
            option,
            difficulty,
            play_level,
            rank,
            total,
            bpm,
            stage_file,
            banner,
            back_bmp,
            midi_file,
            video_file,
            wav_path_root,
            poor_bga_mode,
            volume,
            ln_type_mgq,
            poor_bmp,
            is_octave,
        }
}

/// The tables of the definitions that the tokens make, `prompter` deciding on redefinitions;
/// the redefinitions reported go to `warnings`.
pub fn read_definitions<'a>(
    tokens: &Vec<TokenWithRange<&'a str>>,
    prompter: Prompter,
    warnings: &mut Vec<ParseWarningWithRange>,
) -> (r: Definitions<'a>)
    ensures
        r.built_from(tokens@, prompter),
        final(warnings)@ == old(warnings)@ + Definitions::spec_warnings(tokens@, prompter),
{
    let ghost ts = tokens@;
    let ghost w0 = warnings@;
    let wav_files = collect_defs(
        tokens,
        read_sel_wav_files,
        Ghost(|t: Token<&'a str>| sel_wav_files(t)),
        prompter,
        warnings,
    );
    let bmp_files = collect_defs(
        tokens,
        read_sel_bmp_files,
        Ghost(|t: Token<&'a str>| sel_bmp_files(t)),
        prompter,
        warnings,
    );
    let bpm_defs = collect_defs(
        tokens,
        read_sel_bpm_defs,
        Ghost(|t: Token<&'a str>| sel_bpm_defs(t)),
        prompter,
        warnings,
    );
    let stop_defs = collect_defs(
        tokens,
        read_sel_stop_defs,
        Ghost(|t: Token<&'a str>| sel_stop_defs(t)),
        prompter,
        warnings,
    );
    let scroll_defs = collect_defs(
        tokens,
        read_sel_scroll_defs,
        Ghost(|t: Token<&'a str>| sel_scroll_defs(t)),
        prompter,
        warnings,
    );
    let speed_defs = collect_defs(
        tokens,
        read_sel_speed_defs,
        Ghost(|t: Token<&'a str>| sel_speed_defs(t)),
        prompter,
        warnings,
    );
    let exrank_defs = collect_defs(
        tokens,
        read_sel_exrank_defs,
        Ghost(|t: Token<&'a str>| sel_exrank_defs(t)),
        prompter,
        warnings,
    );
    let exwav_defs = collect_defs(
        tokens,
        read_sel_exwav_defs,
        Ghost(|t: Token<&'a str>| sel_exwav_defs(t)),
        prompter,
        warnings,
    );
    let exbmp_defs = collect_defs(
        tokens,
        read_sel_exbmp_defs,
        Ghost(|t: Token<&'a str>| sel_exbmp_defs(t)),
        prompter,
        warnings,
    );
    let atbga_defs = collect_defs(
        tokens,
        read_sel_atbga_defs,
        Ghost(|t: Token<&'a str>| sel_atbga_defs(t)),
        prompter,
        warnings,
    );
    let bga_defs = collect_defs(
        tokens,
        read_sel_bga_defs,
        Ghost(|t: Token<&'a str>| sel_bga_defs(t)),
        prompter,
        warnings,
    );
    let change_options = collect_defs(
        tokens,
        read_sel_change_options,
        Ghost(|t: Token<&'a str>| sel_change_options(t)),
        prompter,
        warnings,
    );
    let texts = collect_defs(
        tokens,
        read_sel_texts,
        Ghost(|t: Token<&'a str>| sel_texts(t)),
        prompter,
        warnings,
    );
    assert(warnings@ =~= w0 + Definitions::spec_warnings(ts, prompter));
    Definitions {
            wav_files,
            bmp_files,
            bpm_defs,
            stop_defs,
            scroll_defs,
            speed_defs,
            exrank_defs,
            exwav_defs,
            exbmp_defs,
            atbga_defs,
            bga_defs,
            change_options,
            texts,
    }
}

/// The objects that the messages of the tokens place, their ids read as written (the lexer's
/// case pass has already uppercased them unless `#BASE 62` is declared); their warnings go to
/// `warnings`.
pub fn read_objects<'a>(
    tokens: &Vec<TokenWithRange<&'a str>>,
    warnings: &mut Vec<ParseWarningWithRange>,
) -> (r: Objects<'a>)
    ensures
        r.built_from(tokens@),
        final(warnings)@ == old(warnings)@ + fold_message_warnings(tokens@),
{
    let (placed, bpm_changes_u8, section_lens) = process_messages(tokens, true, warnings);
    Objects { placed, bpm_changes_u8, section_lens }
}

/// Whether `r` is what parsing the tokens `ts` gives with the draws `draws`: the first
/// control-flow error in strict mode, else the model built from the tokens kept, its warnings,
/// and the control-flow warnings.
pub open spec fn parsed_as<'a>(
    ts: Seq<TokenWithRange<&'a str>>,
    draws: Seq<u32>,
    relaxed: bool,
    p: Prompter,
    r: Result<(ParseOutput<'a>, Vec<ControlFlowWarningWithRange>), ControlFlowWarningWithRange>,
) -> bool {
    match spec_resolve(ts, draws, relaxed) {
        Err(e) => r == Err::<(ParseOutput<'a>, Vec<ControlFlowWarningWithRange>), ControlFlowWarningWithRange>(e),
        Ok((out, cfw)) => r.is_ok() && r.unwrap().1@ == cfw && r.unwrap().0.bms.built_from(out, p)
            && r.unwrap().0.parse_warnings@ == Bms::spec_warnings(out, p),
    }
}

/// Two models built from the same tokens under the same prompter agree: the same case flag,
/// header, definitions, objects, BPM changes and section lengths. (The tables may list their
/// entries in another order, and a section length may be borrowed in one and owned in the
/// other, with the same text.)
pub proof fn lemma_models_agree<'a>(m1: Bms<'a>, m2: Bms<'a>, ts: Seq<TokenWithRange<&'a str>>, p: Prompter)
    requires
        m1.built_from(ts, p),
        m2.built_from(ts, p),
    ensures
        m1.case_sensitive == m2.case_sensitive,
        m1.header == m2.header,
        m1.defs.wav_files.map() == m2.defs.wav_files.map(),
        m1.defs.bmp_files.map() == m2.defs.bmp_files.map(),
        m1.defs.bpm_defs.map() == m2.defs.bpm_defs.map(),
        m1.defs.stop_defs.map() == m2.defs.stop_defs.map(),
        m1.defs.scroll_defs.map() == m2.defs.scroll_defs.map(),
        m1.defs.speed_defs.map() == m2.defs.speed_defs.map(),
        m1.defs.exrank_defs.map() == m2.defs.exrank_defs.map(),
        m1.defs.exwav_defs.map() == m2.defs.exwav_defs.map(),
        m1.defs.exbmp_defs.map() == m2.defs.exbmp_defs.map(),
        m1.defs.atbga_defs.map() == m2.defs.atbga_defs.map(),
        m1.defs.bga_defs.map() == m2.defs.bga_defs.map(),
        m1.defs.change_options.map() == m2.defs.change_options.map(),
        m1.defs.texts.map() == m2.defs.texts.map(),
        m1.objects.placed@ == m2.objects.placed@,
        m1.objects.bpm_changes_u8@ == m2.objects.bpm_changes_u8@,
        m1.objects.section_lens@.map_values(|x: (Track, FilteredText<'a>)| (x.0, x.1@))
            == m2.objects.section_lens@.map_values(|x: (Track, FilteredText<'a>)| (x.0, x.1@)),
{
}

/// Parsing tokens that draw no number (`#SETRANDOM` and `#SETSWITCH` in place of `#RANDOM` and
/// `#SWITCH`) gives the same outcome whatever the draws: the same error, or models that agree
/// with the same warnings.
pub proof fn lemma_parse_ignores_draws<'a>(
    ts: Seq<TokenWithRange<&'a str>>,
    d1: Seq<u32>,
    d2: Seq<u32>,
    relaxed: bool,
    p: Prompter,
    r1: Result<(ParseOutput<'a>, Vec<ControlFlowWarningWithRange>), ControlFlowWarningWithRange>,
    r2: Result<(ParseOutput<'a>, Vec<ControlFlowWarningWithRange>), ControlFlowWarningWithRange>,
)
    requires
        crate::random::draws_nothing(ts),
        parsed_as(ts, d1, relaxed, p, r1),
        parsed_as(ts, d2, relaxed, p, r2),
    ensures
        r1.is_ok() == r2.is_ok(),
        r1.is_err() ==> r1 == r2,
        r1.is_ok() ==> r1.unwrap().0.parse_warnings@ == r2.unwrap().0.parse_warnings@
            && r1.unwrap().1@ == r2.unwrap().1@ && r1.unwrap().0.bms.header == r2.unwrap().0.bms.header
            && r1.unwrap().0.bms.objects.placed@ == r2.unwrap().0.bms.objects.placed@,
        r1.is_ok() ==> exists|out: Seq<TokenWithRange<&'a str>>|
            #[trigger] r1.unwrap().0.bms.built_from(out, p) && r2.unwrap().0.bms.built_from(out, p),
{
    crate::random::lemma_resolution_ignores_draws(ts, d1, d2, relaxed);
    if r1.is_ok() {
        let out = spec_resolve(ts, d1, relaxed).unwrap().0;
        lemma_models_agree(r1.unwrap().0.bms, r2.unwrap().0.bms, out, p);
    }
}

impl<'a> Bms<'a> {
    /// Builds the model from tokens whose control flow is resolved, `prompter` deciding on
    /// redefinitions.
    pub fn from_resolved_tokens(tokens: &Vec<TokenWithRange<&'a str>>, prompter: Prompter) -> (r: ParseOutput<'a>)
        ensures
            r.bms.built_from(tokens@, prompter),
            r.parse_warnings@ == Bms::spec_warnings(tokens@, prompter),
    {
        let (case_sensitive, w1) = RepresentationProcessor.process(tokens, prompter);
        let (header, w2) = HeaderProcessor.process(tokens, prompter);
        let (defs, mut warnings) = DefinitionsProcessor.process(tokens, prompter);
        let (objects, mut w4) = ObjectsProcessor.process(tokens, prompter);
        warnings.append(&mut w4);
        assert(warnings@ =~= Bms::spec_warnings(tokens@, prompter));
        ParseOutput { bms: assemble((case_sensitive, (header, (defs, objects)))), parse_warnings: warnings }
    }

    /// Resolves the control flow of the stream (see [`resolve_control_flow`]) and builds the
    /// model from the tokens kept. The error is the first control-flow problem in strict mode.
    pub fn from_token_stream(
        stream: &TokenStream<'a>,
        draws: &Vec<u32>,
        relaxed: bool,
        prompter: Prompter,
    ) -> (r: Result<(ParseOutput<'a>, Vec<ControlFlowWarningWithRange>), ControlFlowWarningWithRange>)
        ensures
            parsed_as(stream.tokens@, draws@, relaxed, prompter, r),
    {
        match resolve_control_flow(&stream.tokens, draws, relaxed) {
            Ok((tokens, cfw)) => {
                let out = Bms::from_resolved_tokens(&tokens, prompter);
                Ok((out, cfw))
            },
            Err(e) => Err(e),
        }
    }

    /// The objects placed on note channels, ordered by position.
    pub fn notes(&self) -> (r: Vec<Obj>)
        ensures
            r@ == self.objects.placed@.filter(|o: Obj| o.channel is Note),
    {
        let mut r: Vec<Obj> = Vec::new();
        let mut i: usize = 0;
        while i < self.objects.placed.len()
            invariant
                i <= self.objects.placed@.len(),
                r@ == self.objects.placed@.subrange(0, i as int).filter(|o: Obj| o.channel is Note),
            decreases self.objects.placed@.len() - i,
        {
            let ghost pre = self.objects.placed@.subrange(0, i + 1);
            assert(pre.drop_last() =~= self.objects.placed@.subrange(0, i as int));
            let o = self.objects.placed[i];
            proof {
                reveal(Seq::filter);
                assert(pre.last() == o);
            }
            if let Channel::Note { .. } = o.channel {
                r.push(o);
            }
            i += 1;
        }
        assert(self.objects.placed@.subrange(0, self.objects.placed@.len() as int) =~= self.objects.placed@);
        r
    }
}

} // verus!
