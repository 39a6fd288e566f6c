//! Decoding of message bodies: object ids and hexadecimal values placed on a track.
use vstd::prelude::*;

use itertools::Itertools;

use crate::command::{spec_obj_id, ObjId, Track};

verus! {

/// A position on the timeline: cell `numerator` of `denominator` equal cells of a track.
#[derive(Debug, Clone, Copy, PartialEq, Eq, Hash, Structural)]
pub struct ObjTime {
    /// The track.
    pub track: u32,
    /// The zero-based cell index.
    pub numerator: u64,
    /// The number of cells of the message; positive.
    pub denominator: u64,
}

impl ObjTime {
    /// The position `(track, numerator / denominator)`; `denominator` must be positive.
    pub fn new(track: u32, numerator: u64, denominator: u64) -> (r: ObjTime)
        requires
            denominator > 0,
        ensures
            r == (ObjTime { track, numerator, denominator }),
    {
        ObjTime { track, numerator, denominator }
    }
}

/// Whether the position `a` lies strictly before `b` (`denominator`s positive).
pub open spec fn time_before(a: ObjTime, b: ObjTime) -> bool {
    a.track < b.track || (a.track == b.track && (a.numerator as int) * (b.denominator as int) < (
    b.numerator as int) * (a.denominator as int))
}

/// Whether `a` lies strictly before `b`.
pub fn is_before(a: ObjTime, b: ObjTime) -> (r: bool)
    ensures
        r == time_before(a, b),
{
    if a.track != b.track {
        return a.track < b.track;
    }
    proof {
        assert((a.numerator as int) * (b.denominator as int) <= u128::MAX) by (nonlinear_arith)
            requires
                a.numerator <= u64::MAX,
                b.denominator <= u64::MAX,
        ;
        assert((b.numerator as int) * (a.denominator as int) <= u128::MAX) by (nonlinear_arith)
            requires
                b.numerator <= u64::MAX,
                a.denominator <= u64::MAX,
        ;
    }
    let l = (a.numerator as u128) * (b.denominator as u128);
    let rr = (b.numerator as u128) * (a.denominator as u128);
    proof {
        assert((a.numerator as u128) * (b.denominator as u128) == (a.numerator as int) * (
        b.denominator as int)) by (nonlinear_arith);
        assert((b.numerator as u128) * (a.denominator as u128) == (b.numerator as int) * (
        a.denominator as int)) by (nonlinear_arith);
    }
    l < rr
}

/// A problem found while placing the objects of a message or applying a definition.
#[derive(Debug, Clone, Copy, PartialEq, Eq, Hash, Structural)]
pub enum ParseWarning {
    /// The message body has an odd length; its last character is dropped.
    OddMessageLength,
    /// A pair of the body is not an object id.
    InvalidObjectId(char, char),
    /// A pair of the body is not a hexadecimal byte.
    InvalidHexValue(char, char),
    /// An object id was defined again.
    DuplicateDefinition(ObjId),
}

/// A parse warning with the range of the token it concerns.
#[derive(Debug, Clone, Copy, PartialEq, Eq, Hash, Structural)]
pub struct ParseWarningWithRange {
    /// The warning.
    pub warning: ParseWarning,
    /// The index of the first character of the token's command word.
    pub start: usize,
    /// The index after the last character of the token's command word.
    pub end: usize,
}

/// Relies on `itertools::Itertools::tuples` over `str::chars`: the characters of `s` in
/// consecutive, non-overlapping pairs, an odd last character left out.
#[verifier::external_body]
fn char_pairs(s: &str) -> (r: Vec<(char, char)>)
    ensures
        r@.len() == s@.len() / 2,
        forall|i: int| 0 <= i < r@.len() ==> #[trigger] r@[i] == (s@[2 * i], s@[2 * i + 1]),
{
    s.chars().tuples().collect()
}

/// The id of the pair `(a, b)`, uppercased unless `case_sensitive`.
pub open spec fn pair_id(a: char, b: char, case_sensitive: bool) -> Option<ObjId> {
    match spec_obj_id(seq![a, b]) {
        None => None,
        Some(id) => if case_sensitive {
            Some(id)
        } else {
            Some(id.spec_upper())
        },
    }
}

/// Whether the pair `(a, b)` is the null id `00`.
pub open spec fn is_null_pair(a: char, b: char) -> bool {
    a == '0' && b == '0'
}

/// The objects of the first `n` pairs of the body `m` on `track`: the position of each pair
/// that is an id other than `00`, with that id.
pub open spec fn spec_obj_ids(track: u32, m: Seq<char>, case_sensitive: bool, n: int) -> Seq<(ObjTime, ObjId)>
    decreases n,
{
    if n <= 0 {
        seq![]
    } else {
        let prev = spec_obj_ids(track, m, case_sensitive, n - 1);
        let (a, b) = (m[2 * (n - 1)], m[2 * (n - 1) + 1]);
        if !is_null_pair(a, b) && pair_id(a, b, case_sensitive).is_some() {
            prev.push(
                (
                    ObjTime { track, numerator: (n - 1) as u64, denominator: (m.len() / 2) as u64 },
                    pair_id(a, b, case_sensitive).unwrap(),
                ),
            )
        } else {
            prev
        }
    }
}

/// The warnings for the first `n` pairs of the body `m`: one for each pair that is no id.
pub open spec fn spec_obj_id_warnings(m: Seq<char>, n: int) -> Seq<ParseWarning>
    decreases n,
{
    if n <= 0 {
        seq![]
    } else {
        let prev = spec_obj_id_warnings(m, n - 1);
        let (a, b) = (m[2 * (n - 1)], m[2 * (n - 1) + 1]);
        if !is_null_pair(a, b) && pair_id(a, b, true).is_none() {
            prev.push(ParseWarning::InvalidObjectId(a, b))
        } else {
            prev
        }
    }
}

/// The warnings of a body: one if its length is odd, then one for each pair that is no id.
pub open spec fn spec_parse_obj_ids_warnings(m: Seq<char>) -> Seq<ParseWarning> {
    (if m.len() % 2 == 1 {
        seq![ParseWarning::OddMessageLength]
    } else {
        seq![]
    }) + spec_obj_id_warnings(m, m.len() as int / 2)
}

proof fn lemma_push_after(
    first: Seq<ParseWarning>,
    x: Seq<ParseWarning>,
    y: Seq<ParseWarning>,
    before: Seq<ParseWarning>,
    after: Seq<ParseWarning>,
    w: ParseWarning,
)
    requires
        before == first + x,
        after == before.push(w),
        y == x.push(w),
    ensures
        after == first + y,
{
    assert((first + x).push(w) =~= first + x.push(w));
}

proof fn lemma_obj_id_warnings_step(m: Seq<char>, n1: int, a: char, b: char)
    requires
        n1 > 0,
        m[2 * (n1 - 1)] == a,
        m[2 * (n1 - 1) + 1] == b,
        !is_null_pair(a, b),
        pair_id(a, b, true).is_none(),
    ensures
        spec_obj_id_warnings(m, n1) == spec_obj_id_warnings(m, n1 - 1).push(
            ParseWarning::InvalidObjectId(a, b),
        ),
{
}

/// Splits a message body into the positions and ids of its objects, skipping `00` pairs. Ids
/// are uppercased unless `case_sensitive`. An odd length and each pair that is no id give a
/// warning.
pub fn parse_obj_ids(track: Track, message: &str, case_sensitive: bool) -> (r: (
    Vec<ParseWarning>,
    Vec<(ObjTime, ObjId)>,
))
    requires
        message@.len() / 2 <= u64::MAX,
    ensures
        r.0@ == spec_parse_obj_ids_warnings(message@),
        r.1@ == spec_obj_ids(track.0, message@, case_sensitive, message@.len() as int / 2),
{
    let ghost m = message@;
    let mut warnings: Vec<ParseWarning> = Vec::new();
    let len = message.unicode_len();
    if len % 2 == 1 {
        warnings.push(ParseWarning::OddMessageLength);
    }
    let ghost first = warnings@;
    let pairs = char_pairs(message);
    let denom = (len / 2) as u64;
    let mut objs: Vec<(ObjTime, ObjId)> = Vec::new();
    let mut i: usize = 0;
    while i < pairs.len()
        invariant
            m == message@,
            len == m.len(),
            pairs@.len() == m.len() / 2,
            forall|k: int| 0 <= k < pairs@.len() ==> #[trigger] pairs@[k] == (m[2 * k], m[2 * k + 1]),
            denom == m.len() / 2,
            i <= pairs@.len(),
            first == (if m.len() % 2 == 1 {
                seq![ParseWarning::OddMessageLength]
            } else {
                seq![]
            }),
            warnings@ == first + spec_obj_id_warnings(m, i as int),
            objs@ == spec_obj_ids(track.0, m, case_sensitive, i as int),
        decreases pairs@.len() - i,
    {
        let (a, b) = pairs[i];
        assert((a, b) == (m[2 * i as int], m[2 * i as int + 1]));
        assert(2 * (i as int) + 1 < m.len());
        let ghost ab = seq![a, b];
        let ghost n1 = i as int + 1;
        let ghost before = warnings@;
        assert(before == first + spec_obj_id_warnings(m, n1 - 1));
        if !(a == '0' && b == '0') {
            match ObjId::try_from_chars(a, b) {
                Ok(id) => {
                    let mut id = id;
                    if !case_sensitive {
                        id.make_uppercase();
                    }
                    objs.push((ObjTime { track: track.0, numerator: i as u64, denominator: denom }, id));
                },
                Err(_) => {
                    warnings.push(ParseWarning::InvalidObjectId(a, b));
                    assert(pair_id(a, b, true).is_none());
                    assert(m[2 * (n1 - 1)] == a && m[2 * (n1 - 1) + 1] == b);
                    proof {
                        lemma_obj_id_warnings_step(m, n1, a, b);
                        lemma_push_after(
                            first,
                            spec_obj_id_warnings(m, n1 - 1),
                            spec_obj_id_warnings(m, n1),
                            before,
                            warnings@,
                            ParseWarning::InvalidObjectId(a, b),
                        );
                    }
                },
            }
        }
        proof {
            if a == '0' && b == '0' {
                assert(warnings@ =~= first + spec_obj_id_warnings(m, n1));
            } else if spec_obj_id(ab).is_some() {
                assert(warnings@ =~= first + spec_obj_id_warnings(m, n1));
            }
        }
        i += 1;
    }
    (warnings, objs)
}

/// The value of a hexadecimal digit, if `c` is one.
pub open spec fn hex_digit(c: char) -> Option<u8> {
    if '0' <= c && c <= '9' {
        Some(((c as u32) - ('0' as u32)) as u8)
    } else if 'A' <= c && c <= 'F' {
        Some(((c as u32) - ('A' as u32) + 10) as u8)
    } else if 'a' <= c && c <= 'f' {
        Some(((c as u32) - ('a' as u32) + 10) as u8)
    } else {
        None
    }
}

/// The byte that the pair `(a, b)` writes in hexadecimal: two digits, or `+` and one digit.
pub open spec fn hex_pair(a: char, b: char) -> Option<u8> {
    if a == '+' {
        hex_digit(b)
    } else {
        match (hex_digit(a), hex_digit(b)) {
            (Some(x), Some(y)) => Some((x * 16 + y) as u8),
            _ => None,
        }
    }
}

fn hex_digit_of(c: char) -> (r: Option<u8>)
    ensures
        r == hex_digit(c),
        r.is_some() ==> r.unwrap() < 16,
{
    if '0' <= c && c <= '9' {
        Some((c as u32 - '0' as u32) as u8)
    } else if 'A' <= c && c <= 'F' {
        Some((c as u32 - 'A' as u32 + 10) as u8)
    } else if 'a' <= c && c <= 'f' {
        Some((c as u32 - 'a' as u32 + 10) as u8)
    } else {
        None
    }
}

fn hex_pair_of(a: char, b: char) -> (r: Option<u8>)
    ensures
        r == hex_pair(a, b),
{
    if a == '+' {
        return hex_digit_of(b);
    }
    match (hex_digit_of(a), hex_digit_of(b)) {
        (Some(x), Some(y)) => Some(x * 16 + y),
        _ => None,
    }
}

/// The values of the first `n` pairs of the body `m` on `track` that are hexadecimal bytes.
pub open spec fn spec_hex_values(track: u32, m: Seq<char>, n: int) -> Seq<(ObjTime, u8)>
    decreases n,
{
    if n <= 0 {
        seq![]
    } else {
        let prev = spec_hex_values(track, m, n - 1);
        match hex_pair(m[2 * (n - 1)], m[2 * (n - 1) + 1]) {
            Some(v) => prev.push(
                (ObjTime { track, numerator: (n - 1) as u64, denominator: (m.len() / 2) as u64 }, v),
            ),
            None => prev,
        }
    }
}

/// The warnings for the first `n` pairs of the body `m`: one for each pair that is no byte.
pub open spec fn spec_hex_warnings(m: Seq<char>, n: int) -> Seq<ParseWarning>
    decreases n,
{
    if n <= 0 {
        seq![]
    } else {
        let prev = spec_hex_warnings(m, n - 1);
        let (a, b) = (m[2 * (n - 1)], m[2 * (n - 1) + 1]);
        if hex_pair(a, b).is_none() {
            prev.push(ParseWarning::InvalidHexValue(a, b))
        } else {
            prev
        }
    }
}

proof fn lemma_hex_warnings_step(m: Seq<char>, n1: int, a: char, b: char)
    requires
        n1 > 0,
        m[2 * (n1 - 1)] == a,
        m[2 * (n1 - 1) + 1] == b,
        hex_pair(a, b).is_none(),
    ensures
        spec_hex_warnings(m, n1) == spec_hex_warnings(m, n1 - 1).push(ParseWarning::InvalidHexValue(a, b)),
{
}

/// Splits a message body into the positions and values of its hexadecimal bytes. An odd length
/// and each pair that is no byte give a warning.
pub fn parse_hex_values(track: Track, message: &str) -> (r: (Vec<ParseWarning>, Vec<(ObjTime, u8)>))
    requires
        message@.len() / 2 <= u64::MAX,
    ensures
        r.0@ == (if message@.len() % 2 == 1 {
            seq![ParseWarning::OddMessageLength]
        } else {
            seq![]
        }) + spec_hex_warnings(message@, message@.len() as int / 2),
        r.1@ == spec_hex_values(track.0, message@, message@.len() as int / 2),
{
    let ghost m = message@;
    let mut warnings: Vec<ParseWarning> = Vec::new();
    let len = message.unicode_len();
    if len % 2 == 1 {
        warnings.push(ParseWarning::OddMessageLength);
    }
    let ghost first = warnings@;
    let pairs = char_pairs(message);
    let denom = (len / 2) as u64;
    let mut vals: Vec<(ObjTime, u8)> = Vec::new();
    let mut i: usize = 0;
    while i < pairs.len()
        invariant
            m == message@,
            len == m.len(),
            pairs@.len() == m.len() / 2,
            forall|k: int| 0 <= k < pairs@.len() ==> #[trigger] pairs@[k] == (m[2 * k], m[2 * k + 1]),
            denom == m.len() / 2,
            i <= pairs@.len(),
            first == (if m.len() % 2 == 1 {
                seq![ParseWarning::OddMessageLength]
            } else {
                seq![]
            }),
            warnings@ == first + spec_hex_warnings(m, i as int),
            vals@ == spec_hex_values(track.0, m, i as int),
        decreases pairs@.len() - i,
    {
        let (a, b) = pairs[i];
        assert((a, b) == (m[2 * i as int], m[2 * i as int + 1]));
        assert(2 * (i as int) + 1 < m.len());
        let ghost n1 = i as int + 1;
        let ghost before = warnings@;
        assert(before == first + spec_hex_warnings(m, n1 - 1));
        match hex_pair_of(a, b) {
            Some(v) => {
                vals.push((ObjTime { track: track.0, numerator: i as u64, denominator: denom }, v));
                assert(warnings@ =~= first + spec_hex_warnings(m, n1));
            },
            None => {
                warnings.push(ParseWarning::InvalidHexValue(a, b));
                assert(m[2 * (n1 - 1)] == a && m[2 * (n1 - 1) + 1] == b);
                proof {
                    lemma_hex_warnings_step(m, n1, a, b);
                    lemma_push_after(
                        first,
                        spec_hex_warnings(m, n1 - 1),
                        spec_hex_warnings(m, n1),
                        before,
                        warnings@,
                        ParseWarning::InvalidHexValue(a, b),
                    );
                }
            },
        }
        i += 1;
    }
    (warnings, vals)
}

/// Whether `c` may stand in a message of numbers: ASCII letters and digits, `-` and `.`.
pub open spec fn is_number_char(c: char) -> bool {
    ('0' <= c && c <= '9') || ('A' <= c && c <= 'Z') || ('a' <= c && c <= 'z') || c == '-' || c
        == '.'
}

/// A message's text: the slice of the source when nothing had to change, else an owned copy.
#[derive(Debug, Clone, PartialEq, Eq, Hash)]
pub enum FilteredText<'a> {
    /// The message as written.
    Borrowed(&'a str),
    /// The message with some characters removed.
    Owned(String),
}

impl<'a> View for FilteredText<'a> {
    type V = Seq<char>;

    open spec fn view(&self) -> Seq<char> {
        match self {
            FilteredText::Borrowed(s) => s@,
            FilteredText::Owned(s) => s@,
        }
    }
}

impl<'a> FilteredText<'a> {
    /// The text.
    pub fn as_str(&self) -> (r: &str)
        ensures
            r@ == self@,
    {
        match self {
            FilteredText::Borrowed(s) => s,
            FilteredText::Owned(s) => s.as_str(),
        }
    }
}

/// The characters of `m` that may stand in a message of numbers, in order.
pub open spec fn number_chars(m: Seq<char>) -> Seq<char> {
    m.filter(|c: char| is_number_char(c))
}

fn number_char(c: char) -> (r: bool)
    ensures
        r == is_number_char(c),
{
    ('0' <= c && c <= '9') || ('A' <= c && c <= 'Z') || ('a' <= c && c <= 'z') || c == '-' || c == '.'
}

/// The message with every character outside `[0-9A-Za-z.-]` removed: the message itself when
/// it holds no such character, else an owned copy.
pub fn filter_message<'a>(message: &'a str) -> (r: FilteredText<'a>)
    ensures
        r@ == number_chars(message@),
        (r is Borrowed) <==> (forall|k: int| 0 <= k < message@.len() ==> is_number_char(
            #[trigger] message@[k],
        )),
        r is Borrowed ==> r@ == message@,
{
    let v = crate::cursor::chars_of(message);
    let n = v.len();
    let mut out = String::new();
    let mut run: usize = 0;
    let mut clean = true;
    let mut i: usize = 0;
    while i < n
        invariant
            v@ == message@,
            n == v@.len(),
            run <= i <= n,
            out@ + message@.subrange(run as int, i as int) == number_chars(message@.subrange(0, i as int)),
            clean ==> run == 0 && out@.len() == 0,
            clean <==> (forall|k: int| 0 <= k < i ==> is_number_char(#[trigger] message@[k])),
        decreases n - i,
    {
        let ghost pre = message@.subrange(0, i + 1);
        assert(pre.drop_last() =~= message@.subrange(0, i as int));
        proof {
            reveal(Seq::filter);
        }
        if number_char(v[i]) {
            assert(message@.subrange(run as int, i + 1) =~= message@.subrange(run as int, i as int).push(v@[i as int]));
            assert(out@ + message@.subrange(run as int, i + 1) =~= (out@ + message@.subrange(run as int, i as int)).push(v@[i as int]));
        } else {
            let ghost before = out@;
            out.append(message.substring_char(run, i));
            run = i + 1;
            clean = false;
            assert(message@.subrange(run as int, i + 1) =~= Seq::<char>::empty());
            assert(out@ + message@.subrange(run as int, i + 1) =~= out@);
        }
        i += 1;
    }
    if clean {
        assert(message@.subrange(0, n as int) =~= message@);
        assert(out@ + message@.subrange(0, n as int) =~= message@);
        FilteredText::Borrowed(message)
    } else {
        out.append(message.substring_char(run, n));
        assert(message@.subrange(0, n as int) =~= message@);
        FilteredText::Owned(out)
    }
}

/// The object that the `i`-th pair of the body `m` places on `track`.
pub open spec fn pair_object(track: u32, m: Seq<char>, case_sensitive: bool, i: int) -> (ObjTime, ObjId) {
    (
        ObjTime { track, numerator: i as u64, denominator: (m.len() / 2) as u64 },
        pair_id(m[2 * i], m[2 * i + 1], case_sensitive).unwrap(),
    )
}

/// Whether every pair of `m` other than `00` is an object id.
pub open spec fn pairs_are_ids(m: Seq<char>) -> bool {
    forall|i: int|
        0 <= i < m.len() / 2 && !is_null_pair(m[2 * i], m[2 * i + 1]) ==> (#[trigger] pair_id(
            m[2 * i],
            m[2 * i + 1],
            true,
        )).is_some()
}

proof fn lemma_enumerate_prefix(track: u32, m: Seq<char>, case_sensitive: bool, n: int)
    requires
        0 <= n <= m.len() / 2,
        pairs_are_ids(m),
    ensures
        spec_obj_id_warnings(m, n) == Seq::<ParseWarning>::empty(),
        forall|x: (ObjTime, ObjId)|
            spec_obj_ids(track, m, case_sensitive, n).contains(x) <==> exists|i: int|
                0 <= i < n && !is_null_pair(m[2 * i], m[2 * i + 1]) && x == pair_object(
                    track,
                    m,
                    case_sensitive,
                    i,
                ),
    decreases n,
{
    if n > 0 {
        lemma_enumerate_prefix(track, m, case_sensitive, n - 1);
        let i = n - 1;
        let (a, b) = (m[2 * i], m[2 * i + 1]);
        if !is_null_pair(a, b) {
            assert(pair_id(a, b, true).is_some());
        }
        let prev = spec_obj_ids(track, m, case_sensitive, n - 1);
        let cur = spec_obj_ids(track, m, case_sensitive, n);
        let obj = pair_object(track, m, case_sensitive, i);
        if !is_null_pair(a, b) {
            assert(pair_id(a, b, case_sensitive).is_some());
            assert(cur == prev.push(obj));
        } else {
            assert(cur == prev);
        }
        assert forall|x: (ObjTime, ObjId)| cur.contains(x) <==> exists|j: int|
            0 <= j < n && !is_null_pair(m[2 * j], m[2 * j + 1]) && x == pair_object(
                track,
                m,
                case_sensitive,
                j,
            ) by {
            let p_old = exists|j: int|
                0 <= j < n - 1 && !is_null_pair(m[2 * j], m[2 * j + 1]) && x == pair_object(
                    track,
                    m,
                    case_sensitive,
                    j,
                );
            assert(prev.contains(x) <==> p_old);
            if cur.contains(x) {
                if prev.contains(x) {
                    let j = choose|j: int|
                        0 <= j < n - 1 && !is_null_pair(m[2 * j], m[2 * j + 1]) && x
                            == pair_object(track, m, case_sensitive, j);
                    assert(0 <= j < n);
                } else {
                    assert(!is_null_pair(a, b));
                    let k = choose|k: int| 0 <= k < cur.len() && cur[k] == x;
                    if k < prev.len() {
                        assert(cur[k] == prev[k]);
                        assert(prev.contains(x));
                    }
                    assert(x == obj);
                }
            }
            if exists|j: int|
                0 <= j < n && !is_null_pair(m[2 * j], m[2 * j + 1]) && x == pair_object(
                    track,
                    m,
                    case_sensitive,
                    j,
                ) {
                let j = choose|j: int|
                    0 <= j < n && !is_null_pair(m[2 * j], m[2 * j + 1]) && x == pair_object(
                        track,
                        m,
                        case_sensitive,
                        j,
                    );
                if j < i {
                    assert(p_old);
                    assert(prev.contains(x));
                    let k = choose|k: int| 0 <= k < prev.len() && prev[k] == x;
                    assert(cur[k] == x);
                } else {
                    assert(x == obj);
                    assert(cur[prev.len() as int] == x);
                }
            }
        }
    }
}

/// For a body of even length whose pairs other than `00` are all object ids, decoding gives no
/// warning, and the objects are exactly those of the enumeration: for each pair `i` other than
/// `00`, its id at the position `(track, i / (len / 2))`.
pub proof fn lemma_parse_obj_ids_enumerates(track: u32, m: Seq<char>, case_sensitive: bool)
    requires
        m.len() % 2 == 0,
        pairs_are_ids(m),
    ensures
        spec_parse_obj_ids_warnings(m) == Seq::<ParseWarning>::empty(),
        spec_obj_ids(track, m, case_sensitive, m.len() as int / 2).to_set() == Set::new(
            |x: (ObjTime, ObjId)|
                exists|i: int|
                    0 <= i < m.len() / 2 && !is_null_pair(m[2 * i], m[2 * i + 1]) && x
                        == pair_object(track, m, case_sensitive, i),
        ),
{
    lemma_enumerate_prefix(track, m, case_sensitive, m.len() as int / 2);
    assert(spec_parse_obj_ids_warnings(m) =~= Seq::<ParseWarning>::empty());
    assert(spec_obj_ids(track, m, case_sensitive, m.len() as int / 2).to_set() =~= Set::new(
        |x: (ObjTime, ObjId)|
            exists|i: int|
                0 <= i < m.len() / 2 && !is_null_pair(m[2 * i], m[2 * i + 1]) && x == pair_object(
                    track,
                    m,
                    case_sensitive,
                    i,
                ),
    ));
}

} // verus!
