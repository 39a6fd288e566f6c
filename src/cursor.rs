//! A cursor over the source text that hands out whitespace-delimited slices and line remainders.
use vstd::prelude::*;

verus! {

/// Whether `c` is ASCII whitespace: space, tab, line feed, form feed or carriage return.
pub open spec fn is_ws(c: char) -> bool {
    c == ' ' || c == '\t' || c == '\n' || c == '\x0C' || c == '\r'
}

/// The first index at or after `i` whose character is not whitespace, or the length.
pub open spec fn skip_ws(s: Seq<char>, i: int) -> int
    decreases s.len() - i,
{
    if i < 0 || i >= s.len() {
        if i < 0 { 0 } else { s.len() as int }
    } else if is_ws(s[i]) {
        skip_ws(s, i + 1)
    } else {
        i
    }
}

/// The first index at or after `i` whose character is whitespace, or the length.
pub open spec fn word_end(s: Seq<char>, i: int) -> int
    decreases s.len() - i,
{
    if i < 0 || i >= s.len() {
        if i < 0 { 0 } else { s.len() as int }
    } else if is_ws(s[i]) {
        i
    } else {
        word_end(s, i + 1)
    }
}

/// The first index at or after `i` whose character is a line feed, or the length.
pub open spec fn line_end(s: Seq<char>, i: int) -> int
    decreases s.len() - i,
{
    if i < 0 || i >= s.len() {
        if i < 0 { 0 } else { s.len() as int }
    } else if s[i] == '\n' {
        i
    } else {
        line_end(s, i + 1)
    }
}

/// The index after the line feed that ends the line holding `i`, or the length.
pub open spec fn next_line_start(s: Seq<char>, i: int) -> int {
    let e = line_end(s, i);
    if e < s.len() { e + 1 } else { e }
}

/// The end of `s[i..j]` with trailing whitespace dropped.
pub open spec fn trim_end_index(s: Seq<char>, i: int, j: int) -> int
    decreases j - i,
{
    if j <= i {
        i
    } else if is_ws(s[j - 1]) {
        trim_end_index(s, i, j - 1)
    } else {
        j
    }
}

/// The text of the next word from `i`, if any: `(start, end)` of the word.
pub open spec fn next_word(s: Seq<char>, i: int) -> Option<(int, int)> {
    let a = skip_ws(s, i);
    if a >= s.len() {
        None
    } else {
        Some((a, word_end(s, a)))
    }
}

/// The bounds of the rest of the line from `i`, trimmed of whitespace on both ends.
pub open spec fn rest_of_line(s: Seq<char>, i: int) -> (int, int) {
    let e = line_end(s, i);
    let a = if skip_ws(s, i) < e { skip_ws(s, i) } else { e };
    (a, trim_end_index(s, a, e))
}

pub(crate) proof fn lemma_skip_ws_bounds(s: Seq<char>, i: int)
    requires
        0 <= i <= s.len(),
    ensures
        i <= skip_ws(s, i) <= s.len(),
        forall|k: int| i <= k < skip_ws(s, i) ==> is_ws(#[trigger] s[k]),
        skip_ws(s, i) < s.len() ==> !is_ws(s[skip_ws(s, i)]),
    decreases s.len() - i,
{
    if i < s.len() && is_ws(s[i]) {
        lemma_skip_ws_bounds(s, i + 1);
    }
}

pub(crate) proof fn lemma_word_end_bounds(s: Seq<char>, i: int)
    requires
        0 <= i <= s.len(),
    ensures
        i <= word_end(s, i) <= s.len(),
        forall|k: int| i <= k < word_end(s, i) ==> !is_ws(#[trigger] s[k]),
    decreases s.len() - i,
{
    if i < s.len() && !is_ws(s[i]) {
        lemma_word_end_bounds(s, i + 1);
    }
}

pub(crate) proof fn lemma_line_end_bounds(s: Seq<char>, i: int)
    requires
        0 <= i <= s.len(),
    ensures
        i <= line_end(s, i) <= s.len(),
        forall|k: int| i <= k < line_end(s, i) ==> #[trigger] s[k] != '\n',
        line_end(s, i) < s.len() ==> s[line_end(s, i)] == '\n',
    decreases s.len() - i,
{
    if i < s.len() && s[i] != '\n' {
        lemma_line_end_bounds(s, i + 1);
    }
}

proof fn lemma_trim_end_bounds(s: Seq<char>, i: int, j: int)
    requires
        0 <= i <= j <= s.len(),
    ensures
        i <= trim_end_index(s, i, j) <= j,
    decreases j - i,
{
    if j > i && is_ws(s[j - 1]) {
        lemma_trim_end_bounds(s, i, j - 1);
    }
}

/// The number of line feeds among the first `i` characters of `s`.
pub open spec fn line_feeds(s: Seq<char>, i: int) -> int
    decreases i,
{
    if i <= 0 {
        0
    } else {
        line_feeds(s, i - 1) + if s[i - 1] == '\n' { 1int } else { 0int }
    }
}

/// The index after the last line feed among the first `i` characters of `s`, or 0.
pub open spec fn line_start(s: Seq<char>, i: int) -> int
    decreases i,
{
    if i <= 0 {
        0
    } else if s[i - 1] == '\n' {
        i
    } else {
        line_start(s, i - 1)
    }
}

proof fn lemma_line_feeds_bound(s: Seq<char>, i: int)
    requires
        0 <= i,
    ensures
        0 <= line_feeds(s, i) <= i,
        0 <= line_start(s, i) <= i,
    decreases i,
{
    if i > 0 {
        lemma_line_feeds_bound(s, i - 1);
    }
}

/// The line and column, both counted from 1, of the character at `index` of `source`: the
/// position that a diagnostic with the range starting at `index` reports.
pub fn line_col(source: &str, index: usize) -> (r: (usize, usize))
    requires
        index <= source@.len(),
        index < usize::MAX,
    ensures
        r.0 == line_feeds(source@, index as int) + 1,
        r.1 == index - line_start(source@, index as int) + 1,
{
    let chars = chars_of(source);
    let mut line: usize = 1;
    let mut start: usize = 0;
    let mut i: usize = 0;
    while i < index
        invariant
            chars@ == source@,
            index <= chars@.len(),
            index < usize::MAX,
            i <= index,
            line == line_feeds(source@, i as int) + 1,
            start == line_start(source@, i as int),
        decreases index - i,
    {
        proof {
            lemma_line_feeds_bound(source@, i as int);
        }
        if chars[i] == '\n' {
            line = line + 1;
            start = i + 1;
        }
        i += 1;
    }
    proof {
        lemma_line_feeds_bound(source@, index as int);
    }
    (line, index - start + 1)
}

/// Whether `c` is ASCII whitespace.
pub fn is_ascii_ws(c: char) -> (r: bool)
    ensures
        r == is_ws(c),
{
    c == ' ' || c == '\t' || c == '\n' || c == '\x0C' || c == '\r'
}

/// The characters of `s`, in order.
pub fn chars_of(s: &str) -> (r: Vec<char>)
    ensures
        r@ == s@,
{
    let n = s.unicode_len();
    let mut v: Vec<char> = Vec::with_capacity(n);
    let mut i: usize = 0;
    while i < n
        invariant
            n == s@.len(),
            i <= n,
            v@ == s@.subrange(0, i as int),
        decreases n - i,
    {
        v.push(s.get_char(i));
        i += 1;
        assert(v@ =~= s@.subrange(0, i as int));
    }
    assert(v@ =~= s@);
    v
}

/// An advancing view over the source text.
pub struct Cursor<'a> {
    source: &'a str,
    chars: Vec<char>,
    index: usize,
}

impl<'a> Cursor<'a> {
    /// The characters of the source.
    pub closed spec fn text(&self) -> Seq<char> {
        self.chars@
    }

    /// The position of the cursor, as a character index.
    pub closed spec fn pos(&self) -> int {
        self.index as int
    }

    /// The source text that the cursor reads.
    pub closed spec fn source(&self) -> &'a str {
        self.source
    }

    pub closed spec fn wf(&self) -> bool {
        &&& self.chars@ == self.source@
        &&& self.index <= self.chars@.len()
    }

    /// The position of a well-formed cursor lies within the text.
    pub proof fn lemma_pos_bound(&self)
        requires
            self.wf(),
        ensures
            0 <= self.pos() <= self.text().len(),
    {
    }

    /// A cursor at the start of `source`.
    pub fn new(source: &'a str) -> (r: Cursor<'a>)
        ensures
            r.wf(),
            r.text() == source@,
            r.source() == source,
            r.pos() == 0,
    {
        Cursor { source, chars: chars_of(source), index: 0 }
    }

    fn skip_ws_from(&self, from: usize) -> (r: usize)
        requires
            self.wf(),
            from <= self.chars@.len(),
        ensures
            r == skip_ws(self.chars@, from as int),
    {
        let mut i: usize = from;
        while i < self.chars.len() && is_ascii_ws(self.chars[i])
            invariant
                self.wf(),
                from <= i <= self.chars@.len(),
                skip_ws(self.chars@, from as int) == skip_ws(self.chars@, i as int),
            decreases self.chars@.len() - i,
        {
            i += 1;
        }
        i
    }

    fn word_end_from(&self, from: usize) -> (r: usize)
        requires
            self.wf(),
            from <= self.chars@.len(),
        ensures
            r == word_end(self.chars@, from as int),
    {
        let mut i: usize = from;
        while i < self.chars.len() && !is_ascii_ws(self.chars[i])
            invariant
                self.wf(),
                from <= i <= self.chars@.len(),
                word_end(self.chars@, from as int) == word_end(self.chars@, i as int),
            decreases self.chars@.len() - i,
        {
            i += 1;
        }
        i
    }

    fn line_end_from(&self, from: usize) -> (r: usize)
        requires
            self.wf(),
            from <= self.chars@.len(),
        ensures
            r == line_end(self.chars@, from as int),
    {
        let mut i: usize = from;
        while i < self.chars.len() && self.chars[i] != '\n'
            invariant
                self.wf(),
                from <= i <= self.chars@.len(),
                line_end(self.chars@, from as int) == line_end(self.chars@, i as int),
            decreases self.chars@.len() - i,
        {
            i += 1;
        }
        i
    }

    fn trim_end_from(&self, from: usize, to: usize) -> (r: usize)
        requires
            self.wf(),
            from <= to <= self.chars@.len(),
        ensures
            r == trim_end_index(self.chars@, from as int, to as int),
    {
        let mut j: usize = to;
        while j > from && is_ascii_ws(self.chars[j - 1])
            invariant
                self.wf(),
                from <= j <= to,
                to <= self.chars@.len(),
                trim_end_index(self.chars@, from as int, to as int) == trim_end_index(
                    self.chars@,
                    from as int,
                    j as int,
                ),
            decreases j,
        {
            j -= 1;
        }
        j
    }

    /// Skips whitespace and returns the next whitespace-delimited word, with its bounds.
    pub fn next_token_at(&mut self) -> (r: Option<(&'a str, usize, usize)>)
        requires
            old(self).wf(),
        ensures
            final(self).wf(),
            final(self).text() == old(self).text(),
            final(self).source() == old(self).source(),
            old(self).pos() <= final(self).pos(),
            match next_word(old(self).text(), old(self).pos()) {
                None => r.is_none() && final(self).pos() == old(self).text().len(),
                Some((a, b)) => r.is_some() && r.unwrap().1 == a && r.unwrap().2 == b
                    && r.unwrap().0@ == old(self).text().subrange(a, b) && final(self).pos() == b
                    && old(self).pos() <= a && a < b,
            },
    {
        proof {
            lemma_skip_ws_bounds(self.chars@, self.index as int);
        }
        let a = self.skip_ws_from(self.index);
        if a >= self.chars.len() {
            self.index = self.chars.len();
            return None;
        }
        proof {
            lemma_word_end_bounds(self.chars@, a as int);
            lemma_word_end_bounds(self.chars@, a as int + 1);
        }
        let b = self.word_end_from(a);
        self.index = b;
        Some((self.source.substring_char(a, b), a, b))
    }

    /// Skips whitespace and returns the next whitespace-delimited word.
    pub fn next_token(&mut self) -> (r: Option<&'a str>)
        requires
            old(self).wf(),
        ensures
            final(self).wf(),
            final(self).text() == old(self).text(),
            final(self).source() == old(self).source(),
            old(self).pos() <= final(self).pos(),
            match next_word(old(self).text(), old(self).pos()) {
                None => r.is_none() && final(self).pos() == old(self).text().len(),
                Some((a, b)) => r.is_some() && r.unwrap()@ == old(self).text().subrange(a, b)
                    && final(self).pos() == b,
            },
    {
        match self.next_token_at() {
            Some((w, _, _)) => Some(w),
            None => None,
        }
    }

    /// Returns the rest of the current line, trimmed of whitespace, and moves past its end.
    pub fn next_line_remaining(&mut self) -> (r: &'a str)
        requires
            old(self).wf(),
        ensures
            final(self).wf(),
            final(self).text() == old(self).text(),
            final(self).source() == old(self).source(),
            final(self).pos() == next_line_start(old(self).text(), old(self).pos()),
            old(self).pos() <= final(self).pos(),
            r@ == old(self).text().subrange(
                rest_of_line(old(self).text(), old(self).pos()).0,
                rest_of_line(old(self).text(), old(self).pos()).1,
            ),
    {
        let ghost s = self.chars@;
        proof {
            lemma_line_end_bounds(s, self.index as int);
            lemma_skip_ws_bounds(s, self.index as int);
        }
        let e = self.line_end_from(self.index);
        let sk = self.skip_ws_from(self.index);
        let a = if sk < e {
            sk
        } else {
            e
        };
        proof {
            lemma_trim_end_bounds(s, a as int, e as int);
        }
        let b = self.trim_end_from(a, e);
        self.index = if e < self.chars.len() {
            e + 1
        } else {
            e
        };
        self.source.substring_char(a, b)
    }

    /// Returns the line from `start` to its end, trimmed of trailing whitespace, and moves past it.
    pub fn next_line_entire(&mut self, start: usize) -> (r: &'a str)
        requires
            old(self).wf(),
            start <= old(self).pos(),
        ensures
            final(self).wf(),
            final(self).text() == old(self).text(),
            final(self).source() == old(self).source(),
            final(self).pos() == next_line_start(old(self).text(), old(self).pos()),
            old(self).pos() <= final(self).pos(),
            r@ == old(self).text().subrange(
                start as int,
                trim_end_index(old(self).text(), start as int, line_end(old(self).text(), old(self).pos())),
            ),
    {
        let ghost s = self.chars@;
        proof {
            lemma_line_end_bounds(s, self.index as int);
        }
        let e = self.line_end_from(self.index);
        proof {
            lemma_trim_end_bounds(s, start as int, e as int);
        }
        let b = self.trim_end_from(start, e);
        self.index = if e < self.chars.len() {
            e + 1
        } else {
            e
        };
        self.source.substring_char(start, b)
    }

    /// Moves past the end of the line that holds the index `from`, unless already beyond it.
    pub fn skip_line_of(&mut self, from: usize)
        requires
            old(self).wf(),
            from <= old(self).text().len(),
        ensures
            final(self).wf(),
            final(self).text() == old(self).text(),
            final(self).source() == old(self).source(),
            final(self).pos() == if old(self).pos() < next_line_start(old(self).text(), from as int) {
                next_line_start(old(self).text(), from as int)
            } else {
                old(self).pos()
            },
            old(self).pos() <= final(self).pos(),
    {
        proof {
            lemma_line_end_bounds(self.chars@, from as int);
        }
        let e = self.line_end_from(from);
        let n = if e < self.chars.len() {
            e + 1
        } else {
            e
        };
        if self.index < n {
            self.index = n;
        }
    }
}

} // verus!
