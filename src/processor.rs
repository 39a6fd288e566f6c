//! Token processors: each reads the whole resolved token stream and gives one facet of the score
//! model with its warnings. Two processors compose into one that gives the pair of their outputs,
//! and a mapping reshapes an output.
use vstd::prelude::*;

use crate::defs::Prompter;
use crate::lexer::TokenWithRange;
use crate::message::ParseWarningWithRange;
use crate::model::{
    has_base62, read_definitions, read_header, read_objects, Bms, Definitions, Header, Objects,
};

verus! {

/// A processor of tokens: it owns one family of commands and ignores the other tokens.
pub trait TokenProcessor<'a> {
    /// What the processor gives.
    type Output;

    /// Whether the processor can run.
    spec fn ready(&self) -> bool;

    /// Whether `out` and the warnings `ws` are what the processor gives on the tokens `ts` under
    /// the prompter `p`.
    spec fn gives(
        &self,
        ts: Seq<TokenWithRange<&'a str>>,
        p: Prompter,
        out: Self::Output,
        ws: Seq<ParseWarningWithRange>,
    ) -> bool;

    /// Processes all the tokens.
    fn process(&self, tokens: &Vec<TokenWithRange<&'a str>>, prompter: Prompter) -> (r: (
        Self::Output,
        Vec<ParseWarningWithRange>,
    ))
        requires
            self.ready(),
        ensures
            self.gives(tokens@, prompter, r.0, r.1@),
    ;
}

/// A processor that runs `first`, then `second`, on the same tokens.
#[derive(Debug, Clone, PartialEq, Eq, Hash)]
pub struct SequentialProcessor<F, S> {
    /// The processor run first.
    pub first: F,
    /// The processor run second.
    pub second: S,
}

impl<F, S> SequentialProcessor<F, S> {
    /// The processor that runs `first`, then `second`.
    pub fn new(first: F, second: S) -> (r: SequentialProcessor<F, S>)
        ensures
            r.first == first,
            r.second == second,
    {
        SequentialProcessor { first, second }
    }
}

impl<'a, F: TokenProcessor<'a>, S: TokenProcessor<'a>> TokenProcessor<'a> for SequentialProcessor<F, S> {
    type Output = (F::Output, S::Output);

    open spec fn ready(&self) -> bool {
        self.first.ready() && self.second.ready()
    }

    /// The pair of the outputs; the warnings of `first`, then those of `second`.
    open spec fn gives(
        &self,
        ts: Seq<TokenWithRange<&'a str>>,
        p: Prompter,
        out: (F::Output, S::Output),
        ws: Seq<ParseWarningWithRange>,
    ) -> bool {
        exists|w1: Seq<ParseWarningWithRange>, w2: Seq<ParseWarningWithRange>|
            ws == w1 + w2 && #[trigger] self.first.gives(ts, p, out.0, w1) && #[trigger] self.second.gives(
                ts,
                p,
                out.1,
                w2,
            )
    }

    fn process(&self, tokens: &Vec<TokenWithRange<&'a str>>, prompter: Prompter) -> (r: (
        (F::Output, S::Output),
        Vec<ParseWarningWithRange>,
    )) {
        let (o1, mut w1) = self.first.process(tokens, prompter);
        let (o2, mut w2) = self.second.process(tokens, prompter);
        let ghost (g1, g2) = (w1@, w2@);
        w1.append(&mut w2);
        let r = ((o1, o2), w1);
        assert(r.1@ == g1 + g2);
        assert(self.first.gives(tokens@, prompter, r.0.0, g1) && self.second.gives(tokens@, prompter, r.0.1, g2));
        r
    }
}

/// A processor whose output is that of `source` reshaped by `mapping`.
#[derive(Debug, Clone, PartialEq, Eq, Hash)]
pub struct Mapped<TP, M> {
    /// The processor whose output is reshaped.
    pub source: TP,
    /// The function that reshapes the output.
    pub mapping: M,
}

impl<TP, M> Mapped<TP, M> {
    /// The processor that reshapes the output of `source` by `mapping`.
    pub fn new(source: TP, mapping: M) -> (r: Mapped<TP, M>)
        ensures
            r.source == source,
            r.mapping == mapping,
    {
        Mapped { source, mapping }
    }
}

impl<'a, O, TP: TokenProcessor<'a>, M: Fn(TP::Output) -> O> TokenProcessor<'a> for Mapped<TP, M> {
    type Output = O;

    open spec fn ready(&self) -> bool {
        self.source.ready() && forall|x: TP::Output| #[trigger] call_requires(self.mapping, (x,))
    }

    /// The mapping of an output of `source`, with the warnings of `source`.
    open spec fn gives(
        &self,
        ts: Seq<TokenWithRange<&'a str>>,
        p: Prompter,
        out: O,
        ws: Seq<ParseWarningWithRange>,
    ) -> bool {
        exists|x: TP::Output| #[trigger] self.source.gives(ts, p, x, ws) && call_ensures(self.mapping, (x,), out)
    }

    fn process(&self, tokens: &Vec<TokenWithRange<&'a str>>, prompter: Prompter) -> (r: (
        O,
        Vec<ParseWarningWithRange>,
    )) {
        let (x, ws) = self.source.process(tokens, prompter);
        let out = (self.mapping)(x);
        (out, ws)
    }
}

/// Observes `#BASE 62`, which makes object ids case-sensitive.
#[derive(Debug, Clone, Copy, PartialEq, Eq, Hash)]
pub struct RepresentationProcessor;

impl<'a> TokenProcessor<'a> for RepresentationProcessor {
    type Output = bool;

    open spec fn ready(&self) -> bool {
        true
    }

    /// Whether some token declares `#BASE 62`; no warning.
    open spec fn gives(&self, ts: Seq<TokenWithRange<&'a str>>, p: Prompter, out: bool, ws: Seq<ParseWarningWithRange>) -> bool {
        out == has_base62(ts) && ws == Seq::<ParseWarningWithRange>::empty()
    }

    fn process(&self, tokens: &Vec<TokenWithRange<&'a str>>, prompter: Prompter) -> (r: (
        bool,
        Vec<ParseWarningWithRange>,
    )) {
        let r = (crate::model::find_base62(tokens), Vec::new());
        assert(r.1@ =~= Seq::<ParseWarningWithRange>::empty());
        r
    }
}

/// Records the header values: metadata, music information, resources, options and volume.
#[derive(Debug, Clone, Copy, PartialEq, Eq, Hash)]
pub struct HeaderProcessor;

impl<'a> TokenProcessor<'a> for HeaderProcessor {
    type Output = Header<'a>;

    open spec fn ready(&self) -> bool {
        true
    }

    /// The last value of each header command; no warning.
    open spec fn gives(&self, ts: Seq<TokenWithRange<&'a str>>, p: Prompter, out: Header<'a>, ws: Seq<ParseWarningWithRange>) -> bool {
        out.built_from(ts) && ws == Seq::<ParseWarningWithRange>::empty()
    }

    fn process(&self, tokens: &Vec<TokenWithRange<&'a str>>, prompter: Prompter) -> (r: (
        Header<'a>,
        Vec<ParseWarningWithRange>,
    )) {
        let r = (read_header(tokens), Vec::new());
        assert(r.1@ =~= Seq::<ParseWarningWithRange>::empty());
        r
    }
}

/// Records the definitions of sounds, images, tempos, stops, scrolls, speeds, judge levels,
/// options and texts.
#[derive(Debug, Clone, Copy, PartialEq, Eq, Hash)]
pub struct DefinitionsProcessor;

impl<'a> TokenProcessor<'a> for DefinitionsProcessor {
    type Output = Definitions<'a>;

    open spec fn ready(&self) -> bool {
        true
    }

    /// The tables of definitions, the prompter deciding on redefinitions, and the warnings on
    /// redefinitions.
    open spec fn gives(&self, ts: Seq<TokenWithRange<&'a str>>, p: Prompter, out: Definitions<'a>, ws: Seq<ParseWarningWithRange>) -> bool {
        out.built_from(ts, p) && ws == Definitions::spec_warnings(ts, p)
    }

    fn process(&self, tokens: &Vec<TokenWithRange<&'a str>>, prompter: Prompter) -> (r: (
        Definitions<'a>,
        Vec<ParseWarningWithRange>,
    )) {
        let mut ws: Vec<ParseWarningWithRange> = Vec::new();
        let defs = read_definitions(tokens, prompter, &mut ws);
        assert(ws@ =~= Definitions::spec_warnings(tokens@, prompter));
        (defs, ws)
    }
}

/// Places the objects of the messages on the timeline.
#[derive(Debug, Clone, Copy, PartialEq, Eq, Hash)]
pub struct ObjectsProcessor;

impl<'a> TokenProcessor<'a> for ObjectsProcessor {
    type Output = Objects<'a>;

    open spec fn ready(&self) -> bool {
        true
    }

    /// The objects of the messages, and the warnings of their bodies.
    open spec fn gives(&self, ts: Seq<TokenWithRange<&'a str>>, p: Prompter, out: Objects<'a>, ws: Seq<ParseWarningWithRange>) -> bool {
        out.built_from(ts) && ws == crate::model::fold_message_warnings(ts)
    }

    fn process(&self, tokens: &Vec<TokenWithRange<&'a str>>, prompter: Prompter) -> (r: (
        Objects<'a>,
        Vec<ParseWarningWithRange>,
    )) {
        let mut ws: Vec<ParseWarningWithRange> = Vec::new();
        let objects = read_objects(tokens, &mut ws);
        assert(ws@ =~= crate::model::fold_message_warnings(tokens@));
        (objects, ws)
    }
}

/// Assembles the score model from the outputs of the processors.
pub fn assemble<'a>(parts: (bool, (Header<'a>, (Definitions<'a>, Objects<'a>)))) -> (r: Bms<'a>)
    ensures
        r == (Bms { case_sensitive: parts.0, header: parts.1.0, defs: parts.1.1.0, objects: parts.1.1.1 }),
{
    let (case_sensitive, (header, (defs, objects))) = parts;
    Bms { case_sensitive, header, defs, objects }
}

} // verus!
