//! The control-flow evaluator: resolves `#RANDOM`/`#IF` and `#SWITCH`/`#CASE` scopes of a token
//! stream, keeping the tokens of the selected branches.
//!
//! Numbers are drawn from a script: the `k`-th `#RANDOM` or `#SWITCH` of the stream, counted from
//! 0 whether or not it stands in a selected branch, takes `draws[k % draws.len()]` (0 when the
//! script is empty, which no branch matches). A caller with a random source draws one number in
//! `[1, n]` for each bound `n` that [`random_bounds`] lists.
//!
//! In relaxed mode the evaluator recovers from ill-nested scopes and reports a warning:
//! - a misplaced `#IF n` or `#ELSEIF n` opens an implicit random scope whose drawn number is `n`,
//!   closed again by its `#ENDIF`, so the branch is taken;
//! - a misplaced `#CASE n` opens an implicit switch scope whose drawn number is `n`;
//! - a misplaced `#ELSE`, `#DEF` or `#SKIP` is ignored, and a duplicate `#ELSE` takes nothing;
//! - a dangling `#ENDIF`, `#ENDRANDOM` or `#ENDSW` closes the innermost scope of its kind and
//!   every scope inside it, or is ignored if there is none;
//! - scopes left open at the end are reported once.
//!
//! In strict mode each of these is an error and resolution stops.
use vstd::prelude::*;

use crate::lexer::TokenWithRange;
use crate::token::Token;

verus! {

/// A scope of the control flow.
#[derive(Debug, Clone, Copy, PartialEq, Eq, Hash, Structural)]
pub struct Frame {
    /// Whether the scope is a switch scope; else it is a random scope.
    pub is_switch: bool,
    /// The drawn number of the scope.
    pub value: u32,
    /// Random scope: whether an `#IF` branch is open.
    pub in_branch: bool,
    /// Whether the current branch or case is taken.
    pub active: bool,
    /// Whether a branch or case of the current chain matched the drawn number.
    pub matched: bool,
    /// Random scope: whether the open branch is an `#ELSE` branch.
    pub seen_else: bool,
    /// Switch scope: whether a `#SKIP` left the taken case.
    pub skipped: bool,
    /// Whether a misplaced `#IF` or `#CASE` opened the scope.
    pub implicit: bool,
}

/// A problem with the nesting of control-flow scopes.
#[derive(Debug, Clone, Copy, PartialEq, Eq, Hash, Structural)]
pub enum ControlFlowWarning {
    /// `#IF` or `#ELSEIF` outside a random scope.
    MisplacedIf,
    /// `#ELSE` outside an `#IF` branch.
    MisplacedElse,
    /// A second `#ELSE` in one chain of branches.
    DuplicateElse,
    /// `#CASE`, `#DEF` or `#SKIP` outside a switch scope.
    MisplacedCase,
    /// `#ENDIF` without an open branch.
    UnmatchedEndIf,
    /// `#ENDRANDOM` without an open random scope.
    UnmatchedEndRandom,
    /// `#ENDSW` without an open switch scope.
    UnmatchedEndSwitch,
    /// A scope was not closed at the end of the stream.
    UnclosedScope,
}

/// A control-flow warning with the range of the token it concerns.
#[derive(Debug, Clone, Copy, PartialEq, Eq, Hash, Structural)]
pub struct ControlFlowWarningWithRange {
    /// The warning.
    pub warning: ControlFlowWarning,
    /// The index of the first character of the token's command word.
    pub start: usize,
    /// The index after the last character of the token's command word.
    pub end: usize,
}

/// The state of the evaluator: open scopes, numbers drawn, tokens kept, warnings.
pub type CfState<S> = (Seq<Frame>, int, Seq<TokenWithRange<S>>, Seq<ControlFlowWarningWithRange>);

/// The number drawn for the `k`-th random or switch scope.
pub open spec fn draw(draws: Seq<u32>, k: int) -> u32 {
    if draws.len() == 0 {
        0
    } else {
        draws[k % (draws.len() as int)]
    }
}

/// Whether tokens inside the scope are kept.
pub open spec fn frame_passes(f: Frame) -> bool {
    if f.is_switch {
        f.active
    } else {
        !f.in_branch || f.active
    }
}

/// Whether tokens inside all the scopes are kept.
pub open spec fn all_pass(fs: Seq<Frame>) -> bool {
    forall|i: int| 0 <= i < fs.len() ==> #[trigger] frame_passes(fs[i])
}

/// A fresh scope with the drawn number `value`.
pub open spec fn new_frame(is_switch: bool, value: u32) -> Frame {
    Frame {
        is_switch,
        value,
        in_branch: false,
        active: false,
        matched: false,
        seen_else: false,
        skipped: false,
        implicit: false,
    }
}

/// An implicit scope whose drawn number is `value` and whose first branch or case is taken.
pub open spec fn implicit_frame(is_switch: bool, value: u32) -> Frame {
    Frame {
        is_switch,
        value,
        in_branch: !is_switch,
        active: true,
        matched: true,
        seen_else: false,
        skipped: false,
        implicit: true,
    }
}

/// Whether the innermost scope is a random scope without an open branch.
pub open spec fn can_open_if(fs: Seq<Frame>) -> bool {
    fs.len() > 0 && !fs.last().is_switch && !fs.last().in_branch
}

/// Whether the innermost scope is a random scope with an open branch.
pub open spec fn has_branch(fs: Seq<Frame>) -> bool {
    fs.len() > 0 && !fs.last().is_switch && fs.last().in_branch
}

/// Whether the innermost scope is a switch scope.
pub open spec fn in_switch(fs: Seq<Frame>) -> bool {
    fs.len() > 0 && fs.last().is_switch
}

/// The scopes after `#IF x`: a branch of the innermost random scope, or an implicit scope.
pub open spec fn open_if(fs: Seq<Frame>, x: u32) -> Seq<Frame> {
    if can_open_if(fs) {
        let f = fs.last();
        fs.update(
            fs.len() - 1,
            Frame { in_branch: true, active: x == f.value, matched: x == f.value, seen_else: false, ..f },
        )
    } else {
        fs.push(implicit_frame(false, x))
    }
}

/// The scopes after the open branch of the innermost random scope closes.
pub open spec fn close_branch(fs: Seq<Frame>) -> Seq<Frame> {
    let f = fs.last();
    if f.implicit {
        fs.drop_last()
    } else {
        fs.update(
            fs.len() - 1,
            Frame { in_branch: false, active: false, matched: false, seen_else: false, ..f },
        )
    }
}

/// The index of the innermost scope below `n` that `p` selects, or -1.
pub open spec fn innermost(fs: Seq<Frame>, n: int, p: spec_fn(Frame) -> bool) -> int
    decreases n,
{
    if n <= 0 {
        -1
    } else if p(fs[n - 1]) {
        n - 1
    } else {
        innermost(fs, n - 1, p)
    }
}

/// Random scopes with an open branch.
pub open spec fn sel_branch() -> spec_fn(Frame) -> bool {
    |f: Frame| !f.is_switch && f.in_branch
}

/// Random scopes opened by `#RANDOM` or `#SETRANDOM`.
pub open spec fn sel_random() -> spec_fn(Frame) -> bool {
    |f: Frame| !f.is_switch && !f.implicit
}

/// Switch scopes.
pub open spec fn sel_switch() -> spec_fn(Frame) -> bool {
    |f: Frame| f.is_switch
}

/// In relaxed mode the state `next` with the warning `w` added; in strict mode the error `w`.
pub open spec fn complain<S>(
    next: CfState<S>,
    w: ControlFlowWarning,
    t: TokenWithRange<S>,
    relaxed: bool,
) -> Result<CfState<S>, ControlFlowWarningWithRange> {
    let wr = ControlFlowWarningWithRange { warning: w, start: t.start, end: t.end };
    if relaxed {
        Ok((next.0, next.1, next.2, next.3.push(wr)))
    } else {
        Err(wr)
    }
}

/// The state after the token `t`.
pub open spec fn spec_step<S>(
    st: CfState<S>,
    t: TokenWithRange<S>,
    draws: Seq<u32>,
    relaxed: bool,
) -> Result<CfState<S>, ControlFlowWarningWithRange> {
    let (fs, k, out, ws) = st;
    match t.token {
        Token::Random(_) => Ok((fs.push(new_frame(false, draw(draws, k))), k + 1, out, ws)),
        Token::SetRandom(v) => Ok((fs.push(new_frame(false, v)), k, out, ws)),
        Token::Switch(_) => Ok((fs.push(new_frame(true, draw(draws, k))), k + 1, out, ws)),
        Token::SetSwitch(v) => Ok((fs.push(new_frame(true, v)), k, out, ws)),
        Token::If(x) => if can_open_if(fs) {
            Ok((open_if(fs, x), k, out, ws))
        } else {
            complain((open_if(fs, x), k, out, ws), ControlFlowWarning::MisplacedIf, t, relaxed)
        },
        Token::ElseIf(x) => if has_branch(fs) {
            let f = fs.last();
            let hit = !f.matched && x == f.value;
            Ok((fs.update(fs.len() - 1, Frame { active: hit, matched: f.matched || hit, ..f }), k, out, ws))
        } else {
            complain((open_if(fs, x), k, out, ws), ControlFlowWarning::MisplacedIf, t, relaxed)
        },
        Token::Else => if has_branch(fs) {
            let f = fs.last();
            if f.seen_else {
                complain(
                    (fs.update(fs.len() - 1, Frame { active: false, ..f }), k, out, ws),
                    ControlFlowWarning::DuplicateElse,
                    t,
                    relaxed,
                )
            } else {
                Ok((fs.update(fs.len() - 1, Frame { active: !f.matched, matched: true, seen_else: true, ..f }), k, out, ws))
            }
        } else {
            complain((fs, k, out, ws), ControlFlowWarning::MisplacedElse, t, relaxed)
        },
        Token::EndIf => if has_branch(fs) {
            Ok((close_branch(fs), k, out, ws))
        } else {
            let j = innermost(fs, fs.len() as int, sel_branch());
            complain(
                (if j >= 0 { close_branch(fs.subrange(0, j + 1)) } else { fs }, k, out, ws),
                ControlFlowWarning::UnmatchedEndIf,
                t,
                relaxed,
            )
        },
        Token::EndRandom => if fs.len() > 0 && !fs.last().is_switch && !fs.last().implicit
            && !fs.last().in_branch {
            Ok((fs.drop_last(), k, out, ws))
        } else {
            let j = innermost(fs, fs.len() as int, sel_random());
            complain(
                (if j >= 0 { fs.subrange(0, j) } else { fs }, k, out, ws),
                ControlFlowWarning::UnmatchedEndRandom,
                t,
                relaxed,
            )
        },
        Token::Case(x) => if in_switch(fs) {
            let f = fs.last();
            if f.skipped {
                Ok((fs, k, out, ws))
            } else {
                Ok((fs.update(fs.len() - 1, Frame { active: f.active || x == f.value, matched: f.matched || x == f.value, ..f }), k, out, ws))
            }
        } else {
            complain((fs.push(implicit_frame(true, x)), k, out, ws), ControlFlowWarning::MisplacedCase, t, relaxed)
        },
        Token::Def => if in_switch(fs) {
            let f = fs.last();
            if f.skipped {
                Ok((fs, k, out, ws))
            } else {
                Ok((fs.update(fs.len() - 1, Frame { active: f.active || !f.matched, matched: true, ..f }), k, out, ws))
            }
        } else {
            complain((fs, k, out, ws), ControlFlowWarning::MisplacedCase, t, relaxed)
        },
        Token::Skip => if in_switch(fs) {
            let f = fs.last();
            if f.active {
                Ok((fs.update(fs.len() - 1, Frame { active: false, skipped: true, ..f }), k, out, ws))
            } else {
                Ok((fs, k, out, ws))
            }
        } else {
            complain((fs, k, out, ws), ControlFlowWarning::MisplacedCase, t, relaxed)
        },
        Token::EndSwitch => if in_switch(fs) {
            Ok((fs.drop_last(), k, out, ws))
        } else {
            let j = innermost(fs, fs.len() as int, sel_switch());
            complain(
                (if j >= 0 { fs.subrange(0, j) } else { fs }, k, out, ws),
                ControlFlowWarning::UnmatchedEndSwitch,
                t,
                relaxed,
            )
        },
        _ => if all_pass(fs) {
            Ok((fs, k, out.push(t), ws))
        } else {
            Ok((fs, k, out, ws))
        },
    }
}

/// The state after the tokens `ts[i..]`, from the state `st`.
pub open spec fn spec_run<S>(
    ts: Seq<TokenWithRange<S>>,
    i: int,
    st: CfState<S>,
    draws: Seq<u32>,
    relaxed: bool,
) -> Result<CfState<S>, ControlFlowWarningWithRange>
    decreases ts.len() - i,
{
    if i < 0 || i >= ts.len() {
        Ok(st)
    } else {
        match spec_step(st, ts[i], draws, relaxed) {
            Err(e) => Err(e),
            Ok(next) => spec_run(ts, i + 1, next, draws, relaxed),
        }
    }
}

/// The tokens of the selected branches of `ts` and the warnings, or the first error in strict
/// mode.
pub open spec fn spec_resolve<S>(ts: Seq<TokenWithRange<S>>, draws: Seq<u32>, relaxed: bool) -> Result<
    (Seq<TokenWithRange<S>>, Seq<ControlFlowWarningWithRange>),
    ControlFlowWarningWithRange,
> {
    match spec_run(ts, 0, (seq![], 0, seq![], seq![]), draws, relaxed) {
        Err(e) => Err(e),
        Ok((fs, k, out, ws)) => if fs.len() == 0 {
            Ok((out, ws))
        } else {
            let last = ts.last();
            let wr = ControlFlowWarningWithRange {
                warning: ControlFlowWarning::UnclosedScope,
                start: last.start,
                end: last.end,
            };
            if relaxed {
                Ok((out, ws.push(wr)))
            } else {
                Err(wr)
            }
        },
    }
}

/// The number drawn for the `k`-th scope.
fn draw_at(draws: &Vec<u32>, k: usize) -> (r: u32)
    ensures
        r == draw(draws@, k as int),
{
    if draws.len() == 0 {
        0
    } else {
        draws[k % draws.len()]
    }
}

/// A selector of scopes: random scopes with an open branch, random scopes opened by `#RANDOM`,
/// or switch scopes.
#[derive(Clone, Copy)]
enum Sel {
    Branch,
    Random,
    Switch,
}

spec fn sel_fn(sel: Sel) -> spec_fn(Frame) -> bool {
    match sel {
        Sel::Branch => sel_branch(),
        Sel::Random => sel_random(),
        Sel::Switch => sel_switch(),
    }
}

fn selects(sel: Sel, f: Frame) -> (r: bool)
    ensures
        r == (sel_fn(sel))(f),
{
    match sel {
        Sel::Branch => !f.is_switch && f.in_branch,
        Sel::Random => !f.is_switch && !f.implicit,
        Sel::Switch => f.is_switch,
    }
}

/// The index of the innermost scope that `sel` selects.
fn find_innermost(fs: &Vec<Frame>, sel: Sel) -> (r: Option<usize>)
    ensures
        match r {
            Some(j) => j as int == innermost(fs@, fs@.len() as int, sel_fn(sel)) && j < fs@.len(),
            None => innermost(fs@, fs@.len() as int, sel_fn(sel)) == -1,
        },
{
    let mut n = fs.len();
    while n > 0
        invariant
            n <= fs@.len(),
            innermost(fs@, fs@.len() as int, sel_fn(sel)) == innermost(fs@, n as int, sel_fn(sel)),
        decreases n,
    {
        if selects(sel, fs[n - 1]) {
            return Some(n - 1);
        }
        n -= 1;
    }
    None
}

/// The evaluator's state: open scopes, numbers drawn, tokens kept and warnings.
struct Resolver<'a> {
    frames: Vec<Frame>,
    drawn: usize,
    out: Vec<TokenWithRange<&'a str>>,
    warnings: Vec<ControlFlowWarningWithRange>,
}

impl<'a> Resolver<'a> {
    spec fn state(&self) -> CfState<&'a str> {
        (self.frames@, self.drawn as int, self.out@, self.warnings@)
    }

    /// Whether tokens inside all the open scopes are kept.
    fn passes(&self) -> (r: bool)
        ensures
            r == all_pass(self.frames@),
    {
        let mut i: usize = 0;
        while i < self.frames.len()
            invariant
                i <= self.frames@.len(),
                forall|k: int| 0 <= k < i ==> frame_passes(#[trigger] self.frames@[k]),
            decreases self.frames@.len() - i,
        {
            if !frame_passes_exec(self.frames[i]) {
                return false;
            }
            i += 1;
        }
        true
    }

    fn set_top(&mut self, f: Frame)
        requires
            old(self).frames@.len() > 0,
        ensures
            final(self).frames@ == old(self).frames@.update(old(self).frames@.len() - 1, f),
            final(self).drawn == old(self).drawn,
            final(self).out@ == old(self).out@,
            final(self).warnings@ == old(self).warnings@,
    {
        let n = self.frames.len();
        self.frames.set(n - 1, f);
    }

    fn open_if(&mut self, x: u32)
        ensures
            final(self).frames@ == open_if(old(self).frames@, x),
            final(self).drawn == old(self).drawn,
            final(self).out@ == old(self).out@,
            final(self).warnings@ == old(self).warnings@,
    {
        let n = self.frames.len();
        if n > 0 && !self.frames[n - 1].is_switch && !self.frames[n - 1].in_branch {
            let f = self.frames[n - 1];
            self.set_top(
                Frame { in_branch: true, active: x == f.value, matched: x == f.value, seen_else: false, ..f },
            );
        } else {
            self.frames.push(
                Frame {
                    is_switch: false,
                    value: x,
                    in_branch: true,
                    active: true,
                    matched: true,
                    seen_else: false,
                    skipped: false,
                    implicit: true,
                },
            );
        }
    }

    fn close_branch(&mut self)
        requires
            old(self).frames@.len() > 0,
        ensures
            final(self).frames@ == close_branch(old(self).frames@),
            final(self).drawn == old(self).drawn,
            final(self).out@ == old(self).out@,
            final(self).warnings@ == old(self).warnings@,
    {
        let n = self.frames.len();
        let f = self.frames[n - 1];
        if f.implicit {
            self.frames.pop();
            assert(self.frames@ =~= old(self).frames@.drop_last());
        } else {
            self.set_top(Frame { in_branch: false, active: false, matched: false, seen_else: false, ..f });
        }
    }

    /// In relaxed mode records the warning `w` for the token `t`; in strict mode returns it.
    fn complain(&mut self, w: ControlFlowWarning, t: &TokenWithRange<&'a str>, relaxed: bool) -> (r: Result<
        (),
        ControlFlowWarningWithRange,
    >)
        ensures
            complain(old(self).state(), w, *t, relaxed) == match r {
                Ok(_) => Ok::<CfState<&'a str>, ControlFlowWarningWithRange>(final(self).state()),
                Err(e) => Err(e),
            },
            final(self).drawn == old(self).drawn,
    {
        let wr = ControlFlowWarningWithRange { warning: w, start: t.start, end: t.end };
        if relaxed {
            self.warnings.push(wr);
            Ok(())
        } else {
            Err(wr)
        }
    }

    /// Applies the token `t`.
    #[verifier::rlimit(100)]
    fn step(&mut self, t: TokenWithRange<&'a str>, draws: &Vec<u32>, relaxed: bool) -> (r: Result<
        (),
        ControlFlowWarningWithRange,
    >)
        requires
            old(self).drawn < usize::MAX,
        ensures
            spec_step(old(self).state(), t, draws@, relaxed) == match r {
                Ok(_) => Ok::<CfState<&'a str>, ControlFlowWarningWithRange>(final(self).state()),
                Err(e) => Err(e),
            },
            final(self).drawn <= old(self).drawn + 1,
    {
        let n = self.frames.len();
        match t.token {
            Token::Random(_) => {
                let d = self.drawn;
                let v = draw_at(draws, d);
                self.frames.push(
                    Frame {
                        is_switch: false,
                        value: v,
                        in_branch: false,
                        active: false,
                        matched: false,
                        seen_else: false,
                        skipped: false,
                        implicit: false,
                    },
                );
                self.drawn = d + 1;
                Ok(())
            },
            Token::SetRandom(v) => {
                self.frames.push(
                    Frame {
                        is_switch: false,
                        value: v,
                        in_branch: false,
                        active: false,
                        matched: false,
                        seen_else: false,
                        skipped: false,
                        implicit: false,
                    },
                );
                Ok(())
            },
            Token::Switch(_) => {
                let v = draw_at(draws, self.drawn);
                self.frames.push(
                    Frame {
                        is_switch: true,
                        value: v,
                        in_branch: false,
                        active: false,
                        matched: false,
                        seen_else: false,
                        skipped: false,
                        implicit: false,
                    },
                );
                self.drawn = self.drawn + 1;
                Ok(())
            },
            Token::SetSwitch(v) => {
                self.frames.push(
                    Frame {
                        is_switch: true,
                        value: v,
                        in_branch: false,
                        active: false,
                        matched: false,
                        seen_else: false,
                        skipped: false,
                        implicit: false,
                    },
                );
                Ok(())
            },
            Token::If(x) => {
                let ok = n > 0 && !self.frames[n - 1].is_switch && !self.frames[n - 1].in_branch;
                self.open_if(x);
                if ok {
                    Ok(())
                } else {
                    self.complain(ControlFlowWarning::MisplacedIf, &t, relaxed)
                }
            },
            Token::ElseIf(x) => {
                if n > 0 && !self.frames[n - 1].is_switch && self.frames[n - 1].in_branch {
                    let f = self.frames[n - 1];
                    let hit = !f.matched && x == f.value;
                    self.set_top(Frame { active: hit, matched: f.matched || hit, ..f });
                    Ok(())
                } else {
                    self.open_if(x);
                    self.complain(ControlFlowWarning::MisplacedIf, &t, relaxed)
                }
            },
            Token::Else => {
                if n > 0 && !self.frames[n - 1].is_switch && self.frames[n - 1].in_branch {
                    let f = self.frames[n - 1];
                    if f.seen_else {
                        self.set_top(Frame { active: false, ..f });
                        self.complain(ControlFlowWarning::DuplicateElse, &t, relaxed)
                    } else {
                        self.set_top(Frame { active: !f.matched, matched: true, seen_else: true, ..f });
                        Ok(())
                    }
                } else {
                    self.complain(ControlFlowWarning::MisplacedElse, &t, relaxed)
                }
            },
            Token::EndIf => {
                if n > 0 && !self.frames[n - 1].is_switch && self.frames[n - 1].in_branch {
                    self.close_branch();
                    Ok(())
                } else {
                    match find_innermost(&self.frames, Sel::Branch) {
                        Some(j) => {
                            self.frames.truncate(j + 1);
                            self.close_branch();
                        },
                        None => {},
                    }
                    self.complain(ControlFlowWarning::UnmatchedEndIf, &t, relaxed)
                }
            },
            Token::EndRandom => {
                if n > 0 && !self.frames[n - 1].is_switch && !self.frames[n - 1].implicit
                    && !self.frames[n - 1].in_branch {
                    self.frames.pop();
                    assert(self.frames@ =~= old(self).frames@.drop_last());
                    Ok(())
                } else {
                    match find_innermost(&self.frames, Sel::Random) {
                        Some(j) => {
                            self.frames.truncate(j);
                        },
                        None => {},
                    }
                    self.complain(ControlFlowWarning::UnmatchedEndRandom, &t, relaxed)
                }
            },
            Token::Case(x) => {
                if n > 0 && self.frames[n - 1].is_switch {
                    let f = self.frames[n - 1];
                    if !f.skipped {
                        self.set_top(
                            Frame { active: f.active || x == f.value, matched: f.matched || x == f.value, ..f },
                        );
                    }
                    Ok(())
                } else {
                    self.frames.push(
                        Frame {
                            is_switch: true,
                            value: x,
                            in_branch: false,
                            active: true,
                            matched: true,
                            seen_else: false,
                            skipped: false,
                            implicit: true,
                        },
                    );
                    self.complain(ControlFlowWarning::MisplacedCase, &t, relaxed)
                }
            },
            Token::Def => {
                if n > 0 && self.frames[n - 1].is_switch {
                    let f = self.frames[n - 1];
                    if !f.skipped {
                        self.set_top(Frame { active: f.active || !f.matched, matched: true, ..f });
                    }
                    Ok(())
                } else {
                    self.complain(ControlFlowWarning::MisplacedCase, &t, relaxed)
                }
            },
            Token::Skip => {
                if n > 0 && self.frames[n - 1].is_switch {
                    let f = self.frames[n - 1];
                    if f.active {
                        self.set_top(Frame { active: false, skipped: true, ..f });
                    }
                    Ok(())
                } else {
                    self.complain(ControlFlowWarning::MisplacedCase, &t, relaxed)
                }
            },
            Token::EndSwitch => {
                if n > 0 && self.frames[n - 1].is_switch {
                    self.frames.pop();
                    assert(self.frames@ =~= old(self).frames@.drop_last());
                    Ok(())
                } else {
                    match find_innermost(&self.frames, Sel::Switch) {
                        Some(j) => {
                            self.frames.truncate(j);
                        },
                        None => {},
                    }
                    self.complain(ControlFlowWarning::UnmatchedEndSwitch, &t, relaxed)
                }
            },
            _ => {
                if self.passes() {
                    self.out.push(t);
                    assert(self.out@ =~= old(self).out@.push(t));
                }
                Ok(())
            },
        }
    }
}

/// Whether tokens inside the scope `f` are kept.
fn frame_passes_exec(f: Frame) -> (r: bool)
    ensures
        r == frame_passes(f),
{
    if f.is_switch {
        f.active
    } else {
        !f.in_branch || f.active
    }
}

/// Resolves the control flow of `tokens`: the tokens of the selected branches, without any
/// control-flow token, and the warnings; in strict mode the first problem is an error instead.
/// The `k`-th `#RANDOM` or `#SWITCH` takes the number `draws[k % draws.len()]`.
pub fn resolve_control_flow<'a>(
    tokens: &Vec<TokenWithRange<&'a str>>,
    draws: &Vec<u32>,
    relaxed: bool,
) -> (r: Result<(Vec<TokenWithRange<&'a str>>, Vec<ControlFlowWarningWithRange>), ControlFlowWarningWithRange>)
    ensures
        match spec_resolve(tokens@, draws@, relaxed) {
            Ok((out, ws)) => r.is_ok() && r.unwrap().0@ == out && r.unwrap().1@ == ws,
            Err(e) => r == Err::<(Vec<TokenWithRange<&'a str>>, Vec<ControlFlowWarningWithRange>), ControlFlowWarningWithRange>(e),
        },
{
    let ghost ts = tokens@;
    let mut res = Resolver { frames: Vec::new(), drawn: 0, out: Vec::new(), warnings: Vec::new() };
    assert(res.out@ =~= Seq::<TokenWithRange<&'a str>>::empty());
    let n = tokens.len();
    let mut i: usize = 0;
    while i < n
        invariant
            n == tokens@.len(),
            ts == tokens@,
            i <= n,
            res.drawn <= i,
            spec_run(ts, 0, (seq![], 0, seq![], seq![]), draws@, relaxed) == spec_run(
                ts,
                i as int,
                res.state(),
                draws@,
                relaxed,
            ),
        decreases n - i,
    {
        let t = tokens[i];
        assert(ts[i as int] == t);
        match res.step(t, draws, relaxed) {
            Ok(_) => {},
            Err(e) => {
                return Err(e);
            },
        }
        i += 1;
    }
    if res.frames.len() == 0 {
        Ok((res.out, res.warnings))
    } else {
        let last = tokens[n - 1];
        assert(ts.last() == last);
        let wr = ControlFlowWarningWithRange {
            warning: ControlFlowWarning::UnclosedScope,
            start: last.start,
            end: last.end,
        };
        if relaxed {
            let mut ws = res.warnings;
            ws.push(wr);
            Ok((res.out, ws))
        } else {
            Err(wr)
        }
    }
}

/// The bounds `n` of the `#RANDOM n` and `#SWITCH n` tokens, in order: one number is drawn from
/// `[1, n]` for each.
pub open spec fn spec_random_bounds<S>(ts: Seq<TokenWithRange<S>>) -> Seq<u32>
    decreases ts.len(),
{
    if ts.len() == 0 {
        seq![]
    } else {
        let rest = spec_random_bounds(ts.drop_last());
        match ts.last().token {
            Token::Random(n) | Token::Switch(n) => rest.push(n),
            _ => rest,
        }
    }
}

/// Lists the bounds of the scopes that draw a number, in the order they draw it.
pub fn random_bounds<'a>(tokens: &Vec<TokenWithRange<&'a str>>) -> (r: Vec<u32>)
    ensures
        r@ == spec_random_bounds(tokens@),
{
    let mut r: Vec<u32> = Vec::new();
    let mut i: usize = 0;
    while i < tokens.len()
        invariant
            i <= tokens@.len(),
            r@ == spec_random_bounds(tokens@.subrange(0, i as int)),
        decreases tokens@.len() - i,
    {
        let ghost pre = tokens@.subrange(0, i + 1);
        assert(pre.drop_last() =~= tokens@.subrange(0, i as int));
        match tokens[i].token {
            Token::Random(n) | Token::Switch(n) => r.push(n),
            _ => {},
        }
        i += 1;
    }
    assert(tokens@.subrange(0, tokens@.len() as int) =~= tokens@);
    r
}

/// Whether no token of `ts` draws a number: none is `#RANDOM` or `#SWITCH`.
pub open spec fn draws_nothing<S>(ts: Seq<TokenWithRange<S>>) -> bool {
    forall|i: int| 0 <= i < ts.len() ==> !(#[trigger] ts[i].token is Random) && !(ts[i].token is Switch)
}

proof fn lemma_step_relaxed_ok<S>(st: CfState<S>, t: TokenWithRange<S>, draws: Seq<u32>)
    ensures
        spec_step(st, t, draws, true) is Ok,
{
}

proof fn lemma_run_relaxed_ok<S>(ts: Seq<TokenWithRange<S>>, i: int, st: CfState<S>, draws: Seq<u32>)
    ensures
        spec_run(ts, i, st, draws, true) is Ok,
    decreases ts.len() - i,
{
    if 0 <= i < ts.len() {
        lemma_step_relaxed_ok(st, ts[i], draws);
        lemma_run_relaxed_ok(ts, i + 1, spec_step(st, ts[i], draws, true).unwrap(), draws);
    }
}

/// Relaxed resolution never fails, whatever the tokens and the drawn numbers.
pub proof fn lemma_relaxed_never_fails<S>(ts: Seq<TokenWithRange<S>>, draws: Seq<u32>)
    ensures
        spec_resolve(ts, draws, true) is Ok,
{
    lemma_run_relaxed_ok(ts, 0, (seq![], 0, seq![], seq![]), draws);
}

proof fn lemma_run_ignores_draws<S>(
    ts: Seq<TokenWithRange<S>>,
    i: int,
    st: CfState<S>,
    d1: Seq<u32>,
    d2: Seq<u32>,
    relaxed: bool,
)
    requires
        draws_nothing(ts),
    ensures
        spec_run(ts, i, st, d1, relaxed) == spec_run(ts, i, st, d2, relaxed),
    decreases ts.len() - i,
{
    if 0 <= i < ts.len() {
        assert(!(ts[i].token is Random) && !(ts[i].token is Switch));
        assert(spec_step(st, ts[i], d1, relaxed) == spec_step(st, ts[i], d2, relaxed));
        match spec_step(st, ts[i], d1, relaxed) {
            Ok(next) => lemma_run_ignores_draws(ts, i + 1, next, d1, d2, relaxed),
            Err(_) => {},
        }
    }
}

/// Where no token draws a number (`#SETRANDOM` and `#SETSWITCH` in place of `#RANDOM` and
/// `#SWITCH`), resolution gives the same result for any drawn numbers.
pub proof fn lemma_resolution_ignores_draws<S>(
    ts: Seq<TokenWithRange<S>>,
    d1: Seq<u32>,
    d2: Seq<u32>,
    relaxed: bool,
)
    requires
        draws_nothing(ts),
    ensures
        spec_resolve(ts, d1, relaxed) == spec_resolve(ts, d2, relaxed),
{
    lemma_run_ignores_draws(ts, 0, (seq![], 0, seq![], seq![]), d1, d2, relaxed);
}

/// Lexing a source and then resolving its control flow is a function of the source: where the
/// source only fixes its numbers (`#SETRANDOM`, `#SETSWITCH`), any two runs give the same tokens
/// and warnings; it never fails in relaxed mode, nor in strict mode when the scopes of the source
/// are well nested.
pub proof fn lemma_lex_and_resolve_deterministic(
    source: Seq<char>,
    layout: crate::channel::KeyLayout,
    d1: Seq<u32>,
    d2: Seq<u32>,
    relaxed: bool,
)
    requires
        draws_nothing(crate::lexer::normalize_case(crate::lexer::spec_lex(source, 0, layout).0)),
    ensures
        well_nested(crate::lexer::normalize_case(crate::lexer::spec_lex(source, 0, layout).0))
            ==> spec_resolve(
            crate::lexer::normalize_case(crate::lexer::spec_lex(source, 0, layout).0),
            d1,
            relaxed,
        ) is Ok,
        spec_resolve(crate::lexer::normalize_case(crate::lexer::spec_lex(source, 0, layout).0), d1, relaxed)
            == spec_resolve(crate::lexer::normalize_case(crate::lexer::spec_lex(source, 0, layout).0), d2, relaxed),
        relaxed ==> spec_resolve(
            crate::lexer::normalize_case(crate::lexer::spec_lex(source, 0, layout).0),
            d1,
            relaxed,
        ) is Ok,
{
    let ts = crate::lexer::normalize_case(crate::lexer::spec_lex(source, 0, layout).0);
    lemma_resolution_ignores_draws(ts, d1, d2, relaxed);
    lemma_relaxed_never_fails(ts, d1);
    if well_nested(ts) {
        lemma_strict_never_fails_when_well_nested(ts, d1);
    }
}

/// The shape of a scope, which alone decides whether a control-flow token is in place:
/// `(is_switch, in_branch, seen_else)`.
pub open spec fn shape_of(f: Frame) -> (bool, bool, bool) {
    (f.is_switch, f.in_branch, f.seen_else)
}

/// The shapes of the scopes `fs`.
pub open spec fn shapes(fs: Seq<Frame>) -> Seq<(bool, bool, bool)> {
    fs.map_values(|f: Frame| shape_of(f))
}

/// The shapes after the token `t`, or `None` if `t` is out of place.
pub open spec fn shape_step<S>(sh: Seq<(bool, bool, bool)>, t: Token<S>) -> Option<Seq<(bool, bool, bool)>> {
    let n = sh.len();
    let top_random = n > 0 && !sh.last().0;
    let top_switch = n > 0 && sh.last().0;
    match t {
        Token::Random(_) | Token::SetRandom(_) => Some(sh.push((false, false, false))),
        Token::Switch(_) | Token::SetSwitch(_) => Some(sh.push((true, false, false))),
        Token::If(_) => if top_random && !sh.last().1 {
            Some(sh.update(n - 1, (false, true, false)))
        } else {
            None
        },
        Token::ElseIf(_) => if top_random && sh.last().1 {
            Some(sh)
        } else {
            None
        },
        Token::Else => if top_random && sh.last().1 && !sh.last().2 {
            Some(sh.update(n - 1, (false, true, true)))
        } else {
            None
        },
        Token::EndIf => if top_random && sh.last().1 {
            Some(sh.update(n - 1, (false, false, false)))
        } else {
            None
        },
        Token::EndRandom => if top_random && !sh.last().1 {
            Some(sh.drop_last())
        } else {
            None
        },
        Token::Case(_) | Token::Def | Token::Skip => if top_switch {
            Some(sh)
        } else {
            None
        },
        Token::EndSwitch => if top_switch {
            Some(sh.drop_last())
        } else {
            None
        },
        _ => Some(sh),
    }
}

/// The shapes after the tokens `ts[i..]` from the shapes `sh`, or `None` if a token is out of
/// place.
pub open spec fn shape_run<S>(ts: Seq<TokenWithRange<S>>, i: int, sh: Seq<(bool, bool, bool)>) -> Option<
    Seq<(bool, bool, bool)>,
>
    decreases ts.len() - i,
{
    if i < 0 || i >= ts.len() {
        Some(sh)
    } else {
        match shape_step(sh, ts[i].token) {
            None => None,
            Some(next) => shape_run(ts, i + 1, next),
        }
    }
}

/// Whether the control-flow tokens of `ts` nest properly: every `#IF` opens a branch of an open
/// random scope, `#ELSEIF`, `#ELSE` (at most once) and `#ENDIF` stand in an open branch,
/// `#ENDRANDOM` closes a random scope with no open branch, `#CASE`, `#DEF`, `#SKIP` and `#ENDSW`
/// stand in a switch scope, and every scope is closed at the end.
pub open spec fn well_nested<S>(ts: Seq<TokenWithRange<S>>) -> bool {
    shape_run(ts, 0, seq![]) == Some(Seq::<(bool, bool, bool)>::empty())
}

/// Whether no scope is implicit.
pub open spec fn none_implicit(fs: Seq<Frame>) -> bool {
    forall|i: int| 0 <= i < fs.len() ==> !(#[trigger] fs[i]).implicit
}

proof fn lemma_step_follows_shape<S>(st: CfState<S>, t: TokenWithRange<S>, draws: Seq<u32>)
    requires
        none_implicit(st.0),
        shape_step(shapes(st.0), t.token).is_some(),
    ensures
        spec_step(st, t, draws, false) is Ok,
        none_implicit(spec_step(st, t, draws, false).unwrap().0),
        shapes(spec_step(st, t, draws, false).unwrap().0) == shape_step(shapes(st.0), t.token).unwrap(),
{
    let fs = st.0;
    let sh = shapes(fs);
    let n = fs.len();
    if n > 0 {
        assert(sh.last() == shape_of(fs.last()));
        assert(!fs.last().implicit);
    }
    let next = spec_step(st, t, draws, false).unwrap().0;
    let sh2 = shape_step(sh, t.token).unwrap();
    assert(shapes(next) =~= sh2);
    assert forall|i: int| 0 <= i < next.len() implies !(#[trigger] next[i]).implicit by {
        if i < n {
            assert(!fs[i].implicit);
        }
    }
}

proof fn lemma_run_follows_shape<S>(
    ts: Seq<TokenWithRange<S>>,
    i: int,
    st: CfState<S>,
    draws: Seq<u32>,
)
    requires
        0 <= i <= ts.len(),
        none_implicit(st.0),
        shape_run(ts, i, shapes(st.0)).is_some(),
    ensures
        spec_run(ts, i, st, draws, false) is Ok,
        shapes(spec_run(ts, i, st, draws, false).unwrap().0) == shape_run(ts, i, shapes(st.0)).unwrap(),
    decreases ts.len() - i,
{
    if i < ts.len() {
        lemma_step_follows_shape(st, ts[i], draws);
        lemma_run_follows_shape(ts, i + 1, spec_step(st, ts[i], draws, false).unwrap(), draws);
    }
}

/// Strict resolution of well-nested tokens never fails, whatever the drawn numbers.
pub proof fn lemma_strict_never_fails_when_well_nested<S>(ts: Seq<TokenWithRange<S>>, draws: Seq<u32>)
    requires
        well_nested(ts),
    ensures
        spec_resolve(ts, draws, false) is Ok,
{
    let st0: CfState<S> = (seq![], 0, seq![], seq![]);
    assert(shapes(st0.0) =~= Seq::<(bool, bool, bool)>::empty());
    lemma_run_follows_shape(ts, 0, st0, draws);
    let fin = spec_run(ts, 0, st0, draws, false).unwrap().0;
    assert(shapes(fin).len() == 0);
    assert(fin.len() == 0);
}

} // verus!
