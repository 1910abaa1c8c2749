//! The engine's cross-cutting laws, as proved statements.
//!
//! One law needs no lemma here because it is part of every parser's own
//! contract: no consumption on recoverable failure.  The `ensures` of
//! [`Parser::parse`] holds the cursor position after a recoverable miss
//! equal to the position before the call, for every primitive and every
//! composed parser alike.

use vstd::prelude::*;

use crate::choice::Alt;
use crate::commit::{Named, NamedCut};
use crate::outcome::Reason;
use crate::parser::{Parser, Step};
use crate::repeat::star_sem;

verus! {

/// Commit irreversibility: once the first branch of a choice halts
/// unrecoverably, the choice as a whole halts, whatever stands in its place
/// as the later alternative — even one that would have succeeded.  The
/// outcome is the branch's own halt with one [`Reason::Alt`] frame appended,
/// and it is the same for any two later alternatives.
pub proof fn lemma_commit_irreversible<
    T: Copy + DeepView,
    P: Parser<T>,
    Q1: Parser<T, Out = P::Out>,
    Q2: Parser<T, Out = P::Out>,
>(first: P, second: Q1, other: Q2, s: Seq<T>, pos: int)
    requires
        first.sem(s, pos) is Halt,
    ensures
        Alt(first, second).sem(s, pos) matches Step::Halt { trace, end } && first.sem(
            s,
            pos,
        ) matches Step::Halt { trace: t0, end: e0 } && trace == t0.push(Reason::Alt) && end == e0,
        Alt(first, second).sem(s, pos) == Alt(first, other).sem(s, pos),
{
}

/// Whether a parser is tame at a position: it does not halt unrecoverably
/// there, and when it succeeds it consumes at least one item.
pub open spec fn tame_at<T: Copy + DeepView, P: Parser<T>>(p: P, s: Seq<T>, i: int) -> bool {
    match p.sem(s, i) {
        Step::Done { val, end } => i < end,
        Step::Miss => true,
        Step::Halt { trace, end } => false,
    }
}

/// Zero-or-more totality: for a parser that is tame everywhere on the given
/// input, its repetition succeeds — even when the parser never matches, in
/// which case the collected sequence is empty.  (Termination of the
/// executable repetition needs no hypothesis at all: its loop provably
/// terminates on every input, since a success that consumes nothing stops
/// it.)
pub proof fn lemma_star_totality<T: Copy + DeepView, P: Parser<T>>(p: P, s: Seq<T>, pos: int)
    requires
        0 <= pos <= s.len(),
        forall|i: int| pos <= i <= s.len() ==> #[trigger] tame_at(p, s, i),
    ensures
        star_sem(p, s, pos) is Done,
        p.sem(s, pos) is Miss ==> star_sem(p, s, pos) == (Step::Done {
            val: Seq::<<P::Out as DeepView>::V>::empty(),
            end: pos,
        }),
    decreases s.len() - pos,
{
    p.sem_in_range(s, pos);
    assert(tame_at(p, s, pos));
    if let Step::Done { val, end } = p.sem(s, pos) {
        lemma_star_totality(p, s, end);
    }
}

/// Trace ordering: for nested named bindings `a` over `b` over `c` where
/// `c`'s sub-parser is committed and fails, the trace lists `c`'s frame
/// before `b`'s, and `b`'s before `a`'s — frames accumulate strictly
/// innermost-to-outermost.
pub proof fn lemma_trace_ordering<T: Copy + DeepView, P: Parser<T>>(
    inner: P,
    a: &'static str,
    b: &'static str,
    c: &'static str,
    s: Seq<T>,
    pos: int,
)
    requires
        !(inner.sem(s, pos) is Done),
    ensures
        Named(a, Named(b, NamedCut(c, inner))).sem(s, pos) matches Step::Halt { trace, end }
            && trace.len() >= 3 && trace[trace.len() - 3] == Reason::Rule(c) && trace[trace.len()
            - 2] == Reason::Rule(b) && trace[trace.len() - 1] == Reason::Rule(a),
{
}

} // verus!
