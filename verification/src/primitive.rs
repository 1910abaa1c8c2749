use vstd::prelude::*;

use crate::cursor::Cursor;
use crate::outcome::{ParseError, Reason};
use crate::parser::{Condition, Exact, Parser, Step};

verus! {

/// The base case of every grammar: consume exactly one item, whatever it is.
/// On exhaustion it misses recoverably, having consumed nothing.
pub struct AnyToken;

impl<T: Copy + DeepView> Parser<T> for AnyToken {
    type Out = T;

    open spec fn sem(&self, s: Seq<T>, pos: int) -> Step<<T as DeepView>::V> {
        if pos < s.len() {
            Step::Done { val: s[pos].deep_view(), end: pos + 1 }
        } else {
            Step::Miss
        }
    }

    proof fn sem_in_range(&self, s: Seq<T>, pos: int) {
    }

    fn parse(&self, c: &mut Cursor<T>) -> Result<T, ParseError> {
        match c.next() {
            Some(t) => Ok(t),
            None => Err(ParseError::Error),
        }
    }
}

/// Consume one item if it equals the expected token; on mismatch or
/// exhaustion, miss recoverably with the cursor back where it started.
/// This primitive never halts.
pub struct Just<T>(pub T);

impl<T: Exact> Parser<T> for Just<T> {
    type Out = T;

    open spec fn sem(&self, s: Seq<T>, pos: int) -> Step<<T as DeepView>::V> {
        if pos < s.len() && s[pos].deep_view() == self.0.deep_view() {
            Step::Done { val: s[pos].deep_view(), end: pos + 1 }
        } else {
            Step::Miss
        }
    }

    proof fn sem_in_range(&self, s: Seq<T>, pos: int) {
    }

    fn parse(&self, c: &mut Cursor<T>) -> Result<T, ParseError> {
        let m = c.snapshot();
        match c.next() {
            Some(t) => {
                if t.same(&self.0) {
                    Ok(t)
                } else {
                    c.restore(m);
                    Err(ParseError::Error)
                }
            },
            None => Err(ParseError::Error),
        }
    }
}

/// Consume one item if it passes the condition; otherwise miss recoverably
/// with zero net consumption.
pub struct Satisfy<C>(pub C);

impl<T: Copy + DeepView, C: Condition<T>> Parser<T> for Satisfy<C> {
    type Out = T;

    open spec fn sem(&self, s: Seq<T>, pos: int) -> Step<<T as DeepView>::V> {
        if pos < s.len() && self.0.spec_holds(s[pos].deep_view()) {
            Step::Done { val: s[pos].deep_view(), end: pos + 1 }
        } else {
            Step::Miss
        }
    }

    proof fn sem_in_range(&self, s: Seq<T>, pos: int) {
    }

    fn parse(&self, c: &mut Cursor<T>) -> Result<T, ParseError> {
        let m = c.snapshot();
        match c.next() {
            Some(t) => {
                if self.0.eval(&t) {
                    Ok(t)
                } else {
                    c.restore(m);
                    Err(ParseError::Error)
                }
            },
            None => Err(ParseError::Error),
        }
    }
}

/// The parser that never matches: it misses recoverably on every input and
/// consumes nothing.
pub struct Fail<R> {
    marker: core::marker::PhantomData<R>,
}

impl<R> Fail<R> {
    pub fn new() -> Self {
        Fail { marker: core::marker::PhantomData }
    }
}

impl<T: Copy + DeepView, R: DeepView> Parser<T> for Fail<R> {
    type Out = R;

    open spec fn sem(&self, s: Seq<T>, pos: int) -> Step<<R as DeepView>::V> {
        Step::Miss
    }

    proof fn sem_in_range(&self, s: Seq<T>, pos: int) {
    }

    fn parse(&self, c: &mut Cursor<T>) -> Result<R, ParseError> {
        Err(ParseError::Error)
    }
}

/// A pure binding: succeed with a fixed value, consuming nothing and never
/// failing.
pub struct Pure<V>(pub V);

impl<T: Copy + DeepView, V: Copy + DeepView> Parser<T> for Pure<V> {
    type Out = V;

    open spec fn sem(&self, s: Seq<T>, pos: int) -> Step<<V as DeepView>::V> {
        Step::Done { val: self.0.deep_view(), end: pos }
    }

    proof fn sem_in_range(&self, s: Seq<T>, pos: int) {
    }

    fn parse(&self, c: &mut Cursor<T>) -> Result<V, ParseError> {
        Ok(self.0)
    }
}

/// The soft end-of-input assertion: succeed when no item remains, miss
/// recoverably when one does.  Probing never consumes the offending item.
pub struct End;

impl<T: Copy + DeepView> Parser<T> for End {
    type Out = ();

    open spec fn sem(&self, s: Seq<T>, pos: int) -> Step<()> {
        if pos == s.len() {
            Step::Done { val: (), end: pos }
        } else {
            Step::Miss
        }
    }

    proof fn sem_in_range(&self, s: Seq<T>, pos: int) {
    }

    fn parse(&self, c: &mut Cursor<T>) -> Result<(), ParseError> {
        if c.has_next() {
            Err(ParseError::Error)
        } else {
            Ok(())
        }
    }
}

/// The fatal end-of-input assertion: when an item remains the parse halts
/// with an [`Reason::End`] frame, the cursor still at the offending item.
pub struct EndFatal;

impl<T: Copy + DeepView> Parser<T> for EndFatal {
    type Out = ();

    open spec fn sem(&self, s: Seq<T>, pos: int) -> Step<()> {
        if pos == s.len() {
            Step::Done { val: (), end: pos }
        } else {
            Step::Halt { trace: seq![Reason::End], end: pos }
        }
    }

    proof fn sem_in_range(&self, s: Seq<T>, pos: int) {
    }

    fn parse(&self, c: &mut Cursor<T>) -> Result<(), ParseError> {
        if c.has_next() {
            let mut trace: Vec<Reason> = Vec::new();
            trace.push(Reason::End);
            proof {
                assert(trace@ =~= seq![Reason::End]);
            }
            Err(ParseError::Fatal(trace))
        } else {
            Ok(())
        }
    }
}

/// Consume one item and map it through a partial function: `Some` is a
/// match, `None` a recoverable miss with the cursor restored.  This is the
/// pattern form of the token primitive, for one-off parsers given as
/// closures; within combinator compositions [`Satisfy`] plays its role.
pub fn pmatch<T: Copy, R, F: Fn(T) -> Option<R>>(f: F, c: &mut Cursor<T>) -> (r: Result<
    R,
    ParseError,
>)
    requires
        old(c).inv(),
        forall|t: T| #[trigger] call_requires(f, (t,)),
    ensures
        final(c).inv(),
        final(c).items() == old(c).items(),
        r matches Ok(v) ==> old(c).pos() < old(c).items().len() && call_ensures(
            f,
            (old(c).items()[old(c).pos()],),
            Some(v),
        ) && final(c).pos() == old(c).pos() + 1,
        r is Err ==> (r matches Err(ParseError::Error)) && final(c).pos() == old(c).pos() && (old(
            c,
        ).pos() < old(c).items().len() ==> call_ensures(
            f,
            (old(c).items()[old(c).pos()],),
            None::<R>,
        )),
{
    let m = c.snapshot();
    match c.next() {
        Some(t) => {
            match f(t) {
                Some(v) => Ok(v),
                None => {
                    c.restore(m);
                    Err(ParseError::Error)
                },
            }
        },
        None => Err(ParseError::Error),
    }
}

} // verus!
