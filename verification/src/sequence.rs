use vstd::prelude::*;

use crate::cursor::Cursor;
use crate::outcome::ParseError;
use crate::parser::{Parser, Project, Step};

verus! {

/// Run two parsers in sequence and pair their values.
///
/// A sequence fails atomically: when the second parser misses recoverably
/// after the first consumed input, the cursor is restored to the position at
/// the start of the whole sequence, so no partial consumption leaks out.  An
/// unrecoverable halt of either part propagates without restoration.
pub struct Pair<P, Q>(pub P, pub Q);

impl<T: Copy + DeepView, P: Parser<T>, Q: Parser<T>> Parser<T> for Pair<P, Q> {
    type Out = (P::Out, Q::Out);

    open spec fn sem(&self, s: Seq<T>, pos: int) -> Step<
        (<P::Out as DeepView>::V, <Q::Out as DeepView>::V),
    > {
        match self.0.sem(s, pos) {
            Step::Miss => Step::Miss,
            Step::Halt { trace, end } => Step::Halt { trace, end },
            Step::Done { val: a, end: p1 } => match self.1.sem(s, p1) {
                Step::Miss => Step::Miss,
                Step::Halt { trace, end } => Step::Halt { trace, end },
                Step::Done { val: b, end: p2 } => Step::Done { val: (a, b), end: p2 },
            },
        }
    }

    proof fn sem_in_range(&self, s: Seq<T>, pos: int) {
        self.0.sem_in_range(s, pos);
        if let Step::Done { val, end } = self.0.sem(s, pos) {
            self.1.sem_in_range(s, end);
        }
    }

    fn parse(&self, c: &mut Cursor<T>) -> Result<(P::Out, Q::Out), ParseError> {
        let m = c.snapshot();
        match self.0.parse(c) {
            Ok(a) => match self.1.parse(c) {
                Ok(b) => Ok((a, b)),
                Err(ParseError::Error) => {
                    c.restore(m);
                    Err(ParseError::Error)
                },
                Err(e) => Err(e),
            },
            Err(e) => Err(e),
        }
    }
}

/// Run three parsers in sequence and gather their values into one triple,
/// failing as atomically as [`Pair`] does.
pub struct Triple<P, Q, R>(pub P, pub Q, pub R);

impl<T: Copy + DeepView, P: Parser<T>, Q: Parser<T>, R: Parser<T>> Parser<T> for Triple<P, Q, R> {
    type Out = (P::Out, Q::Out, R::Out);

    open spec fn sem(&self, s: Seq<T>, pos: int) -> Step<
        (<P::Out as DeepView>::V, <Q::Out as DeepView>::V, <R::Out as DeepView>::V),
    > {
        match self.0.sem(s, pos) {
            Step::Miss => Step::Miss,
            Step::Halt { trace, end } => Step::Halt { trace, end },
            Step::Done { val: a, end: p1 } => match self.1.sem(s, p1) {
                Step::Miss => Step::Miss,
                Step::Halt { trace, end } => Step::Halt { trace, end },
                Step::Done { val: b, end: p2 } => match self.2.sem(s, p2) {
                    Step::Miss => Step::Miss,
                    Step::Halt { trace, end } => Step::Halt { trace, end },
                    Step::Done { val: cv, end: p3 } => Step::Done { val: (a, b, cv), end: p3 },
                },
            },
        }
    }

    proof fn sem_in_range(&self, s: Seq<T>, pos: int) {
        self.0.sem_in_range(s, pos);
        if let Step::Done { val, end } = self.0.sem(s, pos) {
            self.1.sem_in_range(s, end);
            if let Step::Done { val: v2, end: e2 } = self.1.sem(s, end) {
                self.2.sem_in_range(s, e2);
            }
        }
    }

    fn parse(&self, c: &mut Cursor<T>) -> Result<(P::Out, Q::Out, R::Out), ParseError> {
        let m = c.snapshot();
        match self.0.parse(c) {
            Ok(a) => match self.1.parse(c) {
                Ok(b) => match self.2.parse(c) {
                    Ok(v) => Ok((a, b, v)),
                    Err(ParseError::Error) => {
                        c.restore(m);
                        Err(ParseError::Error)
                    },
                    Err(e) => Err(e),
                },
                Err(ParseError::Error) => {
                    c.restore(m);
                    Err(ParseError::Error)
                },
                Err(e) => Err(e),
            },
            Err(e) => Err(e),
        }
    }
}

/// Run two parsers in sequence and keep the first value, as a sequence whose
/// projection selects the first binding.  Fails as atomically as [`Pair`].
pub struct Terminated<P, Q>(pub P, pub Q);

impl<T: Copy + DeepView, P: Parser<T>, Q: Parser<T>> Parser<T> for Terminated<P, Q> {
    type Out = P::Out;

    open spec fn sem(&self, s: Seq<T>, pos: int) -> Step<<P::Out as DeepView>::V> {
        match self.0.sem(s, pos) {
            Step::Miss => Step::Miss,
            Step::Halt { trace, end } => Step::Halt { trace, end },
            Step::Done { val: a, end: p1 } => match self.1.sem(s, p1) {
                Step::Miss => Step::Miss,
                Step::Halt { trace, end } => Step::Halt { trace, end },
                Step::Done { val: b, end: p2 } => Step::Done { val: a, end: p2 },
            },
        }
    }

    proof fn sem_in_range(&self, s: Seq<T>, pos: int) {
        self.0.sem_in_range(s, pos);
        if let Step::Done { val, end } = self.0.sem(s, pos) {
            self.1.sem_in_range(s, end);
        }
    }

    fn parse(&self, c: &mut Cursor<T>) -> Result<P::Out, ParseError> {
        let m = c.snapshot();
        match self.0.parse(c) {
            Ok(a) => match self.1.parse(c) {
                Ok(b) => Ok(a),
                Err(ParseError::Error) => {
                    c.restore(m);
                    Err(ParseError::Error)
                },
                Err(e) => Err(e),
            },
            Err(e) => Err(e),
        }
    }
}

/// Run two parsers in sequence and keep the second value, as a sequence
/// whose projection selects the second binding.  Fails as atomically as
/// [`Pair`].
pub struct Preceded<P, Q>(pub P, pub Q);

impl<T: Copy + DeepView, P: Parser<T>, Q: Parser<T>> Parser<T> for Preceded<P, Q> {
    type Out = Q::Out;

    open spec fn sem(&self, s: Seq<T>, pos: int) -> Step<<Q::Out as DeepView>::V> {
        match self.0.sem(s, pos) {
            Step::Miss => Step::Miss,
            Step::Halt { trace, end } => Step::Halt { trace, end },
            Step::Done { val: a, end: p1 } => match self.1.sem(s, p1) {
                Step::Miss => Step::Miss,
                Step::Halt { trace, end } => Step::Halt { trace, end },
                Step::Done { val: b, end: p2 } => Step::Done { val: b, end: p2 },
            },
        }
    }

    proof fn sem_in_range(&self, s: Seq<T>, pos: int) {
        self.0.sem_in_range(s, pos);
        if let Step::Done { val, end } = self.0.sem(s, pos) {
            self.1.sem_in_range(s, end);
        }
    }

    fn parse(&self, c: &mut Cursor<T>) -> Result<Q::Out, ParseError> {
        let m = c.snapshot();
        match self.0.parse(c) {
            Ok(a) => match self.1.parse(c) {
                Ok(b) => Ok(b),
                Err(ParseError::Error) => {
                    c.restore(m);
                    Err(ParseError::Error)
                },
                Err(e) => Err(e),
            },
            Err(e) => Err(e),
        }
    }
}

/// The projection step: run the inner parser and package its value through
/// a pure [`Project`].  Failures of either kind pass through unchanged — a
/// projection cannot fail and consumes nothing.
pub struct Select<P, F>(pub P, pub F);

impl<T: Copy + DeepView, P: Parser<T>, F: Project<P::Out>> Parser<T> for Select<P, F> {
    type Out = F::To;

    open spec fn sem(&self, s: Seq<T>, pos: int) -> Step<<F::To as DeepView>::V> {
        match self.0.sem(s, pos) {
            Step::Miss => Step::Miss,
            Step::Halt { trace, end } => Step::Halt { trace, end },
            Step::Done { val, end } => Step::Done { val: self.1.spec_apply(val), end },
        }
    }

    proof fn sem_in_range(&self, s: Seq<T>, pos: int) {
        self.0.sem_in_range(s, pos);
    }

    fn parse(&self, c: &mut Cursor<T>) -> Result<F::To, ParseError> {
        match self.0.parse(c) {
            Ok(a) => Ok(self.1.apply(a)),
            Err(e) => Err(e),
        }
    }
}

/// The projection that turns a left-nested pair of pairs into one flat
/// triple, the shape that chaining two [`Pair`]s leaves behind.
pub struct Flatten;

impl<A: DeepView, B: DeepView, C: DeepView> Project<((A, B), C)> for Flatten {
    type To = (A, B, C);

    open spec fn spec_apply(&self, v: ((A::V, B::V), C::V)) -> (A::V, B::V, C::V) {
        ((v.0).0, (v.0).1, v.1)
    }

    fn apply(&self, v: ((A, B), C)) -> (A, B, C) {
        let ((a, b), c) = v;
        (a, b, c)
    }
}

} // verus!
