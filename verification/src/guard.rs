use vstd::prelude::*;

use crate::cursor::Cursor;
use crate::outcome::{ParseError, Reason};
use crate::parser::{Condition, Parser, Step};

verus! {

/// The soft guard: run the inner parser, then assert a condition over its
/// value without consuming input.
///
/// When the condition is false the guard misses recoverably and the cursor
/// is restored to the start of the enclosing sequence — the guard itself
/// consumed nothing, but earlier bindings may have, and a sequence fails
/// atomically.
pub struct Guard<P, C>(pub P, pub C);

impl<T: Copy + DeepView, P: Parser<T>, C: Condition<P::Out>> Parser<T> for Guard<P, C> {
    type Out = P::Out;

    open spec fn sem(&self, s: Seq<T>, pos: int) -> Step<<P::Out as DeepView>::V> {
        match self.0.sem(s, pos) {
            Step::Done { val, end } => {
                if self.1.spec_holds(val) {
                    Step::Done { val, end }
                } else {
                    Step::Miss
                }
            },
            Step::Miss => Step::Miss,
            Step::Halt { trace, end } => Step::Halt { trace, end },
        }
    }

    proof fn sem_in_range(&self, s: Seq<T>, pos: int) {
        self.0.sem_in_range(s, pos);
    }

    fn parse(&self, c: &mut Cursor<T>) -> Result<P::Out, ParseError> {
        let m = c.snapshot();
        match self.0.parse(c) {
            Ok(a) => {
                if self.1.eval(&a) {
                    Ok(a)
                } else {
                    c.restore(m);
                    Err(ParseError::Error)
                }
            },
            Err(e) => Err(e),
        }
    }
}

/// The fatal guard: like [`Guard`], but a false condition halts the parse
/// unrecoverably with a [`Reason::Where`] frame, and the cursor is left in
/// place — whatever the inner parser consumed stays consumed.
pub struct GuardFatal<P, C>(pub P, pub C);

impl<T: Copy + DeepView, P: Parser<T>, C: Condition<P::Out>> Parser<T> for GuardFatal<P, C> {
    type Out = P::Out;

    open spec fn sem(&self, s: Seq<T>, pos: int) -> Step<<P::Out as DeepView>::V> {
        match self.0.sem(s, pos) {
            Step::Done { val, end } => {
                if self.1.spec_holds(val) {
                    Step::Done { val, end }
                } else {
                    Step::Halt { trace: seq![Reason::Where], end }
                }
            },
            Step::Miss => Step::Miss,
            Step::Halt { trace, end } => Step::Halt { trace, end },
        }
    }

    proof fn sem_in_range(&self, s: Seq<T>, pos: int) {
        self.0.sem_in_range(s, pos);
    }

    fn parse(&self, c: &mut Cursor<T>) -> Result<P::Out, ParseError> {
        match self.0.parse(c) {
            Ok(a) => {
                if self.1.eval(&a) {
                    Ok(a)
                } else {
                    let mut trace: Vec<Reason> = Vec::new();
                    trace.push(Reason::Where);
                    proof {
                        assert(trace@ =~= seq![Reason::Where]);
                    }
                    Err(ParseError::Fatal(trace))
                }
            },
            Err(e) => Err(e),
        }
    }
}

} // verus!
