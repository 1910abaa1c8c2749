use vstd::prelude::*;

use crate::cursor::Cursor;
use crate::outcome::{ParseError, Reason};
use crate::parser::{Parser, Step};

verus! {

/// Ordered choice: try the first parser; if it misses recoverably, try the
/// second from the same position.
///
/// A recoverable miss of a branch costs nothing: the branch restored the
/// cursor itself, so the next branch starts where the choice did.  An
/// unrecoverable halt of a branch abandons the rest of the choice — once a
/// branch commits and then fails, the choice as a whole is unrecoverable —
/// and an [`Reason::Alt`] frame is appended to its trace.
pub struct Alt<P, Q>(pub P, pub Q);

impl<T: Copy + DeepView, P: Parser<T>, Q: Parser<T, Out = P::Out>> Parser<T> for Alt<P, Q> {
    type Out = P::Out;

    open spec fn sem(&self, s: Seq<T>, pos: int) -> Step<<P::Out as DeepView>::V> {
        match self.0.sem(s, pos) {
            Step::Done { val, end } => Step::Done { val, end },
            Step::Halt { trace, end } => Step::Halt { trace: trace.push(Reason::Alt), end },
            Step::Miss => match self.1.sem(s, pos) {
                Step::Done { val, end } => Step::Done { val, end },
                Step::Halt { trace, end } => Step::Halt { trace: trace.push(Reason::Alt), end },
                Step::Miss => Step::Miss,
            },
        }
    }

    proof fn sem_in_range(&self, s: Seq<T>, pos: int) {
        self.0.sem_in_range(s, pos);
        self.1.sem_in_range(s, pos);
    }

    fn parse(&self, c: &mut Cursor<T>) -> Result<P::Out, ParseError> {
        match self.0.parse(c) {
            Ok(a) => Ok(a),
            Err(ParseError::Fatal(mut t)) => {
                t.push(Reason::Alt);
                Err(ParseError::Fatal(t))
            },
            Err(ParseError::Error) => match self.1.parse(c) {
                Ok(a) => Ok(a),
                Err(ParseError::Fatal(mut t)) => {
                    t.push(Reason::Alt);
                    Err(ParseError::Fatal(t))
                },
                Err(ParseError::Error) => Err(ParseError::Error),
            },
        }
    }
}

} // verus!
