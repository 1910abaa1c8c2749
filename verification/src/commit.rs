use vstd::prelude::*;

use crate::cursor::Cursor;
use crate::outcome::{ParseError, Reason};
use crate::parser::{Parser, Step};

verus! {

/// The commit (cut) point: escalate a recoverable miss of the inner parser
/// into an unrecoverable halt whose fresh trace is seeded with an
/// [`Reason::Fatal`] origin frame.
///
/// Success and halts pass through unchanged.  The cursor is left where the
/// inner parser left it — for a miss that is the starting position, since a
/// missing parser restores the cursor itself.
pub struct Cut<P>(pub P);

impl<T: Copy + DeepView, P: Parser<T>> Parser<T> for Cut<P> {
    type Out = P::Out;

    open spec fn sem(&self, s: Seq<T>, pos: int) -> Step<<P::Out as DeepView>::V> {
        match self.0.sem(s, pos) {
            Step::Done { val, end } => Step::Done { val, end },
            Step::Miss => Step::Halt { trace: seq![Reason::Fatal], end: pos },
            Step::Halt { trace, end } => Step::Halt { trace, end },
        }
    }

    proof fn sem_in_range(&self, s: Seq<T>, pos: int) {
        self.0.sem_in_range(s, pos);
    }

    fn parse(&self, c: &mut Cursor<T>) -> Result<P::Out, ParseError> {
        match self.0.parse(c) {
            Ok(a) => Ok(a),
            Err(ParseError::Error) => {
                let mut trace: Vec<Reason> = Vec::new();
                trace.push(Reason::Fatal);
                proof {
                    assert(trace@ =~= seq![Reason::Fatal]);
                }
                Err(ParseError::Fatal(trace))
            },
            Err(e) => Err(e),
        }
    }
}

/// A sequencing step bound to a name: when the inner parser halts, a
/// [`Reason::Rule`] frame with this name is appended to the in-flight trace,
/// so that frames accumulate innermost-first as the failure propagates.
/// Success and recoverable misses pass through unchanged.
pub struct Named<P>(pub &'static str, pub P);

impl<T: Copy + DeepView, P: Parser<T>> Parser<T> for Named<P> {
    type Out = P::Out;

    open spec fn sem(&self, s: Seq<T>, pos: int) -> Step<<P::Out as DeepView>::V> {
        match self.1.sem(s, pos) {
            Step::Done { val, end } => Step::Done { val, end },
            Step::Miss => Step::Miss,
            Step::Halt { trace, end } => Step::Halt {
                trace: trace.push(Reason::Rule(self.0)),
                end,
            },
        }
    }

    proof fn sem_in_range(&self, s: Seq<T>, pos: int) {
        self.1.sem_in_range(s, pos);
    }

    fn parse(&self, c: &mut Cursor<T>) -> Result<P::Out, ParseError> {
        match self.1.parse(c) {
            Ok(a) => Ok(a),
            Err(ParseError::Error) => Err(ParseError::Error),
            Err(ParseError::Fatal(mut t)) => {
                t.push(Reason::Rule(self.0));
                Err(ParseError::Fatal(t))
            },
        }
    }
}

/// A committed, named sequencing step: past this binding there is no
/// backtracking.  A recoverable miss of the inner parser becomes an
/// unrecoverable halt whose fresh trace holds this binding's
/// [`Reason::Rule`] frame; a halt of the inner parser has the frame
/// appended; success passes through.
pub struct NamedCut<P>(pub &'static str, pub P);

impl<T: Copy + DeepView, P: Parser<T>> Parser<T> for NamedCut<P> {
    type Out = P::Out;

    open spec fn sem(&self, s: Seq<T>, pos: int) -> Step<<P::Out as DeepView>::V> {
        match self.1.sem(s, pos) {
            Step::Done { val, end } => Step::Done { val, end },
            Step::Miss => Step::Halt { trace: seq![Reason::Rule(self.0)], end: pos },
            Step::Halt { trace, end } => Step::Halt {
                trace: trace.push(Reason::Rule(self.0)),
                end,
            },
        }
    }

    proof fn sem_in_range(&self, s: Seq<T>, pos: int) {
        self.1.sem_in_range(s, pos);
    }

    fn parse(&self, c: &mut Cursor<T>) -> Result<P::Out, ParseError> {
        match self.1.parse(c) {
            Ok(a) => Ok(a),
            Err(ParseError::Error) => {
                let mut trace: Vec<Reason> = Vec::new();
                trace.push(Reason::Rule(self.0));
                proof {
                    assert(trace@ =~= seq![Reason::Rule(self.0)]);
                }
                Err(ParseError::Fatal(trace))
            },
            Err(ParseError::Fatal(mut t)) => {
                t.push(Reason::Rule(self.0));
                Err(ParseError::Fatal(t))
            },
        }
    }
}

} // verus!
