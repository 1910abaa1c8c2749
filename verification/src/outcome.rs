use vstd::prelude::*;
use vstd::string::*;

verus! {

/// One frame of the diagnostic trace that an unrecoverable failure
/// accumulates as it propagates outward, innermost frame first.
#[derive(Debug, Clone, Copy, PartialEq, Eq)]
pub enum Reason {
    /// A choice was abandoned while already fatal.
    Alt,
    /// A fatal guard condition was false.
    Where,
    /// A fatal end-of-input assertion found an item.
    End,
    /// The primitive that first produced the unrecoverable result.
    Fatal,
    /// A sequencing step bound to this identifier.
    Rule(&'static str),
}

/// How a parse failed.
#[derive(Debug)]
pub enum ParseError {
    /// A recoverable mismatch: the caller may try an alternative, and the
    /// cursor was restored, so nothing was consumed.
    Error,
    /// An unrecoverable failure: a commit point was crossed and the parse
    /// still failed.  No alternative may be tried.  The trace lists the
    /// named rule frames from the failing primitive outward.
    Fatal(Vec<Reason>),
}

/// The text that [`Reason::describe`] returns.
pub open spec fn reason_text(r: Reason) -> Seq<char> {
    match r {
        Reason::Alt => "Alternative"@,
        Reason::Where => "Where"@,
        Reason::End => "End"@,
        Reason::Fatal => "Fatal"@,
        Reason::Rule(name) => "Rule: "@ + name@,
    }
}

/// The texts of the frames of a trace, joined with a line break.
pub open spec fn trace_text(rs: Seq<Reason>) -> Seq<char>
    decreases rs.len(),
{
    if rs.len() == 0 {
        Seq::empty()
    } else if rs.len() == 1 {
        reason_text(rs[0])
    } else {
        reason_text(rs[0]) + "\n"@ + trace_text(rs.drop_first())
    }
}

/// The text that [`ParseError::describe`] returns.
pub open spec fn error_text(e: ParseError) -> Seq<char> {
    match e {
        ParseError::Error => "Error"@,
        ParseError::Fatal(rs) => "Fatal: "@ + trace_text(rs@),
    }
}

/// Appending a frame to a trace appends its text, behind a line break when
/// the trace was not empty.
proof fn lemma_trace_text_push(rs: Seq<Reason>, x: Reason)
    ensures
        trace_text(rs.push(x)) == if rs.len() == 0 {
            reason_text(x)
        } else {
            trace_text(rs) + "\n"@ + reason_text(x)
        },
    decreases rs.len(),
{
    if rs.len() == 0 {
        assert(rs.push(x) =~= seq![x]);
    } else {
        lemma_trace_text_push(rs.drop_first(), x);
        assert(rs.push(x).drop_first() =~= rs.drop_first().push(x));
        if rs.len() == 1 {
            assert(trace_text(rs.push(x)) == reason_text(rs[0]) + "\n"@ + reason_text(x));
        } else {
            assert(reason_text(rs[0]) + "\n"@ + (trace_text(rs.drop_first()) + "\n"@
                + reason_text(x)) =~= (reason_text(rs[0]) + "\n"@ + trace_text(rs.drop_first()))
                + "\n"@ + reason_text(x));
        }
    }
}

impl Reason {
    /// A human-readable rendering of this frame.
    pub fn describe(&self) -> (s: String)
        ensures
            s@ == reason_text(*self),
    {
        match self {
            Reason::Alt => String::from_str("Alternative"),
            Reason::Where => String::from_str("Where"),
            Reason::End => String::from_str("End"),
            Reason::Fatal => String::from_str("Fatal"),
            Reason::Rule(name) => {
                let mut s = String::from_str("Rule: ");
                s.append(name);
                s
            },
        }
    }
}

impl ParseError {
    /// A human-readable rendering of this failure: for an unrecoverable one,
    /// its trace, one frame per line, innermost first.
    pub fn describe(&self) -> (s: String)
        ensures
            s@ == error_text(*self),
    {
        match self {
            ParseError::Error => String::from_str("Error"),
            ParseError::Fatal(rs) => {
                let mut s = String::from_str("Fatal: ");
                let mut i: usize = 0;
                while i < rs.len()
                    invariant
                        i <= rs.len(),
                        s@ =~= "Fatal: "@ + trace_text(rs@.take(i as int)),
                    decreases rs.len() - i,
                {
                    if i > 0 {
                        s.append("\n");
                    }
                    let r = rs[i].describe();
                    s.append(r.as_str());
                    proof {
                        assert(rs@.take(i + 1 as int) =~= rs@.take(i as int).push(rs@[i as int]));
                        lemma_trace_text_push(rs@.take(i as int), rs@[i as int]);
                    }
                    i = i + 1;
                }
                proof {
                    assert(rs@.take(rs@.len() as int) =~= rs@);
                }
                s
            },
        }
    }
}

} // verus!
