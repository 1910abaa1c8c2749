use vstd::prelude::*;

use crate::cursor::Cursor;
use crate::outcome::ParseError;
use crate::parser::{Parser, Step};

verus! {

/// Optionality: try the inner parser once; a recoverable miss becomes a
/// success with `None` and zero net consumption, while an unrecoverable
/// halt propagates unchanged — optionality never suppresses a committed
/// failure.
pub struct Maybe<P>(pub P);

impl<T: Copy + DeepView, P: Parser<T>> Parser<T> for Maybe<P> {
    type Out = Option<P::Out>;

    open spec fn sem(&self, s: Seq<T>, pos: int) -> Step<Option<<P::Out as DeepView>::V>> {
        match self.0.sem(s, pos) {
            Step::Done { val, end } => Step::Done { val: Some(val), end },
            Step::Miss => Step::Done { val: None, end: pos },
            Step::Halt { trace, end } => Step::Halt { trace, end },
        }
    }

    proof fn sem_in_range(&self, s: Seq<T>, pos: int) {
        self.0.sem_in_range(s, pos);
    }

    fn parse(&self, c: &mut Cursor<T>) -> Result<Option<P::Out>, ParseError> {
        match self.0.parse(c) {
            Ok(a) => Ok(Some(a)),
            Err(ParseError::Error) => Ok(None),
            Err(e) => Err(e),
        }
    }
}

/// What repetition does on input `s` at position `pos`: repeat the inner
/// parser greedily, collecting the values in order.
///
/// A recoverable miss ends the repetition — zero matches is success with an
/// empty sequence.  An unrecoverable halt propagates, discarding the partial
/// matches.  A success that consumed nothing would repeat forever, so it is
/// detected and turned into a recoverable miss of the whole repetition.
pub open spec fn star_sem<T: Copy + DeepView, P: Parser<T>>(p: P, s: Seq<T>, pos: int) -> Step<
    Seq<<P::Out as DeepView>::V>,
>
    decreases s.len() - pos,
{
    match p.sem(s, pos) {
        Step::Miss => Step::Done { val: Seq::empty(), end: pos },
        Step::Halt { trace, end } => Step::Halt { trace, end },
        Step::Done { val, end } => {
            if pos < end <= s.len() {
                match star_sem(p, s, end) {
                    Step::Done { val: rest, end: fin } => Step::Done {
                        val: seq![val] + rest,
                        end: fin,
                    },
                    Step::Halt { trace, end: fin } => Step::Halt { trace, end: fin },
                    Step::Miss => Step::Miss,
                }
            } else {
                Step::Miss
            }
        },
    }
}

/// Prefix the collected values onto a later repetition outcome.
pub open spec fn star_prepend<V>(vs: Seq<V>, st: Step<Seq<V>>) -> Step<Seq<V>> {
    match st {
        Step::Done { val, end } => Step::Done { val: vs + val, end },
        Step::Miss => Step::Miss,
        Step::Halt { trace, end } => Step::Halt { trace, end },
    }
}

proof fn lemma_star_prepend_prepend<V>(a: Seq<V>, b: Seq<V>, st: Step<Seq<V>>)
    ensures
        star_prepend(a, star_prepend(b, st)) == star_prepend(a + b, st),
{
    match st {
        Step::Done { val, end } => {
            assert(a + (b + val) =~= (a + b) + val);
        },
        Step::Miss => {},
        Step::Halt { trace, end } => {},
    }
}

/// The repetition never moves backward nor past the end of the input.
pub proof fn lemma_star_sem_in_range<T: Copy + DeepView, P: Parser<T>>(p: P, s: Seq<T>, pos: int)
    requires
        0 <= pos <= s.len(),
    ensures
        star_sem(p, s, pos) matches Step::Done { end, .. } ==> pos <= end <= s.len(),
        star_sem(p, s, pos) matches Step::Halt { end, .. } ==> pos <= end <= s.len(),
    decreases s.len() - pos,
{
    p.sem_in_range(s, pos);
    if let Step::Done { val, end } = p.sem(s, pos) {
        if pos < end <= s.len() {
            lemma_star_sem_in_range(p, s, end);
        }
    }
}

/// Zero-or-more repetition of the inner parser, greedy, with the values
/// collected in order.  Its behaviour is [`star_sem`]; in particular the
/// loop always terminates, because a success that consumed nothing stops it.
pub struct Star<P>(pub P);

impl<T: Copy + DeepView, P: Parser<T>> Parser<T> for Star<P> {
    type Out = Vec<P::Out>;

    open spec fn sem(&self, s: Seq<T>, pos: int) -> Step<Seq<<P::Out as DeepView>::V>> {
        star_sem(self.0, s, pos)
    }

    proof fn sem_in_range(&self, s: Seq<T>, pos: int) {
        lemma_star_sem_in_range(self.0, s, pos);
    }

    fn parse(&self, c: &mut Cursor<T>) -> Result<Vec<P::Out>, ParseError> {
        let ghost s = c.items();
        let ghost pos0 = c.pos();
        let start = c.snapshot();
        let mut acc: Vec<P::Out> = Vec::new();
        loop
            invariant
                c.inv(),
                c.items() == s,
                s == old(c).items(),
                pos0 == old(c).pos(),
                start as int == pos0,
                0 <= pos0 <= s.len(),
                star_sem(self.0, s, pos0) == star_prepend(
                    acc.deep_view(),
                    star_sem(self.0, s, c.pos()),
                ),
            decreases s.len() - c.pos(),
        {
            let ghost cur = c.pos();
            let m = c.snapshot();
            match self.0.parse(c) {
                Err(ParseError::Error) => {
                    proof {
                        assert(acc.deep_view() + Seq::<<P::Out as DeepView>::V>::empty()
                            =~= acc.deep_view());
                    }
                    return Ok(acc);
                },
                Err(e) => {
                    return Err(e);
                },
                Ok(x) => {
                    let m2 = c.snapshot();
                    if m2 <= m {
                        c.restore(start);
                        return Err(ParseError::Error);
                    }
                    let ghost old_dv = acc.deep_view();
                    let ghost xv = x.deep_view();
                    acc.push(x);
                    proof {
                        assert(acc.deep_view() =~= old_dv + seq![xv]);
                        assert(star_sem(self.0, s, cur) == star_prepend(seq![xv], star_sem(
                            self.0,
                            s,
                            c.pos(),
                        )));
                        lemma_star_prepend_prepend(old_dv, seq![xv], star_sem(self.0, s, c.pos()));
                    }
                },
            }
        }
    }
}

} // verus!
