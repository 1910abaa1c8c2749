use vstd::prelude::*;

use crate::cursor::Cursor;
use crate::outcome::{ParseError, Reason};

verus! {

/// The mathematical outcome of running a parser on an input sequence at a
/// position: success with a value and the position after it, a recoverable
/// miss (which by contract leaves the cursor where it started), or an
/// unrecoverable halt with a diagnostic trace and the position where the
/// parse stopped.
pub enum Step<V> {
    Done { val: V, end: int },
    Miss,
    Halt { trace: Seq<Reason>, end: int },
}

/// How an executable result and final cursor position realise a [`Step`]:
/// the returned value views to the specified one, a miss restores the start
/// position, and a halt carries exactly the specified trace.
pub open spec fn agrees<V: DeepView>(
    st: Step<V::V>,
    r: Result<V, ParseError>,
    start: int,
    end: int,
) -> bool {
    match st {
        Step::Done { val, end: p } => r matches Ok(v) && v.deep_view() == val && end == p,
        Step::Miss => r matches Err(ParseError::Error) && end == start,
        Step::Halt { trace, end: p } => r matches Err(ParseError::Fatal(t)) && t@ == trace && end
            == p,
    }
}

/// A parser over tokens of type `T`.
///
/// Its whole behaviour is the total function [`Parser::sem`]; the executable
/// [`Parser::parse`] is proved to realise it.  Two contracts hold of every
/// parser, by the shape of [`agrees`] alone:
///
/// - on a recoverable failure the cursor position after the call equals the
///   position before it (no consumption on recoverable failure), and
/// - the underlying input sequence is never changed, only the position.
pub trait Parser<T: Copy + DeepView> {
    type Out: DeepView;

    /// What this parser does on input `s` at position `pos`.
    spec fn sem(&self, s: Seq<T>, pos: int) -> Step<<Self::Out as DeepView>::V>;

    /// The semantics never moves backward nor past the end of the input.
    proof fn sem_in_range(&self, s: Seq<T>, pos: int)
        requires
            0 <= pos <= s.len(),
        ensures
            self.sem(s, pos) matches Step::Done { end, .. } ==> pos <= end <= s.len(),
            self.sem(s, pos) matches Step::Halt { end, .. } ==> pos <= end <= s.len(),
    ;

    /// Run the parser once, advancing the cursor past whatever it consumed.
    fn parse(&self, c: &mut Cursor<T>) -> (r: Result<Self::Out, ParseError>)
        requires
            old(c).inv(),
        ensures
            final(c).inv(),
            final(c).items() == old(c).items(),
            agrees(self.sem(old(c).items(), old(c).pos()), r, old(c).pos(), final(c).pos()),
    ;
}

/// A boolean condition over a parsed value, for guards and for the
/// predicate form of the token primitive.  What it decides is stated once,
/// over the value's view, and the executable test is proved to match.
pub trait Condition<V: DeepView> {
    /// What the condition holds of.
    spec fn spec_holds(&self, v: <V as DeepView>::V) -> bool;

    /// Decide the condition.
    fn eval(&self, v: &V) -> (b: bool)
        ensures
            b == self.spec_holds(v.deep_view()),
    ;
}

/// The constant condition: holds, or fails, whatever the value is.
pub struct Always(pub bool);

impl<V: DeepView> Condition<V> for Always {
    open spec fn spec_holds(&self, v: <V as DeepView>::V) -> bool {
        self.0
    }

    fn eval(&self, v: &V) -> bool {
        self.0
    }
}

/// The condition that the value equals a fixed token.
pub struct IsEqual<W>(pub W);

impl<W: Exact> Condition<W> for IsEqual<W> {
    open spec fn spec_holds(&self, v: <W as DeepView>::V) -> bool {
        v == self.0.deep_view()
    }

    fn eval(&self, v: &W) -> bool {
        self.0.same(v)
    }
}

/// A pure projection from one parsed value to another, the terminal step of
/// a composed parser: it packages the accumulated bindings into the parser's
/// declared result type, cannot fail, and touches no cursor.  What it
/// computes is stated once, over views, and the executable step is proved to
/// match.
pub trait Project<V: DeepView> {
    type To: DeepView;

    /// What the projection computes.
    spec fn spec_apply(&self, v: <V as DeepView>::V) -> <Self::To as DeepView>::V;

    /// Compute the projection.
    fn apply(&self, v: V) -> (w: Self::To)
        ensures
            w.deep_view() == self.spec_apply(v.deep_view()),
    ;
}

/// A token type whose values can be compared exactly, view for view.
pub trait Exact: Copy + DeepView + Sized {
    /// Whether two tokens are the same.
    fn same(&self, other: &Self) -> (b: bool)
        ensures
            b == (self.deep_view() == other.deep_view()),
    ;
}

impl Exact for bool {
    fn same(&self, other: &Self) -> bool {
        *self == *other
    }
}

impl Exact for char {
    fn same(&self, other: &Self) -> bool {
        *self == *other
    }
}

impl Exact for u8 {
    fn same(&self, other: &Self) -> bool {
        *self == *other
    }
}

impl Exact for u16 {
    fn same(&self, other: &Self) -> bool {
        *self == *other
    }
}

impl Exact for u32 {
    fn same(&self, other: &Self) -> bool {
        *self == *other
    }
}

impl Exact for u64 {
    fn same(&self, other: &Self) -> bool {
        *self == *other
    }
}

impl Exact for usize {
    fn same(&self, other: &Self) -> bool {
        *self == *other
    }
}

impl Exact for i8 {
    fn same(&self, other: &Self) -> bool {
        *self == *other
    }
}

impl Exact for i16 {
    fn same(&self, other: &Self) -> bool {
        *self == *other
    }
}

impl Exact for i32 {
    fn same(&self, other: &Self) -> bool {
        *self == *other
    }
}

impl Exact for i64 {
    fn same(&self, other: &Self) -> bool {
        *self == *other
    }
}

impl Exact for isize {
    fn same(&self, other: &Self) -> bool {
        *self == *other
    }
}

} // verus!
