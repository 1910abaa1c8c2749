use vstd::prelude::*;

verus! {

/// A resettable view over an input sequence.
///
/// The cursor owns the whole input and a position into it.  A snapshot is the
/// position alone, an index into the shared buffer, so taking one and
/// restoring it later are O(1) and copy nothing.  Restoring a snapshot is
/// equivalent to never having consumed anything since it was taken: no
/// operation has a side effect beyond the position.
pub struct Cursor<T> {
    buf: Vec<T>,
    at: usize,
}

impl<T: Copy> Cursor<T> {
    /// The whole input sequence, independent of the current position.
    pub closed spec fn items(&self) -> Seq<T> {
        self.buf@
    }

    /// The current position: how many items have been consumed.
    pub closed spec fn pos(&self) -> int {
        self.at as int
    }

    /// The position never passes the end of the input.
    pub open spec fn inv(&self) -> bool {
        self.pos() <= self.items().len()
    }

    pub fn new(items: Vec<T>) -> (c: Self)
        ensures
            c.inv(),
            c.items() == items@,
            c.pos() == 0,
    {
        Cursor { buf: items, at: 0 }
    }

    /// Consume one item and advance, or report exhaustion.  Exhaustion is a
    /// normal value, never a panic.
    pub fn next(&mut self) -> (r: Option<T>)
        requires
            old(self).inv(),
        ensures
            final(self).inv(),
            final(self).items() == old(self).items(),
            old(self).pos() < old(self).items().len() ==> r == Some(
                old(self).items()[old(self).pos()],
            ) && final(self).pos() == old(self).pos() + 1,
            old(self).pos() == old(self).items().len() ==> r is None && final(self).pos() == old(
                self,
            ).pos(),
    {
        if self.at < self.buf.len() {
            let x = self.buf[self.at];
            self.at = self.at + 1;
            Some(x)
        } else {
            None
        }
    }

    /// Whether an item remains, without consuming anything.
    pub fn has_next(&self) -> (b: bool)
        ensures
            b == (self.pos() < self.items().len()),
    {
        self.at < self.buf.len()
    }

    /// Take a snapshot of the current position.
    pub fn snapshot(&self) -> (m: usize)
        ensures
            m as int == self.pos(),
    {
        self.at
    }

    /// Replace the current position with a previously taken snapshot,
    /// discarding any consumption since.
    pub fn restore(&mut self, m: usize)
        requires
            old(self).inv(),
            m as int <= old(self).items().len(),
        ensures
            final(self).inv(),
            final(self).items() == old(self).items(),
            final(self).pos() == m as int,
    {
        self.at = m;
    }
}

} // verus!
