use vstd::prelude::*;
use vstd::std_specs::convert::FromSpecImpl;
use crate::error::CursorError;
use crate::model::{CursorState, yields, lends};

verus! {

/// A bi-directional iterator over the elements of a `Vec`.
///
/// The position starts at 0, before the first element; `next` moves it on by
/// one and hands out the element it arrives at, so that after a `next` the
/// position is one more than the index of the element handed out.
pub struct BiIterator<T> where T: Clone {
    values: Vec<T>,
    pos: usize,
}

impl<T: Clone> View for BiIterator<T> {
    type V = CursorState<T>;

    closed spec fn view(&self) -> CursorState<T> {
        CursorState { values: self.values@, pos: self.pos as nat }
    }
}

impl<T: Clone> Clone for BiIterator<T> {
    /// A cursor of its own at the same position, over clones of the
    /// elements.
    fn clone(&self) -> (r: Self)
        ensures
            r@.pos == self@.pos,
            r@.values.len() == self@.values.len(),
            forall|i: int|
                0 <= i < self@.values.len() ==> cloned(#[trigger] self@.values[i], r@.values[i]),
    {
        Self { values: self.values.clone(), pos: self.pos }
    }
}

impl<T: Clone> From<Vec<T>> for BiIterator<T> {
    /// Takes over `input` and stands before its first element.
    fn from(input: Vec<T>) -> (r: Self)
        ensures
            r@ == CursorState::fresh(input@),
    {
        Self { values: input, pos: 0 }
    }
}

impl<T: Clone> FromSpecImpl<Vec<T>> for BiIterator<T> {
    open spec fn obeys_from_spec() -> bool {
        true
    }

    closed spec fn from_spec(input: Vec<T>) -> Self {
        Self { values: input, pos: 0 }
    }
}

impl<T: Clone> BiIterator<T> {
    /// Moves one step forward and hands out a clone of the element arrived
    /// at, or `None` where the sequence has no element there. The position
    /// grows in either case, so it must not yet be the largest `usize`.
    pub fn next(&mut self) -> (r: Option<T>)
        requires
            old(self)@.pos < usize::MAX,
        ensures
            final(self)@ == old(self)@.advance(),
            yields(old(self)@.next_item(), r),
    {
        let idx: usize = self.pos;
        self.pos = idx + 1;
        if idx < self.values.len() {
            Some(self.values[idx].clone())
        } else {
            None
        }
    }

    /// Moves the cursor to `new_pos`, whatever the number of elements.
    pub fn position(&mut self, new_pos: usize)
        ensures
            final(self)@ == old(self)@.moved_to(new_pos as nat),
    {
        self.pos = new_pos;
    }

    /// Moves one step back and hands out a clone of the element arrived at,
    /// or `None` where the sequence has no element there.
    ///
    /// At position 0 there is no step back: the cursor stays as it is and the
    /// call fails with [`CursorError::OutOfRange`]. From position 1 the
    /// cursor arrives at position 0, where there is no element.
    pub fn prev(&mut self) -> (r: Result<Option<T>, CursorError>)
        ensures
            old(self)@.pos == 0 ==> r == Err::<Option<T>, CursorError>(CursorError::OutOfRange)
                && final(self)@ == old(self)@,
            old(self)@.pos > 0 ==> final(self)@ == old(self)@.step_back() && r is Ok && yields(
                old(self)@.prev_item(),
                r->Ok_0,
            ),
    {
        if self.pos == 0 {
            return Err(CursorError::OutOfRange);
        }
        let arrived: usize = self.pos - 1;
        self.pos = arrived;
        if arrived == 0 {
            return Ok(None);
        }
        let idx: usize = arrived - 1;
        if idx < self.values.len() {
            Ok(Some(self.values[idx].clone()))
        } else {
            Ok(None)
        }
    }

    /// The position of the cursor.
    pub fn get_pos(&self) -> (r: usize)
        ensures
            r == self@.pos,
    {
        self.pos
    }

    /// Lends the element at the position, which is the one that the last
    /// `next` handed out, or `None` where the sequence has no element there.
    /// The cursor does not move.
    ///
    /// At position 0 there is no such place, and the call fails with
    /// [`CursorError::OutOfRange`].
    pub fn recall(&self) -> (r: Result<Option<&T>, CursorError>)
        ensures
            self@.pos == 0 ==> r == Err::<Option<&T>, CursorError>(CursorError::OutOfRange),
            self@.pos > 0 ==> r is Ok && lends(self@.recalled(), r->Ok_0),
    {
        if self.pos == 0 {
            return Err(CursorError::OutOfRange);
        }
        let idx: usize = self.pos - 1;
        if idx < self.values.len() {
            Ok(Some(&self.values[idx]))
        } else {
            Ok(None)
        }
    }

    /// Lends the element with index `pos + 1`, or `None` where the sequence
    /// has no element there. The cursor does not move.
    ///
    /// After a `next` this is the element two past the one handed out, not
    /// the one that the following `next` will hand out.
    pub fn peek(&self) -> (r: Option<&T>)
        ensures
            lends(self@.peeked(), r),
    {
        if self.pos < self.values.len() && self.pos + 1 < self.values.len() {
            Some(&self.values[self.pos + 1])
        } else {
            None
        }
    }
}

} // verus!
