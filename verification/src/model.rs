use vstd::prelude::*;

verus! {

/// The mathematical model of a cursor: the elements it walks over and the
/// number of steps it stands past the front.
///
/// A position `p >= 1` designates the element with index `p - 1`; position 0
/// is the place before the first element. The position is not bounded by the
/// number of elements.
pub struct CursorState<T> {
    pub values: Seq<T>,
    pub pos: nat,
}

impl<T> CursorState<T> {
    /// A cursor over `values` that has not moved yet.
    pub open spec fn fresh(values: Seq<T>) -> Self {
        CursorState { values, pos: 0 }
    }

    /// The element with index `i`, if there is one.
    pub open spec fn at(self, i: int) -> Option<T> {
        if 0 <= i < self.values.len() {
            Some(self.values[i])
        } else {
            None
        }
    }

    /// The cursor one step further on.
    pub open spec fn advance(self) -> Self {
        CursorState { values: self.values, pos: self.pos + 1 }
    }

    /// The cursor one step further back; position 0 has nothing before it.
    pub open spec fn step_back(self) -> Self
        recommends
            self.pos > 0,
    {
        CursorState { values: self.values, pos: (self.pos - 1) as nat }
    }

    /// The cursor moved to position `p`.
    pub open spec fn moved_to(self, p: nat) -> Self {
        CursorState { values: self.values, pos: p }
    }

    /// The element that a step forward arrives at: index `pos`.
    pub open spec fn next_item(self) -> Option<T> {
        self.at(self.pos as int)
    }

    /// The element that a step back arrives at: index `pos - 2`.
    pub open spec fn prev_item(self) -> Option<T> {
        self.at(self.pos as int - 2)
    }

    /// The element at the position: index `pos - 1`.
    pub open spec fn recalled(self) -> Option<T> {
        self.at(self.pos as int - 1)
    }

    /// The element that `peek` looks at: index `pos + 1`, which lies two
    /// past the element at the position, not one.
    pub open spec fn peeked(self) -> Option<T> {
        self.at(self.pos as int + 1)
    }

    /// The cursor after `n` steps forward.
    pub open spec fn advance_n(self, n: nat) -> Self
        decreases n,
    {
        if n == 0 {
            self
        } else {
            self.advance_n((n - 1) as nat).advance()
        }
    }
}

/// `got` is what a read hands out when the cursor holds `stored`: nothing
/// where there is nothing, else a clone of the element.
pub open spec fn yields<T: Clone>(stored: Option<T>, got: Option<T>) -> bool {
    match (stored, got) {
        (Some(a), Some(b)) => cloned(a, b),
        (None, None) => true,
        _ => false,
    }
}

/// `got` is what a borrowing read hands out when the cursor holds `stored`:
/// nothing where there is nothing, else the element itself.
pub open spec fn lends<T>(stored: Option<T>, got: Option<&T>) -> bool {
    match (stored, got) {
        (Some(a), Some(b)) => a == *b,
        (None, None) => true,
        _ => false,
    }
}

} // verus!
