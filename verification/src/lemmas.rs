use vstd::prelude::*;
use crate::model::CursorState;

verus! {

/// `n` steps forward add `n` to the position and leave the elements alone.
pub proof fn lemma_advance_n<T>(s: CursorState<T>, n: nat)
    ensures
        s.advance_n(n) == (CursorState { values: s.values, pos: s.pos + n }),
    decreases n,
{
    if n > 0 {
        lemma_advance_n(s, (n - 1) as nat);
    }
}

/// On a cursor that has not been moved otherwise, the `n`-th step forward
/// (counted from 1) starts at position `n - 1` and arrives at the element
/// with index `n - 1` while `n` is at most the number of elements, and at no
/// element after that.
pub proof fn lemma_nth_next<T>(values: Seq<T>, n: nat)
    requires
        n >= 1,
    ensures
        CursorState::fresh(values).advance_n((n - 1) as nat).pos == n - 1,
        CursorState::fresh(values).advance_n((n - 1) as nat).next_item() == (if n <= values.len() {
            Some(values[n - 1])
        } else {
            None
        }),
{
    lemma_advance_n(CursorState::fresh(values), (n - 1) as nat);
}

/// Once a cursor has made as many steps forward as there are elements, or
/// more, every further step forward arrives at no element: the position
/// keeps growing and never comes back to the front.
pub proof fn lemma_next_past_end<T>(values: Seq<T>, steps: nat)
    requires
        steps >= values.len(),
    ensures
        CursorState::fresh(values).advance_n(steps).pos == steps,
        CursorState::fresh(values).advance_n(steps).next_item() is None,
        CursorState::fresh(values).advance_n(steps).advance().pos == steps + 1,
{
    lemma_advance_n(CursorState::fresh(values), steps);
}

/// A cursor moved to `p` stands at `p`, over the same elements.
pub proof fn lemma_position_then_get_pos<T>(s: CursorState<T>, p: nat)
    ensures
        s.moved_to(p).pos == p,
        s.moved_to(p).values == s.values,
{
}

/// After a step forward the position is not 0, and the element at the
/// position is the one that the step arrived at.
pub proof fn lemma_recall_after_next<T>(s: CursorState<T>)
    ensures
        s.advance().pos > 0,
        s.advance().recalled() == s.next_item(),
{
}

/// After the first step forward of a cursor, `peek` looks at the element
/// with index 2, not at the one with index 1.
pub proof fn lemma_peek_after_first_next<T>(values: Seq<T>)
    ensures
        CursorState::fresh(values).advance().peeked() == CursorState::fresh(values).at(2),
        values.len() > 2 ==> CursorState::fresh(values).advance().peeked() == Some(values[2]),
        values.len() <= 2 ==> CursorState::fresh(values).advance().peeked() is None,
{
}

/// A step back undoes a step forward: the cursor is where it was, and the
/// step back arrives at the element that was at the position before.
pub proof fn lemma_prev_after_next<T>(s: CursorState<T>)
    ensures
        s.advance().step_back() == s,
        s.advance().prev_item() == s.recalled(),
{
}

/// After a step back the element at the position is the one that the step
/// arrived at.
pub proof fn lemma_recall_after_prev<T>(s: CursorState<T>)
    requires
        s.pos > 0,
    ensures
        s.step_back().recalled() == s.prev_item(),
{
}

} // verus!
