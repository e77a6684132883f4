//! Properties of the controller that hold over whole runs of intents.
use vstd::prelude::*;

use crate::app::{
    next_index, numbered, prev_index, slot_above, slot_below, typed, App, MAX_TODO_LEN,
};

verus! {

/// The selection after a run of moves; `true` moves down, `false` up.
pub open spec fn selection_after(s: usize, moves: Seq<bool>) -> usize
    decreases moves.len(),
{
    if moves.len() == 0 {
        s
    } else {
        let t = selection_after(s, moves.drop_last());
        if moves.last() { slot_below(t) } else { slot_above(t) }
    }
}

/// A slot's text after each character of `cs` is typed into it.
pub open spec fn typed_all(text: Seq<char>, cs: Seq<char>) -> Seq<char>
    decreases cs.len(),
{
    if cs.len() == 0 {
        text
    } else {
        typed(typed_all(text, cs.drop_last()), cs.last())
    }
}

/// Whatever moves are made, the selection stays on one of the four slots.
pub proof fn lemma_selection_stays_on_a_slot(s: usize, moves: Seq<bool>)
    requires
        s < 4,
    ensures
        selection_after(s, moves) < 4,
    decreases moves.len(),
{
    if moves.len() > 0 {
        lemma_selection_stays_on_a_slot(s, moves.drop_last());
    }
}

/// Typing never takes a slot's text past `MAX_TODO_LEN` characters, and a
/// character typed into a full slot leaves its text as it was.
pub proof fn lemma_typing_is_bounded(text: Seq<char>, cs: Seq<char>, c: char)
    requires
        text.len() <= MAX_TODO_LEN,
    ensures
        typed_all(text, cs).len() <= MAX_TODO_LEN,
        text.len() == MAX_TODO_LEN ==> typed(text, c) == text,
    decreases cs.len(),
{
    if cs.len() > 0 {
        lemma_typing_is_bounded(text, cs.drop_last(), c);
    }
}

/// Archiving numbers the new entry one past the entries before it and keeps
/// the archive numbered 1, 2, 3, ... in order; emptying or retyping slots of
/// the active session leaves the archive as it was. So sessions archived one
/// after another from an empty archive are numbered 1 to N.
pub proof fn lemma_archive_numbering(a: &App, b: &App, c: &App, i: int)
    requires
        a.inv(),
        a.archived_into(b),
        a.same_but_slot(c, i),
    ensures
        numbered(b.completed_notes@),
        b.completed_notes@.last().completion_number == a.completed_notes@.len() + 1,
        c.completed_notes == a.completed_notes,
{
    let n = a.completed_notes@.len();
    assert forall|k: int| 0 <= k < b.completed_notes@.len() implies (
    #[trigger] b.completed_notes@[k]).completion_number == k + 1 by {
        if k < n {
            assert(b.completed_notes@[k] == b.completed_notes@.subrange(0, n as int)[k]);
        }
    }
}

/// Stepping through the history keeps the cursor on an entry, and a first
/// step lands on the first entry going forward and on the last going back.
pub proof fn lemma_history_cursor_in_range(cursor: Option<usize>, n: nat)
    requires
        n <= usize::MAX,
        cursor matches Some(i) ==> i < n,
    ensures
        next_index(cursor, n) matches Some(i) ==> i < n,
        prev_index(cursor, n) matches Some(i) ==> i < n,
        n > 0 && cursor.is_none() ==> next_index(cursor, n) == Some(0usize) && prev_index(
            cursor,
            n,
        ) == Some((n - 1) as usize),
{
}

} // verus!
