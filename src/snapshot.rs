//! Plain copies of the controller's data for a presentation layer.
use vstd::prelude::*;

use crate::types::{format_time, time_text, CompletedNote, Todo};

verus! {

/// A task slot as shown.
#[derive(Debug, Clone)]
pub struct TodoSnapshot {
    pub text: String,
    pub completed: bool,
}

/// An archived session as shown, with the time spent already formatted.
#[derive(Debug, Clone)]
pub struct NoteSnapshot {
    pub todos: Vec<TodoSnapshot>,
    pub time_spent: String,
    pub completion_number: u64,
}

impl TodoSnapshot {
    pub open spec fn shows(&self, t: Todo) -> bool {
        self.text@ == t.text@ && self.completed == t.completed
    }

    pub fn of(t: &Todo) -> (r: TodoSnapshot)
        ensures
            r.shows(*t),
    {
        TodoSnapshot { text: t.text.clone(), completed: t.completed }
    }
}

/// Each snapshot shows the slot at its place.
pub open spec fn shows_all(snaps: Seq<TodoSnapshot>, todos: Seq<Todo>) -> bool {
    &&& snaps.len() == todos.len()
    &&& forall|i: int| 0 <= i < todos.len() ==> (#[trigger] snaps[i]).shows(todos[i])
}

/// Snapshots of the given slots, in order.
pub fn todo_snapshots(todos: &[Todo]) -> (r: Vec<TodoSnapshot>)
    ensures
        shows_all(r@, todos@),
{
    let mut r: Vec<TodoSnapshot> = Vec::new();
    let mut i: usize = 0;
    while i < todos.len()
        invariant
            i <= todos@.len(),
            shows_all(r@, todos@.subrange(0, i as int)),
        decreases todos@.len() - i,
    {
        r.push(TodoSnapshot::of(&todos[i]));
        i = i + 1;
    }
    proof {
        assert(todos@.subrange(0, todos@.len() as int) =~= todos@);
    }
    r
}

impl NoteSnapshot {
    pub fn of(n: &CompletedNote) -> (r: NoteSnapshot)
        ensures
            shows_all(r.todos@, n.todos@),
            r.time_spent@ == time_text(n.time_spent as nat),
            r.completion_number == n.completion_number,
    {
        NoteSnapshot {
            todos: todo_snapshots(n.todos.as_slice()),
            time_spent: format_time(n.time_spent),
            completion_number: n.completion_number,
        }
    }
}

} // verus!
