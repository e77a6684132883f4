use vstd::prelude::*;

use crate::strings::{decimal, digit, digit_char, push_decimal};

verus! {

/// Length of one session, in seconds.
pub const MAX_TIME: u64 = 3600;

/// `seconds` shown as minutes and seconds: the minutes unpadded, the seconds
/// as two digits.
pub open spec fn time_text(seconds: nat) -> Seq<char> {
    decimal(seconds / 60) + seq![':', digit_char((seconds % 60) / 10), digit_char(seconds % 10)]
}

/// Formats a number of seconds as `minutes:seconds`, e.g. 90 as `1:30`.
pub fn format_time(seconds: u64) -> (r: String)
    ensures
        r@ == time_text(seconds as nat),
{
    let mins = seconds / 60;
    let secs = seconds % 60;
    let mut r = String::new();
    push_decimal(&mut r, mins);
    r.push(':');
    r.push(digit(secs / 10));
    r.push(digit(secs % 10));
    proof {
        assert(seconds % 10 == secs % 10) by (nonlinear_arith)
            requires secs == seconds % 60;
    }
    assert(r@ =~= time_text(seconds as nat));
    r
}

/// One task slot: a short text and whether it is done.
#[derive(Debug, Clone)]
pub struct Todo {
    pub text: String,
    pub completed: bool,
}

impl Todo {
    /// A slot is content-bearing when its text is not empty.
    pub open spec fn has_text(&self) -> bool {
        self.text@.len() > 0
    }

    pub open spec fn is_blank(&self) -> bool {
        self.text@.len() == 0 && !self.completed
    }

    /// A slot with the same text and flag.
    pub fn duplicate(&self) -> (r: Todo)
        ensures
            r == *self,
    {
        Todo { text: self.text.clone(), completed: self.completed }
    }
}

impl Default for Todo {
    fn default() -> (r: Todo)
        ensures
            r.is_blank(),
    {
        Todo { text: String::new(), completed: false }
    }
}

/// An archived session: its four slots as they stood, the seconds spent, and
/// its place in the archive, counted from 1.
#[derive(Debug, Clone)]
pub struct CompletedNote {
    pub todos: Vec<Todo>,
    pub time_spent: u64,
    pub completion_number: u64,
}

/// The session under way.
#[derive(Debug, Clone)]
pub struct ActiveNote {
    pub todos: [Todo; 4],
    pub time_left: u64,
    pub is_running: bool,
    /// The instant, in milliseconds since the Unix epoch, at which a running
    /// countdown reaches zero.
    pub target_time: Option<i64>,
}

impl ActiveNote {
    /// The countdown stays within one session and has a deadline exactly
    /// while it runs.
    pub open spec fn inv(&self) -> bool {
        &&& self.time_left <= MAX_TIME
        &&& self.is_running == self.target_time.is_some()
    }

    /// A session as it starts: four blank slots and a full, stopped countdown.
    pub open spec fn is_fresh(&self) -> bool {
        &&& forall|i: int| 0 <= i < 4 ==> (#[trigger] self.todos[i]).is_blank()
        &&& self.time_left == MAX_TIME
        &&& !self.is_running
        &&& self.target_time.is_none()
    }

    /// Whether some slot is content-bearing.
    pub open spec fn has_content(&self) -> bool {
        exists|i: int| 0 <= i < 4 && (#[trigger] self.todos[i]).has_text()
    }
}

impl Default for ActiveNote {
    fn default() -> (r: ActiveNote)
        ensures
            r.is_fresh(),
            r.inv(),
    {
        ActiveNote {
            todos: [Todo::default(), Todo::default(), Todo::default(), Todo::default()],
            time_left: MAX_TIME,
            is_running: false,
            target_time: None,
        }
    }
}

} // verus!
