use vstd::prelude::*;

use crate::strings::{decimal, push_decimal};
use crate::types::{format_time, time_text, CompletedNote, Todo};

verus! {

/// The checklist line of one slot; a slot without text has none.
pub open spec fn todo_line(t: Todo) -> Seq<char> {
    if t.text@.len() == 0 {
        Seq::empty()
    } else {
        "- ["@ + seq![if t.completed { 'x' } else { ' ' }] + "] "@ + t.text@ + "\n"@
    }
}

/// The checklist lines of the slots, in order.
pub open spec fn todo_lines(ts: Seq<Todo>) -> Seq<char>
    decreases ts.len(),
{
    if ts.len() == 0 {
        Seq::empty()
    } else {
        todo_lines(ts.drop_last()) + todo_line(ts.last())
    }
}

/// The section of one archived session: its heading, the time spent, and its
/// checklist.
pub open spec fn note_section(n: CompletedNote) -> Seq<char> {
    "## Session "@ + decimal(n.completion_number as nat) + "\n"@ + "Time spent: "@ + time_text(
        n.time_spent as nat,
    ) + "\n\n"@ + todo_lines(n.todos@) + "\n"@
}

/// The sections of the archived sessions, in order.
pub open spec fn note_sections(ns: Seq<CompletedNote>) -> Seq<char>
    decreases ns.len(),
{
    if ns.len() == 0 {
        Seq::empty()
    } else {
        note_sections(ns.drop_last()) + note_section(ns.last())
    }
}

/// The markdown document of an archive.
pub open spec fn markdown(ns: Seq<CompletedNote>) -> Seq<char> {
    "# One Good Hour\n\n"@ + note_sections(ns)
}

/// Appends the section of `note` to `md`.
fn push_note_section(md: &mut String, note: &CompletedNote)
    ensures
        final(md)@ == old(md)@ + note_section(*note),
{
    md.append("## Session ");
    push_decimal(md, note.completion_number);
    md.append("\n");
    md.append("Time spent: ");
    let t = format_time(note.time_spent);
    md.append(t.as_str());
    md.append("\n\n");
    let ghost start = md@;
    let mut j: usize = 0;
    while j < note.todos.len()
        invariant
            j <= note.todos@.len(),
            md@ == start + todo_lines(note.todos@.subrange(0, j as int)),
        decreases note.todos@.len() - j,
    {
        let todo = &note.todos[j];
        let ghost before = md@;
        if !todo.text.as_str().is_empty() {
            md.append("- [");
            md.push(if todo.completed { 'x' } else { ' ' });
            md.append("] ");
            md.append(todo.text.as_str());
            md.append("\n");
        }
        proof {
            let s = note.todos@.subrange(0, j + 1);
            assert(s.drop_last() =~= note.todos@.subrange(0, j as int));
            assert(md@ =~= before + todo_line(*todo));
        }
        j = j + 1;
    }
    md.append("\n");
    proof {
        assert(note.todos@.subrange(0, note.todos@.len() as int) =~= note.todos@);
    }
    assert(md@ =~= old(md)@ + note_section(*note));
}

/// Renders the archive as a markdown document: a title, then for each
/// session its number, the time spent, and a checklist line per slot with
/// text.
pub fn notes_markdown(notes: &Vec<CompletedNote>) -> (r: String)
    ensures
        r@ == markdown(notes@),
{
    let mut md = String::new();
    md.append("# One Good Hour\n\n");
    let mut i: usize = 0;
    while i < notes.len()
        invariant
            i <= notes@.len(),
            md@ == "# One Good Hour\n\n"@ + note_sections(notes@.subrange(0, i as int)),
        decreases notes@.len() - i,
    {
        let ghost before = md@;
        push_note_section(&mut md, &notes[i]);
        proof {
            let s = notes@.subrange(0, i + 1);
            assert(s.drop_last() =~= notes@.subrange(0, i as int));
            assert(md@ =~= "# One Good Hour\n\n"@ + note_sections(s));
        }
        i = i + 1;
    }
    proof {
        assert(notes@.subrange(0, notes@.len() as int) =~= notes@);
    }
    md
}

} // verus!
