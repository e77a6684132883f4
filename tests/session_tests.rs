use one_good_hour::app::{App, InputMode, ModalKind, MAX_TODO_LEN};
use one_good_hour::snapshot::{NoteSnapshot, TodoSnapshot};
use one_good_hour::types::{Todo, MAX_TIME};

fn archive_one(app: &mut App, text: &str) {
    app.active_note.todos[0].text = text.to_string();
    app.show_complete_session_modal();
    app.confirm_modal();
}

#[test]
fn scenario_export_after_one_session() {
    let mut app = App::new();
    app.active_note.todos[0].text = "write tests".to_string();
    app.active_note.todos[0].completed = true;
    app.active_note.todos[1].text = "review PR".to_string();
    app.active_note.time_left = 2400;
    app.show_complete_session_modal();
    app.confirm_modal();
    assert_eq!(app.completed_notes[0].completion_number, 1);
    assert_eq!(app.completed_notes[0].time_spent, 1200);
    let md = app.build_markdown();
    assert!(md.contains("## Session 1"));
    assert!(md.contains("Time spent: 20:00"));
    assert!(md.contains("- [x] write tests"));
    assert!(md.contains("- [ ] review PR"));
}

#[test]
fn export_text_is_exact() {
    let mut app = App::new();
    app.active_note.todos[0].text = "a".to_string();
    app.active_note.todos[0].completed = true;
    app.active_note.todos[2].text = "b".to_string();
    app.active_note.time_left = 3510;
    app.show_complete_session_modal();
    app.confirm_modal();
    archive_one(&mut app, "c");
    assert_eq!(
        app.build_markdown(),
        "# One Good Hour\n\n## Session 1\nTime spent: 1:30\n\n- [x] a\n- [ ] b\n\n\
         ## Session 2\nTime spent: 0:00\n\n- [ ] c\n\n"
    );
}

#[test]
fn export_of_empty_archive_is_title_only() {
    let app = App::new();
    assert_eq!(app.build_markdown(), "# One Good Hour\n\n");
    assert!(app.clipboard_markdown().is_none());
}

#[test]
fn clipboard_markdown_with_history() {
    let mut app = App::new();
    archive_one(&mut app, "x");
    assert_eq!(app.clipboard_markdown(), Some(app.build_markdown()));
}

#[test]
fn copy_result_sets_status() {
    let mut app = App::new();
    app.record_copy_result(Ok(()));
    assert_eq!(app.status_message.as_deref(), Some("Copied to clipboard!"));
    app.record_copy_result(Err("no display".to_string()));
    assert_eq!(app.status_message.as_deref(), Some("Clipboard error: no display"));
}

#[test]
fn scenario_toggle_timer_twice() {
    let mut app = App::new();
    app.toggle_timer();
    assert!(app.active_note.is_running);
    app.toggle_timer();
    assert!(!app.active_note.is_running);
    assert!(app.active_note.target_time.is_none());
}

#[test]
fn toggle_timer_at_sets_deadline() {
    let mut app = App::new();
    app.active_note.time_left = 90;
    app.toggle_timer_at(5_000);
    assert!(app.active_note.is_running);
    assert_eq!(app.active_note.target_time, Some(95_000));
}

#[test]
fn toggle_timer_at_saturates_deadline() {
    let mut app = App::new();
    app.toggle_timer_at(i64::MAX - 10);
    assert_eq!(app.active_note.target_time, Some(i64::MAX));
}

#[test]
fn tick_rounds_remaining_time_up() {
    let mut app = App::new();
    app.toggle_timer_at(0);
    app.tick_at(1);
    assert_eq!(app.active_note.time_left, 3600);
    app.tick_at(1000);
    assert_eq!(app.active_note.time_left, 3599);
    app.tick_at(3_599_999);
    assert_eq!(app.active_note.time_left, 1);
    assert!(app.active_note.is_running);
    assert!(!app.sound_pending);
}

#[test]
fn tick_at_deadline_stops_and_alerts() {
    let mut app = App::new();
    app.toggle_timer_at(0);
    app.tick_at(3_600_000);
    assert_eq!(app.active_note.time_left, 0);
    assert!(!app.active_note.is_running);
    assert!(app.active_note.target_time.is_none());
    assert!(app.sound_pending);
    app.toggle_timer_at(4_000_000);
    assert!(!app.active_note.is_running);
}

#[test]
fn tick_when_stopped_changes_nothing() {
    let mut app = App::new();
    app.active_note.time_left = 42;
    app.tick_at(10_000_000);
    assert_eq!(app.active_note.time_left, 42);
    app.tick();
    assert_eq!(app.active_note.time_left, 42);
}

#[test]
fn tick_never_exceeds_a_session() {
    let mut app = App::new();
    app.toggle_timer_at(1_000_000);
    app.tick_at(0);
    assert_eq!(app.active_note.time_left, MAX_TIME);
}

#[test]
fn pause_keeps_time_left() {
    let mut app = App::new();
    app.toggle_timer_at(0);
    app.tick_at(600_000);
    app.toggle_timer_at(600_000);
    assert_eq!(app.active_note.time_left, 3000);
    assert!(!app.active_note.is_running);
}

#[test]
fn reset_from_zero_allows_start() {
    let mut app = App::new();
    app.active_note.time_left = 0;
    app.toggle_timer_at(0);
    assert!(!app.active_note.is_running);
    app.reset_timer();
    assert_eq!(app.active_note.time_left, 3600);
    assert!(!app.active_note.is_running);
    assert!(app.active_note.target_time.is_none());
    app.toggle_timer_at(0);
    assert!(app.active_note.is_running);
}

#[test]
fn scenario_history_steps_forward_and_stops() {
    let mut app = App::new();
    for t in ["one", "two", "three"] {
        archive_one(&mut app, t);
    }
    app.history_index = None;
    app.next_history();
    assert_eq!(app.history_index, Some(0));
    app.next_history();
    app.next_history();
    assert_eq!(app.history_index, Some(2));
    app.next_history();
    assert_eq!(app.history_index, Some(2));
}

#[test]
fn scenario_clear_history_restarts_numbering() {
    let mut app = App::new();
    archive_one(&mut app, "one");
    archive_one(&mut app, "two");
    app.show_clear_notes_modal();
    assert_eq!(app.modal, Some(ModalKind::ClearNotes));
    app.confirm_modal();
    assert!(app.completed_notes.is_empty());
    assert_eq!(app.history_index, None);
    archive_one(&mut app, "three");
    assert_eq!(app.completed_notes[0].completion_number, 1);
}

#[test]
fn archive_numbers_follow_order_despite_slot_clears() {
    let mut app = App::new();
    for n in 0..5u64 {
        app.active_note.todos[1].text = "kept".to_string();
        app.selected_todo = 1;
        app.remove_todo();
        archive_one(&mut app, "work");
        assert_eq!(app.completed_notes.len() as u64, n + 1);
    }
    let numbers: Vec<u64> = app.completed_notes.iter().map(|n| n.completion_number).collect();
    assert_eq!(numbers, vec![1, 2, 3, 4, 5]);
    assert_eq!(app.history_index, Some(4));
}

#[test]
fn archive_keeps_empty_slots() {
    let mut app = App::new();
    archive_one(&mut app, "only");
    let note = &app.completed_notes[0];
    assert_eq!(note.todos.len(), 4);
    assert_eq!(note.todos[0].text, "only");
    assert!(note.todos[3].text.is_empty());
    assert_eq!(note.time_spent, 0);
}

#[test]
fn new_session_clears_everything() {
    let mut app = App::new();
    archive_one(&mut app, "one");
    app.active_note.todos[2].text = "pending".to_string();
    app.active_note.time_left = 10;
    app.selected_todo = 2;
    app.show_new_session_modal();
    assert_eq!(app.input_mode, InputMode::Modal);
    app.confirm_modal();
    assert!(app.completed_notes.is_empty());
    assert_eq!(app.history_index, None);
    assert_eq!(app.selected_todo, 0);
    assert_eq!(app.active_note.time_left, MAX_TIME);
    assert!(app.active_note.todos[2].text.is_empty());
    assert_eq!(app.input_mode, InputMode::Normal);
    assert!(app.modal.is_none());
}

#[test]
fn help_confirm_has_no_effect() {
    let mut app = App::new();
    app.active_note.todos[0].text = "x".to_string();
    app.show_help();
    assert_eq!(app.modal, Some(ModalKind::Help));
    app.confirm_modal();
    assert!(app.modal.is_none());
    assert_eq!(app.input_mode, InputMode::Normal);
    assert_eq!(app.active_note.todos[0].text, "x");
}

#[test]
fn second_modal_overwrites_first() {
    let mut app = App::new();
    app.show_help();
    app.show_new_session_modal();
    assert_eq!(app.modal, Some(ModalKind::NewSession));
    app.dismiss_modal();
    assert!(app.modal.is_none());
}

#[test]
fn selection_stays_on_a_slot() {
    let mut app = App::new();
    for _ in 0..10 {
        app.move_selection_down();
        assert!(app.selected_todo <= 3);
    }
    assert_eq!(app.selected_todo, 3);
    for _ in 0..10 {
        app.move_selection_up();
    }
    assert_eq!(app.selected_todo, 0);
}

#[test]
fn typing_stops_at_fifty_characters() {
    let mut app = App::new();
    app.selected_todo = 1;
    app.start_editing();
    for _ in 0..60 {
        app.edit_char('z', 1);
    }
    assert_eq!(app.active_note.todos[1].text.chars().count(), MAX_TODO_LEN);
    let before = app.active_note.todos[1].text.clone();
    app.edit_char('q', 1);
    assert_eq!(app.active_note.todos[1].text, before);
}

#[test]
fn typing_limit_counts_characters() {
    let mut app = App::new();
    app.start_editing();
    for _ in 0..60 {
        app.edit_char('é', 0);
    }
    assert_eq!(app.active_note.todos[0].text.chars().count(), MAX_TODO_LEN);
}

#[test]
fn toggle_empty_slot_keeps_flag() {
    let mut app = App::new();
    app.active_note.todos[2].completed = true;
    app.selected_todo = 2;
    app.toggle_todo();
    assert!(app.active_note.todos[2].completed);
    assert!(!app.sound_pending);
}

#[test]
fn completing_a_task_raises_alert() {
    let mut app = App::new();
    app.active_note.todos[0].text = "t".to_string();
    app.toggle_todo();
    assert!(app.sound_pending);
}

#[test]
fn list_actions_ignored_outside_task_list() {
    let mut app = App::new();
    app.active_note.todos[0].text = "t".to_string();
    app.start_editing();
    assert_eq!(app.input_mode, InputMode::Editing(0));
    app.toggle_todo();
    app.remove_todo();
    app.selected_todo = 1;
    app.start_editing();
    assert_eq!(app.input_mode, InputMode::Editing(0));
    assert_eq!(app.active_note.todos[0].text, "t");
    assert!(!app.active_note.todos[0].completed);
}

#[test]
fn snapshots_copy_and_format() {
    let mut app = App::new();
    app.active_note.todos[0].text = "a".to_string();
    app.active_note.time_left = 3000;
    app.show_complete_session_modal();
    app.confirm_modal();
    let snap = NoteSnapshot::of(&app.completed_notes[0]);
    assert_eq!(snap.time_spent, "10:00");
    assert_eq!(snap.completion_number, 1);
    assert_eq!(snap.todos.len(), 4);
    assert_eq!(snap.todos[0].text, "a");
    let t = TodoSnapshot::of(&Todo { text: "b".to_string(), completed: true });
    assert_eq!(t.text, "b");
    assert!(t.completed);
}

#[test]
fn typing_only_reaches_the_slot_being_edited() {
    let mut app = App::new();
    app.active_note.todos[0].text = "ab".to_string();
    app.edit_char('c', 0);
    app.edit_backspace(0);
    assert_eq!(app.active_note.todos[0].text, "ab");
    app.start_editing();
    app.edit_char('c', 1);
    assert!(app.active_note.todos[1].text.is_empty());
    app.edit_char('c', 0);
    assert_eq!(app.active_note.todos[0].text, "abc");
    app.stop_editing();
    app.edit_backspace(0);
    assert_eq!(app.active_note.todos[0].text, "abc");
}

#[test]
fn validity_check_follows_the_invariant() {
    let mut app = App::new();
    assert!(app.is_valid());
    app.active_note.todos[0].text = "x".to_string();
    app.show_complete_session_modal();
    app.confirm_modal();
    assert!(app.is_valid());
    app.selected_todo = 4;
    assert!(!app.is_valid());
    app.selected_todo = 0;
    app.history_index = Some(1);
    assert!(!app.is_valid());
    app.history_index = Some(0);
    app.completed_notes[0].completion_number = 2;
    assert!(!app.is_valid());
    app.completed_notes[0].completion_number = 1;
    app.active_note.is_running = true;
    assert!(!app.is_valid());
}
