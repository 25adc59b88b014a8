use lineeditor::completion::overlay_start_row;
use lineeditor::completion::Span;
use lineeditor::completion::Suggestion;
use lineeditor::engine::Effect;
use lineeditor::engine::EventStatus;
use lineeditor::engine::next_step;
use lineeditor::engine::LineEditor;
use lineeditor::engine::NextStep;
use lineeditor::engine::Outcome;
use lineeditor::engine::StyleSpan;
use lineeditor::event::EditCommand;
use lineeditor::event::LineEditorEvent;
use lineeditor::event::MovementCommand;
use lineeditor::pairs::pending_pair;
use lineeditor::style::Color;
use lineeditor::style::Style;
use lineeditor::LineEditorResult;

fn editor_with(s: &str) -> LineEditor {
    let mut e = LineEditor::new();
    e.insert_text(&s.to_string());
    e
}

fn run(e: &mut LineEditor, ev: LineEditorEvent) -> Outcome {
    e.handle_editor_event(ev, None, vec![])
}

fn text(e: &LineEditor) -> String {
    e.editor().contents()
}

fn cursor(e: &LineEditor) -> usize {
    e.editor().position()
}

/// Selects `[from, to)` by putting the cursor at `to` and extending left.
fn select(e: &mut LineEditor, from: usize, to: usize) {
    run(e, LineEditorEvent::Movement(MovementCommand::MoveToStart));
    for _ in 0..to {
        run(e, LineEditorEvent::Right);
    }
    for _ in from..to {
        run(e, LineEditorEvent::SelectLeft);
    }
}

fn colored(c: Color) -> Style {
    let mut s = Style::new();
    s.set_background_color(c);
    s
}

fn suggestion(s: &str, start: usize, end: usize) -> Suggestion {
    Suggestion::new(s.to_string(), Span { start, end })
}

#[test]
fn movements_keep_selection_within_text() {
    let mut e = editor_with("abc");
    let moves = [
        LineEditorEvent::Right,
        LineEditorEvent::Right,
        LineEditorEvent::Left,
        LineEditorEvent::Movement(MovementCommand::MoveToStart),
        LineEditorEvent::Left,
        LineEditorEvent::Movement(MovementCommand::MoveToEnd),
        LineEditorEvent::Movement(MovementCommand::MoveRightChar),
    ];
    for m in moves {
        let o = run(&mut e, m);
        assert!(matches!(o.status, EventStatus::MovementHandled));
        let (s, t) = e.selection();
        assert!(s <= text(&e).chars().count() && t <= text(&e).chars().count());
        assert_eq!(s, cursor(&e));
        assert_eq!(t, cursor(&e));
    }
    assert_eq!(cursor(&e), 3);
}

#[test]
fn edit_resets_selection_to_cursor() {
    let mut e = editor_with("hello");
    select(&mut e, 1, 4);
    let o = run(&mut e, LineEditorEvent::Edit(EditCommand::InsertChar('x')));
    assert!(matches!(o.status, EventStatus::EditHandled));
    assert_eq!(text(&e), "hellxo");
    assert_eq!(e.selection(), (5, 5));
    assert_eq!(cursor(&e), 5);
}

#[test]
fn cut_removes_selection_and_fills_clipboard() {
    let mut e = editor_with("abcdefg");
    select(&mut e, 2, 5);
    let o = run(&mut e, LineEditorEvent::CutSelected);
    assert!(matches!(o.status, EventStatus::GeneralHandled));
    match o.effect {
        Effect::SetClipboard(s) => assert_eq!(s, "cde"),
        _ => panic!("expected clipboard text"),
    }
    assert_eq!(text(&e), "abfg");
    assert_eq!(cursor(&e), 2);
    assert_eq!(e.selection(), (2, 2));
}

#[test]
fn copy_leaves_buffer_and_cursor() {
    let mut e = editor_with("abcdefg");
    select(&mut e, 2, 5);
    let before = cursor(&e);
    let o = run(&mut e, LineEditorEvent::CopySelected);
    assert!(matches!(o.status, EventStatus::GeneralHandled));
    match o.effect {
        Effect::SetClipboard(s) => assert_eq!(s, "cde"),
        _ => panic!("expected clipboard text"),
    }
    assert_eq!(text(&e), "abcdefg");
    assert_eq!(cursor(&e), before);
}

#[test]
fn cut_and_copy_without_selection_do_not_apply() {
    let mut e = editor_with("abc");
    let o = run(&mut e, LineEditorEvent::CutSelected);
    assert!(matches!(o.status, EventStatus::Inapplicable));
    assert!(matches!(o.effect, Effect::Nothing));
    let o = run(&mut e, LineEditorEvent::CopySelected);
    assert!(matches!(o.status, EventStatus::Inapplicable));
    assert_eq!(text(&e), "abc");
}

#[test]
fn surround_wraps_selection() {
    let mut e = editor_with("abcdefg");
    e.enable_surround_selection(true);
    select(&mut e, 2, 5);
    let o = run(&mut e, LineEditorEvent::Edit(EditCommand::InsertChar('(')));
    assert!(matches!(o.status, EventStatus::EditHandled));
    let t: Vec<char> = text(&e).chars().collect();
    assert_eq!(t.len(), 9);
    assert_eq!(t[2], '(');
    assert_eq!(t[6], ')');
    assert_eq!(text(&e), "ab(cde)fg");
    assert_eq!(cursor(&e), 2);
}

#[test]
fn surround_off_inserts_at_cursor() {
    let mut e = editor_with("abcdefg");
    select(&mut e, 2, 5);
    run(&mut e, LineEditorEvent::Edit(EditCommand::InsertChar('(')));
    assert_eq!(text(&e), "abcde(fg");
}

#[test]
fn submit_with_hidden_list_returns_text() {
    let mut e = editor_with("abc");
    let o = run(&mut e, LineEditorEvent::Enter);
    match o.status {
        EventStatus::Exits(LineEditorResult::Success(s)) => assert_eq!(s, "abc"),
        _ => panic!("expected success"),
    }
    assert_eq!(e.editor().len(), 0);
    assert_eq!(e.selection(), (0, 0));
}

#[test]
fn toggle_with_no_suggestions_stays_hidden() {
    let mut e = editor_with("abc");
    let o = e.handle_editor_event(LineEditorEvent::ToggleAutoComplete, None, vec![]);
    assert!(matches!(o.status, EventStatus::Inapplicable));
    assert!(matches!(o.effect, Effect::Nothing));
    assert!(!e.auto_complete_view().is_visible());
}

#[test]
fn reset_selection_twice_is_reset_once() {
    let mut e = editor_with("abcdef");
    select(&mut e, 1, 3);
    e.reset_selection_range();
    let once = (e.selection(), cursor(&e), text(&e));
    e.reset_selection_range();
    assert_eq!((e.selection(), cursor(&e), text(&e)), once);
    assert_eq!(once.0, (3, 3));
}

#[test]
fn later_highlighter_wins_on_overlap() {
    let mut e = editor_with("abcdef");
    let a = vec![StyleSpan { from: 0, to: 4, style: colored(Color::Red) }];
    let b = vec![StyleSpan { from: 2, to: 6, style: colored(Color::Blue) }];
    let at_end = e.paint(&vec![a, b]);
    assert!(at_end);
    assert_eq!(e.editor().style_at(0), colored(Color::Red));
    assert_eq!(e.editor().style_at(2), colored(Color::Blue));
    assert_eq!(e.editor().style_at(3), colored(Color::Blue));
    assert_eq!(e.editor().style_at(5), colored(Color::Blue));
}

#[test]
fn selection_style_painted_over_highlights() {
    let mut e = editor_with("abcdef");
    e.set_visual_selection_style(Some(colored(Color::Green)));
    select(&mut e, 1, 3);
    let a = vec![StyleSpan { from: 0, to: 6, style: colored(Color::Red) }];
    let at_end = e.paint(&vec![a]);
    assert!(!at_end);
    assert_eq!(e.editor().style_at(0), colored(Color::Red));
    assert_eq!(e.editor().style_at(1), colored(Color::Green));
    assert_eq!(e.editor().style_at(2), colored(Color::Green));
    assert_eq!(e.editor().style_at(3), colored(Color::Red));
}

#[test]
fn extend_selection_at_bounds_does_not_apply() {
    let mut e = editor_with("ab");
    let o = run(&mut e, LineEditorEvent::SelectRight);
    assert!(matches!(o.status, EventStatus::Inapplicable));
    assert_eq!(e.selection(), (2, 2));
    let o = run(&mut e, LineEditorEvent::SelectLeft);
    assert!(matches!(o.status, EventStatus::SelectionHandled));
    assert_eq!(e.selection(), (2, 1));
    run(&mut e, LineEditorEvent::SelectLeft);
    let o = run(&mut e, LineEditorEvent::SelectLeft);
    assert!(matches!(o.status, EventStatus::Inapplicable));
    assert_eq!(e.selection(), (2, 0));
}

#[test]
fn select_all_spans_text() {
    let mut e = editor_with("abcd");
    let o = run(&mut e, LineEditorEvent::SelectAll);
    assert!(matches!(o.status, EventStatus::SelectionHandled));
    assert_eq!(e.selection(), (0, 4));
}

#[test]
fn backspace_and_delete_remove_selection() {
    let mut e = editor_with("abcdef");
    select(&mut e, 1, 3);
    run(&mut e, LineEditorEvent::Backspace);
    assert_eq!(text(&e), "adef");
    assert_eq!(cursor(&e), 1);
    run(&mut e, LineEditorEvent::Delete);
    assert_eq!(text(&e), "aef");
    run(&mut e, LineEditorEvent::Backspace);
    assert_eq!(text(&e), "ef");
    assert_eq!(e.selection(), (0, 0));
}

#[test]
fn paste_replaces_selection() {
    let mut e = editor_with("abcdef");
    select(&mut e, 1, 3);
    let o = e.handle_editor_event(LineEditorEvent::Paste, Some("XY".to_string()), vec![]);
    assert!(matches!(o.status, EventStatus::GeneralHandled));
    assert_eq!(text(&e), "aXYdef");
    assert_eq!(cursor(&e), 3);
    assert_eq!(e.selection(), (3, 3));
}

#[test]
fn paste_without_clipboard_does_not_apply() {
    let mut e = editor_with("abc");
    let o = e.handle_editor_event(LineEditorEvent::Paste, None, vec![]);
    assert!(matches!(o.status, EventStatus::Inapplicable));
    assert_eq!(text(&e), "abc");
}

#[test]
fn accept_replaces_span_with_focused_suggestion() {
    let mut e = editor_with("say he");
    let list = vec![suggestion("hello", 4, 6), suggestion("help", 4, 6)];
    let o = e.handle_editor_event(LineEditorEvent::ToggleAutoComplete, None, list);
    assert!(matches!(o.status, EventStatus::AutoCompleteHandled));
    assert!(matches!(o.effect, Effect::ShowOverlay));
    assert!(e.auto_complete_view().is_visible());
    let o = run(&mut e, LineEditorEvent::Down);
    assert!(matches!(o.effect, Effect::RenderOverlay));
    assert_eq!(e.auto_complete_view().focus_index(), 1);
    run(&mut e, LineEditorEvent::Down);
    assert_eq!(e.auto_complete_view().focus_index(), 0);
    run(&mut e, LineEditorEvent::Up);
    assert_eq!(e.auto_complete_view().focus_index(), 1);
    let o = run(&mut e, LineEditorEvent::Enter);
    assert!(matches!(o.status, EventStatus::SelectionHandled));
    assert!(matches!(o.effect, Effect::ClearOverlay));
    assert_eq!(text(&e), "say help");
    assert_eq!(cursor(&e), 8);
    assert!(!e.auto_complete_view().is_visible());
}

#[test]
fn toggle_hides_shown_list() {
    let mut e = editor_with("x");
    e.handle_editor_event(LineEditorEvent::ToggleAutoComplete, None, vec![suggestion("xy", 0, 1)]);
    let o = e.handle_editor_event(LineEditorEvent::ToggleAutoComplete, None, vec![]);
    assert!(matches!(o.status, EventStatus::Inapplicable));
    assert!(matches!(o.effect, Effect::ClearOverlay));
    assert!(!e.auto_complete_view().is_visible());
}

#[test]
fn focus_keys_with_hidden_list_do_not_apply() {
    let mut e = editor_with("x");
    assert!(matches!(run(&mut e, LineEditorEvent::Up).status, EventStatus::Inapplicable));
    assert!(matches!(run(&mut e, LineEditorEvent::Down).status, EventStatus::Inapplicable));
}

#[test]
fn interrupt_and_end_session_exit() {
    let mut e = editor_with("x");
    assert!(matches!(
        run(&mut e, LineEditorEvent::Interrupt).status,
        EventStatus::Exits(LineEditorResult::Interrupted)
    ));
    assert!(matches!(
        run(&mut e, LineEditorEvent::EndSession).status,
        EventStatus::Exits(LineEditorResult::EndTerminalSession)
    ));
    assert_eq!(text(&e), "x");
}

#[test]
fn auto_pair_runs_only_when_text_grew() {
    let mut e = LineEditor::new();
    let before = e.editor().len();
    run(&mut e, LineEditorEvent::Edit(EditCommand::InsertChar('[')));
    let close = pending_pair(e.editor());
    assert_eq!(close, Some(']'));
    e.complete_pair_if_grown(before, close);
    assert_eq!(text(&e), "[]");
    assert_eq!(cursor(&e), 1);
    let before = e.editor().len();
    run(&mut e, LineEditorEvent::Right);
    e.complete_pair_if_grown(before, Some(']'));
    assert_eq!(text(&e), "[]");
    assert_eq!(pending_pair(e.editor()), None);
}

#[test]
fn overlay_rows() {
    assert_eq!(overlay_start_row(3, 5, 24), None);
    assert_eq!(overlay_start_row(20, 5, 24), Some(17));
    assert_eq!(overlay_start_row(0, 30, 24), Some(0));
}

#[test]
fn insert_text_goes_at_cursor() {
    let mut e = editor_with("abcd");
    select(&mut e, 0, 2);
    let o = e.insert_text(&"Z".to_string());
    assert!(matches!(o.status, EventStatus::EditHandled));
    assert_eq!(text(&e), "abZcd");
    assert_eq!(cursor(&e), 3);
    assert_eq!(e.selection(), (3, 3));
}

#[test]
fn paste_of_empty_clipboard_does_not_apply() {
    let mut e = editor_with("abcdef");
    select(&mut e, 1, 3);
    let o = e.handle_editor_event(LineEditorEvent::Paste, Some(String::new()), vec![]);
    assert!(matches!(o.status, EventStatus::Inapplicable));
    assert_eq!(text(&e), "abcdef");
    assert_eq!(e.selection(), (3, 1));
}

#[test]
fn next_step_follows_status() {
    assert_eq!(next_step(&EventStatus::EditHandled), NextStep::Render);
    assert_eq!(next_step(&EventStatus::SelectionHandled), NextStep::Render);
    assert_eq!(next_step(&EventStatus::Inapplicable), NextStep::AwaitInput);
    assert_eq!(next_step(&EventStatus::AutoCompleteHandled), NextStep::AwaitInput);
    assert_eq!(next_step(&EventStatus::Exits(LineEditorResult::Interrupted)), NextStep::Exit);
}

#[test]
fn setters_change_only_their_setting() {
    let mut e = editor_with("abc");
    e.set_visual_selection_style(Some(colored(Color::Green)));
    e.enable_surround_selection(true);
    assert_eq!(text(&e), "abc");
    assert_eq!(cursor(&e), 3);
    select(&mut e, 0, 1);
    run(&mut e, LineEditorEvent::Edit(EditCommand::InsertChar('[')));
    assert_eq!(text(&e), "[a]bc");
}
