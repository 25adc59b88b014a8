use vstd::prelude::*;

use crate::buffer::restyled;
use crate::buffer::StyledBuffer;
use crate::completion::next_focus;
use crate::completion::previous_focus;
use crate::completion::ListView;
use crate::completion::Suggestion;
use crate::event::classification;
use crate::event::classify;
use crate::event::Classified;
use crate::event::EditCommand;
use crate::event::InputFilter;
use crate::event::Keybindings;
use crate::event::LineEditorEvent;
use crate::event::MovementCommand;
use crate::event::RawEvent;
use crate::pairs::closing_of;
use crate::pairs::closing_pair;
use crate::style::plain_style;
use crate::style::CursorStyle;
use crate::style::Style;
use crate::text::replaced;
use crate::LineEditorResult;

verus! {

/// How applying one event went.
#[derive(Debug)]
pub enum EventStatus {
    /// General event handled
    GeneralHandled,
    /// Edit event handled
    EditHandled,
    /// Movement event handled
    MovementHandled,
    /// Selection event handled
    SelectionHandled,
    /// Autocomplete event handled: nothing to repaint but the overlay
    AutoCompleteHandled,
    /// The event does not apply: no repaint
    Inapplicable,
    /// The session ends with this result
    Exits(LineEditorResult),
}

/// The outside work that an event asks the caller to do.
#[derive(Debug)]
pub enum Effect {
    Nothing,
    /// Put this text on the clipboard.
    SetClipboard(String),
    /// Paint the suggestion overlay, which was just shown.
    ShowOverlay,
    /// Repaint the overlay after a change of focus.
    RenderOverlay,
    /// Erase the overlay.
    ClearOverlay,
}

/// The status of an applied event and the outside work it asks for.
#[derive(Debug)]
pub struct Outcome {
    pub status: EventStatus,
    pub effect: Effect,
}

/// What the editing loop does after an event.
#[derive(Clone, Copy, Debug, PartialEq, Eq, Structural)]
pub enum NextStep {
    /// Run pair completion and the highlighters, repaint, and look for a hint.
    Render,
    /// Skip the repaint and wait for the next input.
    AwaitInput,
    /// Leave the loop with the event's result.
    Exit,
}

/// The step after an event of status `status`.
pub open spec fn next_step_of(status: EventStatus) -> NextStep {
    match status {
        EventStatus::Exits(_) => NextStep::Exit,
        EventStatus::AutoCompleteHandled => NextStep::AwaitInput,
        EventStatus::Inapplicable => NextStep::AwaitInput,
        _ => NextStep::Render,
    }
}

/// The step after an event of status `status`: an exit ends the loop, an inapplicable event
/// or a change of the suggestion list skips the repaint, anything else repaints.
pub fn next_step(status: &EventStatus) -> (r: NextStep)
    ensures
        r == next_step_of(*status),
{
    match status {
        EventStatus::Exits(_) => NextStep::Exit,
        EventStatus::AutoCompleteHandled => NextStep::AwaitInput,
        EventStatus::Inapplicable => NextStep::AwaitInput,
        _ => NextStep::Render,
    }
}

/// A style that a highlighter gives to the characters in `[from, to)`.
#[derive(Clone, Copy, Debug, PartialEq, Eq, Structural)]
pub struct StyleSpan {
    pub from: usize,
    pub to: usize,
    pub style: Style,
}

/// `styling` after applying each span of `spans` in order.
pub open spec fn apply_spans(styling: Seq<Style>, spans: Seq<StyleSpan>) -> Seq<Style>
    decreases spans.len(),
{
    if spans.len() == 0 {
        styling
    } else {
        let last = spans.last();
        restyled(apply_spans(styling, spans.drop_last()), last.from as int, last.to as int, last.style)
    }
}

/// `styling` after applying the spans of each highlighter in order.
pub open spec fn apply_layers(styling: Seq<Style>, layers: Seq<Vec<StyleSpan>>) -> Seq<Style>
    decreases layers.len(),
{
    if layers.len() == 0 {
        styling
    } else {
        apply_spans(apply_layers(styling, layers.drop_last()), layers.last()@)
    }
}

/// Whether some span of `spans` covers offset `i`.
pub open spec fn covers(spans: Seq<StyleSpan>, i: int) -> bool {
    exists|k: int| 0 <= k < spans.len() && #[trigger] spans[k].from <= i < spans[k].to
}

pub open spec fn min_nat(a: nat, b: nat) -> nat {
    if a <= b {
        a
    } else {
        b
    }
}

pub open spec fn max_nat(a: nat, b: nat) -> nat {
    if a <= b {
        b
    } else {
        a
    }
}

/// `t` with `open` inserted before offset `from` and `close` before offset `to`.
pub open spec fn surrounded(t: Seq<char>, from: int, to: int, open: char, close: char) -> Seq<
    char,
> {
    t.subrange(0, from) + seq![open] + t.subrange(from, to) + seq![close] + t.subrange(
        to,
        t.len() as int,
    )
}

/// The text after `cmd` with the cursor at `p`.
pub open spec fn edited_text(t: Seq<char>, p: nat, cmd: EditCommand) -> Seq<char> {
    match cmd {
        EditCommand::InsertChar(c) => if t.len() < usize::MAX {
            t.insert(p as int, c)
        } else {
            t
        },
        EditCommand::DeleteLeftChar => if p > 0 {
            t.remove(p - 1)
        } else {
            t
        },
        EditCommand::DeleteRightChar => if p < t.len() {
            t.remove(p as int)
        } else {
            t
        },
        EditCommand::DeleteSpan(a, b) => if a <= b <= t.len() {
            replaced(t, a as int, b as int, seq![])
        } else {
            t
        },
        EditCommand::Clear => Seq::empty(),
    }
}

/// The cursor after `cmd` with the cursor at `p`.
pub open spec fn edited_cursor(t: Seq<char>, p: nat, cmd: EditCommand) -> nat {
    match cmd {
        EditCommand::InsertChar(c) => if t.len() < usize::MAX {
            p + 1
        } else {
            p
        },
        EditCommand::DeleteLeftChar => if p > 0 {
            (p - 1) as nat
        } else {
            p
        },
        EditCommand::DeleteRightChar => p,
        EditCommand::DeleteSpan(a, b) => if a <= b <= t.len() {
            a as nat
        } else {
            p
        },
        EditCommand::Clear => 0,
    }
}

/// The cursor after `m` in a text of `n` characters.
pub open spec fn moved_cursor(p: nat, n: nat, m: MovementCommand) -> nat {
    match m {
        MovementCommand::MoveLeftChar => if p > 0 {
            (p - 1) as nat
        } else {
            p
        },
        MovementCommand::MoveRightChar => if p < n {
            p + 1
        } else {
            p
        },
        MovementCommand::MoveToStart => 0,
        MovementCommand::MoveToEnd => n,
    }
}

/// The line editing engine: buffer, selection, suggestion list and settings of one session.
pub struct LineEditor {
    editor: StyledBuffer,
    input_filter: InputFilter,
    keybindings: Keybindings,
    auto_complete_view: ListView,
    cursor_style: Option<CursorStyle>,
    selection_style: Option<Style>,
    selected_start: usize,
    selected_end: usize,
    enable_surround_selection: bool,
}

impl LineEditor {
    pub closed spec fn buffer(&self) -> StyledBuffer {
        self.editor
    }

    pub open spec fn text(&self) -> Seq<char> {
        self.buffer().text()
    }

    pub open spec fn cursor(&self) -> nat {
        self.buffer().cursor()
    }

    pub closed spec fn sel_start(&self) -> nat {
        self.selected_start as nat
    }

    pub closed spec fn sel_end(&self) -> nat {
        self.selected_end as nat
    }

    /// The lower end of the selection.
    pub open spec fn sel_from(&self) -> nat {
        min_nat(self.sel_start(), self.sel_end())
    }

    /// The upper end of the selection.
    pub open spec fn sel_to(&self) -> nat {
        max_nat(self.sel_start(), self.sel_end())
    }

    pub open spec fn has_selection(&self) -> bool {
        self.sel_start() != self.sel_end()
    }

    pub closed spec fn completions(&self) -> ListView {
        self.auto_complete_view
    }

    pub closed spec fn filter(&self) -> InputFilter {
        self.input_filter
    }

    pub closed spec fn bindings(&self) -> Keybindings {
        self.keybindings
    }

    pub closed spec fn surround_enabled(&self) -> bool {
        self.enable_surround_selection
    }

    pub closed spec fn selection_overlay(&self) -> Option<Style> {
        self.selection_style
    }

    pub closed spec fn cursor_shape(&self) -> Option<CursorStyle> {
        self.cursor_style
    }

    /// The buffer and the suggestion list are well formed, and the selection lies in the text.
    pub open spec fn wf(&self) -> bool {
        &&& self.buffer().wf()
        &&& self.sel_start() <= self.text().len()
        &&& self.sel_end() <= self.text().len()
        &&& self.completions().wf()
    }

    /// Both ends of the selection sit at the cursor.
    pub open spec fn selection_reset(&self) -> bool {
        self.sel_start() == self.cursor() && self.sel_end() == self.cursor()
    }

    /// The same editor with both ends of the selection at the cursor.
    pub closed spec fn with_reset_selection(&self) -> LineEditor {
        LineEditor {
            selected_start: self.editor.cursor() as usize,
            selected_end: self.editor.cursor() as usize,
            ..*self
        }
    }

    /// The settings, which no event changes, are those of `other`.
    pub open spec fn same_settings(&self, other: &LineEditor) -> bool {
        &&& self.filter() == other.filter()
        &&& self.bindings() == other.bindings()
        &&& self.cursor_shape() == other.cursor_shape()
        &&& self.selection_overlay() == other.selection_overlay()
        &&& self.surround_enabled() == other.surround_enabled()
    }

    /// A new editor: empty buffer, no selection, hidden suggestions, every option off.
    pub fn new() -> (r: LineEditor)
        ensures
            r.wf(),
            r.text() == Seq::<char>::empty(),
            r.cursor() == 0,
            r.selection_reset(),
            !r.completions().visible(),
            r.filter() == InputFilter::Text,
            r.bindings().entries().len() == 0,
            !r.surround_enabled(),
            r.selection_overlay() is None,
            r.cursor_shape() is None,
    {
        LineEditor {
            editor: StyledBuffer::new(),
            input_filter: InputFilter::Text,
            keybindings: Keybindings::new(),
            auto_complete_view: ListView::new(),
            cursor_style: None,
            selection_style: None,
            selected_start: 0,
            selected_end: 0,
            enable_surround_selection: false,
        }
    }

    /// Puts both ends of the selection at the cursor.
    pub fn reset_selection_range(&mut self)
        requires
            old(self).buffer().wf(),
            old(self).completions().wf(),
        ensures
            *final(self) == old(self).with_reset_selection(),
            final(self).wf(),
            final(self).selection_reset(),
            final(self).buffer() == old(self).buffer(),
            final(self).completions() == old(self).completions(),
            final(self).same_settings(old(self)),
    {
        let position = self.editor.position();
        self.selected_start = position;
        self.selected_end = position;
    }

    /// Deletes the selected text, if any, and puts the cursor and the selection at its start.
    pub fn delete_selected_text(&mut self)
        requires
            old(self).wf(),
        ensures
            final(self).wf(),
            final(self).same_settings(old(self)),
            final(self).completions() == old(self).completions(),
            !old(self).has_selection() ==> *final(self) == *old(self),
            old(self).has_selection() ==> {
                &&& final(self).text() == replaced(
                    old(self).text(),
                    old(self).sel_from() as int,
                    old(self).sel_to() as int,
                    seq![],
                )
                &&& final(self).cursor() == old(self).sel_from()
                &&& final(self).selection_reset()
            },
    {
        if self.selected_start == self.selected_end {
            return ;
        }
        let from = if self.selected_start < self.selected_end {
            self.selected_start
        } else {
            self.selected_end
        };
        let to = if self.selected_start < self.selected_end {
            self.selected_end
        } else {
            self.selected_start
        };
        self.editor.delete_range(from, to);
        self.reset_selection_range();
    }

    /// Wraps the selection in `open` and `close`, and puts the cursor and the selection at the
    /// start of the selection.
    pub fn apply_surround_selection(&mut self, open: char, close: char)
        requires
            old(self).wf(),
            old(self).has_selection(),
        ensures
            final(self).wf(),
            final(self).same_settings(old(self)),
            final(self).completions() == old(self).completions(),
            final(self).text() == surround_result(
                old(self).text(),
                old(self).sel_from() as int,
                old(self).sel_to() as int,
                open,
                close,
            ),
            final(self).cursor() == old(self).sel_from(),
            final(self).selection_reset(),
    {
        let ghost t = self.text();
        let from = if self.selected_start < self.selected_end {
            self.selected_start
        } else {
            self.selected_end
        };
        let to = if self.selected_start < self.selected_end {
            self.selected_end
        } else {
            self.selected_start
        };
        if self.editor.len() <= usize::MAX - 2 {
            self.editor.set_position(from);
            self.editor.insert_char(open);
            self.editor.set_position(to + 1);
            self.editor.insert_char(close);
        }
        self.editor.set_position(from);
        self.reset_selection_range();
        assert(self.text() =~= surround_result(t, from as int, to as int, open, close));
    }

    /// Applies the edit `cmd`: a wrap of the selection where surround selection is on, a
    /// selection exists and `cmd` types an opening character; else `cmd` itself.
    pub fn edit(&mut self, cmd: EditCommand) -> (o: Outcome)
        requires
            old(self).wf(),
        ensures
            final(self).wf(),
            final(self).same_settings(old(self)),
            edit_post(*old(self), *final(self), cmd, o),
    {
        if self.enable_surround_selection && self.selected_start != self.selected_end {
            if let EditCommand::InsertChar(c) = cmd {
                if let Some(close) = closing_pair(c) {
                    self.apply_surround_selection(c, close);
                    return Outcome { status: EventStatus::EditHandled, effect: Effect::Nothing };
                }
            }
        }
        run_edit_command(&mut self.editor, cmd);
        self.reset_selection_range();
        Outcome { status: EventStatus::EditHandled, effect: Effect::Nothing }
    }

    /// Inserts `s` at the cursor, in place of the selection if there is one.
    fn insert_replacing_selection(&mut self, s: &Vec<char>)
        requires
            old(self).wf(),
            old(self).text().len() + s@.len() <= usize::MAX,
        ensures
            final(self).wf(),
            final(self).same_settings(old(self)),
            final(self).completions() == old(self).completions(),
            final(self).text() == replaced(
                without_selection(*old(self)).0,
                without_selection(*old(self)).1 as int,
                without_selection(*old(self)).1 as int,
                s@,
            ),
            final(self).cursor() == without_selection(*old(self)).1 + s@.len(),
            final(self).selection_reset(),
    {
        self.delete_selected_text();
        self.editor.insert_chars(s);
        self.reset_selection_range();
    }

    /// Inserts the text `s` at the cursor, as a paste of the terminal brings it, and resets
    /// the selection there; text that would not fit in `usize::MAX` characters is dropped.
    pub fn insert_text(&mut self, s: &String) -> (o: Outcome)
        requires
            old(self).wf(),
        ensures
            final(self).wf(),
            final(self).same_settings(old(self)),
            final(self).completions() == old(self).completions(),
            final(self).selection_reset(),
            o.status is EditHandled,
            o.effect is Nothing,
            old(self).text().len() + s@.len() <= usize::MAX ==> {
                &&& final(self).text() == replaced(
                    old(self).text(),
                    old(self).cursor() as int,
                    old(self).cursor() as int,
                    s@,
                )
                &&& final(self).cursor() == old(self).cursor() + s@.len()
            },
            old(self).text().len() + s@.len() > usize::MAX ==> final(self).buffer() == old(
                self,
            ).buffer(),
    {
        let chars = crate::text::chars_of(s);
        if chars.len() <= usize::MAX - self.editor.len() {
            self.editor.insert_chars(&chars);
        }
        self.reset_selection_range();
        Outcome { status: EventStatus::EditHandled, effect: Effect::Nothing }
    }

    /// Applies the submission event.
    fn enter(&mut self) -> (o: Outcome)
        requires
            old(self).wf(),
        ensures
            final(self).wf(),
            final(self).same_settings(old(self)),
            enter_post(*old(self), *final(self), o),
    {
        if self.auto_complete_view.is_visible() {
            let sg = self.auto_complete_view.selected_element();
            if let Some(sg) = sg {
                let start = sg.span.start;
                let end = sg.span.end;
                let literal = crate::text::chars_of(sg.literal());
                if start <= end && end <= self.editor.len() && literal.len() <= usize::MAX
                    - self.editor.len() {
                    let ghost t = self.text();
                    self.editor.delete_range(start, end);
                    self.editor.insert_chars(&literal);
                    assert(self.text() =~= replaced(t, start as int, end as int, literal@));
                    self.auto_complete_view.close();
                    self.reset_selection_range();
                    return Outcome {
                        status: EventStatus::SelectionHandled,
                        effect: Effect::ClearOverlay,
                    };
                }
            }
            self.auto_complete_view.close();
            return Outcome { status: EventStatus::Inapplicable, effect: Effect::ClearOverlay };
        }
        let buffer = self.editor.contents();
        self.editor.clear();
        self.reset_selection_range();
        Outcome {
            status: EventStatus::Exits(LineEditorResult::Success(buffer)),
            effect: Effect::Nothing,
        }
    }

    /// Copies the selection to the clipboard, and deletes it where `cut`.
    fn cut_or_copy(&mut self, cut: bool) -> (o: Outcome)
        requires
            old(self).wf(),
        ensures
            final(self).wf(),
            final(self).same_settings(old(self)),
            clip_post(*old(self), *final(self), cut, o),
    {
        if self.selected_start == self.selected_end {
            return Outcome { status: EventStatus::Inapplicable, effect: Effect::Nothing };
        }
        let from = if self.selected_start < self.selected_end {
            self.selected_start
        } else {
            self.selected_end
        };
        let to = if self.selected_start < self.selected_end {
            self.selected_end
        } else {
            self.selected_start
        };
        match self.editor.sub_string(from, to) {
            Some(selected_text) => {
                if cut {
                    self.delete_selected_text();
                }
                Outcome {
                    status: EventStatus::GeneralHandled,
                    effect: Effect::SetClipboard(selected_text),
                }
            },
            None => Outcome { status: EventStatus::Inapplicable, effect: Effect::Nothing },
        }
    }

    /// Inserts the clipboard's text `clipboard`, in place of the selection if there is one;
    /// nothing where the clipboard could not be read or is empty.
    fn paste(&mut self, clipboard: Option<String>) -> (o: Outcome)
        requires
            old(self).wf(),
        ensures
            final(self).wf(),
            final(self).same_settings(old(self)),
            paste_post(*old(self), *final(self), clip_view(clipboard), o),
    {
        match clipboard {
            Some(content) => {
                let chars = crate::text::chars_of(&content);
                if chars.len() == 0 || chars.len() > usize::MAX - self.editor.len() {
                    return Outcome { status: EventStatus::Inapplicable, effect: Effect::Nothing };
                }
                self.insert_replacing_selection(&chars);
                Outcome { status: EventStatus::GeneralHandled, effect: Effect::Nothing }
            },
            None => Outcome { status: EventStatus::Inapplicable, effect: Effect::Nothing },
        }
    }

    /// Hides a shown suggestion list; else shows `suggestions`, where there are any.
    fn toggle_auto_complete(&mut self, suggestions: Vec<Suggestion>) -> (o: Outcome)
        requires
            old(self).wf(),
        ensures
            final(self).wf(),
            final(self).same_settings(old(self)),
            toggle_post(*old(self), *final(self), suggestions@, o),
    {
        if self.auto_complete_view.is_visible() {
            self.auto_complete_view.close();
            return Outcome { status: EventStatus::Inapplicable, effect: Effect::ClearOverlay };
        }
        if suggestions.len() == 0 {
            return Outcome { status: EventStatus::Inapplicable, effect: Effect::Nothing };
        }
        self.auto_complete_view.show(suggestions);
        Outcome { status: EventStatus::AutoCompleteHandled, effect: Effect::ShowOverlay }
    }

    /// Applies one semantic event. `clipboard` is the clipboard's text, read for a paste
    /// (`None` where it could not be read); `suggestions` are what the completer offers, asked
    /// for when the list is toggled on.
    pub fn handle_editor_event(
        &mut self,
        event: LineEditorEvent,
        clipboard: Option<String>,
        suggestions: Vec<Suggestion>,
    ) -> (o: Outcome)
        requires
            old(self).wf(),
        ensures
            final(self).wf(),
            final(self).same_settings(old(self)),
            event_post(*old(self), *final(self), event, clipboard, suggestions@, o),
    {
        let none = Effect::Nothing;
        match event {
            LineEditorEvent::Edit(cmd) => self.edit(cmd),
            LineEditorEvent::Movement(m) => {
                run_movement_command(&mut self.editor, m);
                self.reset_selection_range();
                Outcome { status: EventStatus::MovementHandled, effect: none }
            },
            LineEditorEvent::Left => {
                run_movement_command(&mut self.editor, MovementCommand::MoveLeftChar);
                self.reset_selection_range();
                Outcome { status: EventStatus::MovementHandled, effect: none }
            },
            LineEditorEvent::Right => {
                run_movement_command(&mut self.editor, MovementCommand::MoveRightChar);
                self.reset_selection_range();
                Outcome { status: EventStatus::MovementHandled, effect: none }
            },
            LineEditorEvent::Enter => self.enter(),
            LineEditorEvent::Up => {
                if self.auto_complete_view.is_visible() {
                    self.auto_complete_view.focus_previous();
                    return Outcome {
                        status: EventStatus::AutoCompleteHandled,
                        effect: Effect::RenderOverlay,
                    };
                }
                Outcome { status: EventStatus::Inapplicable, effect: none }
            },
            LineEditorEvent::Down => {
                if self.auto_complete_view.is_visible() {
                    self.auto_complete_view.focus_next();
                    return Outcome {
                        status: EventStatus::AutoCompleteHandled,
                        effect: Effect::RenderOverlay,
                    };
                }
                Outcome { status: EventStatus::Inapplicable, effect: none }
            },
            LineEditorEvent::Delete => {
                if self.selected_start != self.selected_end {
                    self.delete_selected_text();
                } else {
                    run_edit_command(&mut self.editor, EditCommand::DeleteRightChar);
                    self.reset_selection_range();
                }
                Outcome { status: EventStatus::EditHandled, effect: none }
            },
            LineEditorEvent::Backspace => {
                if self.selected_start != self.selected_end {
                    self.delete_selected_text();
                } else {
                    run_edit_command(&mut self.editor, EditCommand::DeleteLeftChar);
                    self.reset_selection_range();
                }
                Outcome { status: EventStatus::EditHandled, effect: none }
            },
            LineEditorEvent::SelectLeft => {
                if self.selected_end < 1 {
                    Outcome { status: EventStatus::Inapplicable, effect: none }
                } else {
                    self.selected_end = self.selected_end - 1;
                    Outcome { status: EventStatus::SelectionHandled, effect: none }
                }
            },
            LineEditorEvent::SelectRight => {
                if self.selected_end >= self.editor.len() {
                    Outcome { status: EventStatus::Inapplicable, effect: none }
                } else {
                    self.selected_end = self.selected_end + 1;
                    Outcome { status: EventStatus::SelectionHandled, effect: none }
                }
            },
            LineEditorEvent::SelectAll => {
                self.selected_start = 0;
                self.selected_end = self.editor.len();
                Outcome { status: EventStatus::SelectionHandled, effect: none }
            },
            LineEditorEvent::CutSelected => self.cut_or_copy(true),
            LineEditorEvent::CopySelected => self.cut_or_copy(false),
            LineEditorEvent::Paste => self.paste(clipboard),
            LineEditorEvent::ToggleAutoComplete => self.toggle_auto_complete(suggestions),
            LineEditorEvent::Interrupt => Outcome {
                status: EventStatus::Exits(LineEditorResult::Interrupted),
                effect: none,
            },
            LineEditorEvent::EndSession => Outcome {
                status: EventStatus::Exits(LineEditorResult::EndTerminalSession),
                effect: none,
            },
            LineEditorEvent::Esc => Outcome { status: EventStatus::Inapplicable, effect: none },
        }
    }

    /// Styles the selection with the selection style, where both exist.
    pub fn apply_visual_selection(&mut self)
        requires
            old(self).wf(),
        ensures
            final(self).wf(),
            final(self).same_settings(old(self)),
            final(self).text() == old(self).text(),
            final(self).cursor() == old(self).cursor(),
            final(self).sel_start() == old(self).sel_start(),
            final(self).sel_end() == old(self).sel_end(),
            final(self).completions() == old(self).completions(),
            final(self).buffer().styling() == selection_painted(*old(self), old(self).buffer().styling()),
    {
        if self.selected_start == self.selected_end {
            return ;
        }
        if let Some(style) = self.selection_style {
            let from = if self.selected_start < self.selected_end {
                self.selected_start
            } else {
                self.selected_end
            };
            let to = if self.selected_start < self.selected_end {
                self.selected_end
            } else {
                self.selected_start
            };
            self.editor.style_range(from, to, style);
        }
    }

    /// Inserts `close`, the closing character that the pair completion offers, right of the
    /// cursor, where the text grew from `len_before` characters and has room for one more;
    /// the cursor stays where it is.
    pub fn complete_pair_if_grown(&mut self, len_before: usize, close: Option<char>)
        requires
            old(self).wf(),
        ensures
            final(self).wf(),
            final(self).same_settings(old(self)),
            final(self).cursor() == old(self).cursor(),
            final(self).sel_start() == old(self).sel_start(),
            final(self).sel_end() == old(self).sel_end(),
            final(self).completions() == old(self).completions(),
            final(self).text() == if close is Some && len_before < old(self).text().len() && old(
                self,
            ).text().len() < usize::MAX {
                old(self).text().insert(old(self).cursor() as int, close->0)
            } else {
                old(self).text()
            },
    {
        if let Some(c) = close {
            if len_before < self.editor.len() && self.editor.len() < usize::MAX {
                let p = self.editor.position();
                self.editor.insert_char(c);
                self.editor.set_position(p);
            }
        }
    }

    /// Restyles the whole text: plain first, then the spans of each highlighter in the order
    /// given, then the selection. Returns whether the cursor is at the end of the text, where
    /// a hint is shown.
    pub fn paint(&mut self, layers: &Vec<Vec<StyleSpan>>) -> (at_end: bool)
        requires
            old(self).wf(),
        ensures
            final(self).wf(),
            final(self).same_settings(old(self)),
            final(self).text() == old(self).text(),
            final(self).cursor() == old(self).cursor(),
            final(self).sel_start() == old(self).sel_start(),
            final(self).sel_end() == old(self).sel_end(),
            final(self).completions() == old(self).completions(),
            final(self).buffer().styling() == painted(*old(self), layers@),
            at_end == (old(self).cursor() == old(self).text().len()),
    {
        self.editor.reset_styles();
        let ghost base = self.buffer().styling();
        let mut i: usize = 0;
        assert(layers@.subrange(0, 0) =~= Seq::<Vec<StyleSpan>>::empty());
        while i < layers.len()
            invariant
                i <= layers@.len(),
                self.wf(),
                self.same_settings(old(self)),
                self.text() == old(self).text(),
                self.cursor() == old(self).cursor(),
                self.sel_start() == old(self).sel_start(),
                self.sel_end() == old(self).sel_end(),
                self.completions() == old(self).completions(),
                base == Seq::new(old(self).text().len(), |k: int| plain_style()),
                self.buffer().styling() == apply_layers(base, layers@.subrange(0, i as int)),
            decreases layers@.len() - i,
        {
            let layer = &layers[i];
            let ghost before = self.buffer().styling();
            let mut j: usize = 0;
            assert(layer@.subrange(0, 0) =~= Seq::<StyleSpan>::empty());
            while j < layer.len()
                invariant
                    j <= layer@.len(),
                    self.wf(),
                    self.same_settings(old(self)),
                    self.text() == old(self).text(),
                    self.cursor() == old(self).cursor(),
                    self.sel_start() == old(self).sel_start(),
                    self.sel_end() == old(self).sel_end(),
                    self.completions() == old(self).completions(),
                    self.buffer().styling() == apply_spans(before, layer@.subrange(0, j as int)),
                decreases layer@.len() - j,
            {
                let span = layer[j];
                self.editor.style_range(span.from, span.to, span.style);
                assert(layer@.subrange(0, j + 1).drop_last() =~= layer@.subrange(0, j as int));
                j = j + 1;
            }
            assert(layer@.subrange(0, layer@.len() as int) =~= layer@);
            assert(layers@.subrange(0, i + 1).drop_last() =~= layers@.subrange(0, i as int));
            i = i + 1;
        }
        assert(layers@.subrange(0, layers@.len() as int) =~= layers@);
        self.apply_visual_selection();
        self.editor.position() == self.editor.len()
    }

    /// What `raw` becomes under this editor's filter and keybindings.
    pub fn classify_event(&self, raw: &RawEvent) -> (r: Classified)
        ensures
            raw is Paste ==> r is Text && r->Text_0@ == raw->Paste_0@,
            !(raw is Paste) ==> match classification(
                *raw,
                self.filter(),
                self.bindings().entries(),
            ) {
                Some(e) => r == Classified::Event(e),
                None => r is Nothing,
            },
    {
        classify(raw, &self.input_filter, &self.keybindings)
    }

    /// The buffer.
    pub fn editor(&self) -> (r: &StyledBuffer)
        ensures
            *r == self.buffer(),
    {
        &self.editor
    }

    /// The suggestion list.
    pub fn auto_complete_view(&self) -> (r: &ListView)
        ensures
            *r == self.completions(),
    {
        &self.auto_complete_view
    }

    /// The selection, as its two ends.
    pub fn selection(&self) -> (r: (usize, usize))
        ensures
            r.0 == self.sel_start(),
            r.1 == self.sel_end(),
    {
        (self.selected_start, self.selected_end)
    }

    /// The keybindings, to change.
    pub fn keybinding(&mut self) -> (r: &mut Keybindings)
        ensures
            *r == old(self).bindings(),
            *final(self) == old(self).with_bindings(*final(r)),
            final(self).bindings() == *final(r),
            final(self).filter() == old(self).filter(),
            final(self).cursor_shape() == old(self).cursor_shape(),
            final(self).selection_overlay() == old(self).selection_overlay(),
            final(self).surround_enabled() == old(self).surround_enabled(),
            unchanged(*old(self), *final(self)),
    {
        &mut self.keybindings
    }

    /// The same editor with the keybindings `k`.
    pub closed spec fn with_bindings(&self, k: Keybindings) -> LineEditor {
        LineEditor { keybindings: k, ..*self }
    }

    /// Sets the style of the selection, or `None` to show none.
    pub fn set_visual_selection_style(&mut self, style: Option<Style>)
        ensures
            final(self).selection_overlay() == style,
            final(self).filter() == old(self).filter(),
            final(self).bindings() == old(self).bindings(),
            final(self).cursor_shape() == old(self).cursor_shape(),
            final(self).surround_enabled() == old(self).surround_enabled(),
            unchanged(*old(self), *final(self)),
    {
        self.selection_style = style;
    }

    pub fn set_input_filter(&mut self, input_filter: InputFilter)
        ensures
            final(self).filter() == input_filter,
            final(self).bindings() == old(self).bindings(),
            final(self).cursor_shape() == old(self).cursor_shape(),
            final(self).selection_overlay() == old(self).selection_overlay(),
            final(self).surround_enabled() == old(self).surround_enabled(),
            unchanged(*old(self), *final(self)),
    {
        self.input_filter = input_filter;
    }

    /// Sets the cursor shape, or `None` for the terminal's own.
    pub fn set_cursor_style(&mut self, style: Option<CursorStyle>)
        ensures
            final(self).cursor_shape() == style,
            final(self).filter() == old(self).filter(),
            final(self).bindings() == old(self).bindings(),
            final(self).selection_overlay() == old(self).selection_overlay(),
            final(self).surround_enabled() == old(self).surround_enabled(),
            unchanged(*old(self), *final(self)),
    {
        self.cursor_style = style;
    }

    /// The cursor shape set, if any.
    pub fn cursor_style(&self) -> (r: Option<CursorStyle>)
        ensures
            r == self.cursor_shape(),
    {
        self.cursor_style
    }

    /// Turns wrapping the selection in typed pairs on or off.
    pub fn enable_surround_selection(&mut self, enable: bool)
        ensures
            final(self).surround_enabled() == enable,
            final(self).filter() == old(self).filter(),
            final(self).bindings() == old(self).bindings(),
            final(self).cursor_shape() == old(self).cursor_shape(),
            final(self).selection_overlay() == old(self).selection_overlay(),
            unchanged(*old(self), *final(self)),
    {
        self.enable_surround_selection = enable;
    }
}

/// Applies `cmd` to the buffer.
fn run_edit_command(buffer: &mut StyledBuffer, cmd: EditCommand)
    requires
        old(buffer).wf(),
    ensures
        final(buffer).wf(),
        final(buffer).text() == edited_text(old(buffer).text(), old(buffer).cursor(), cmd),
        final(buffer).cursor() == edited_cursor(old(buffer).text(), old(buffer).cursor(), cmd),
{
    match cmd {
        EditCommand::InsertChar(c) => {
            if buffer.len() < usize::MAX {
                buffer.insert_char(c);
            }
        },
        EditCommand::DeleteLeftChar => buffer.delete_left_char(),
        EditCommand::DeleteRightChar => buffer.delete_right_char(),
        EditCommand::DeleteSpan(a, b) => {
            if a <= b && b <= buffer.len() {
                buffer.delete_range(a, b);
            }
        },
        EditCommand::Clear => buffer.clear(),
    }
}

/// Moves the cursor of the buffer by `m`.
fn run_movement_command(buffer: &mut StyledBuffer, m: MovementCommand)
    requires
        old(buffer).wf(),
    ensures
        final(buffer).wf(),
        final(buffer).text() == old(buffer).text(),
        final(buffer).styling() == old(buffer).styling(),
        final(buffer).cursor() == moved_cursor(
            old(buffer).cursor(),
            old(buffer).text().len(),
            m,
        ),
{
    let p = buffer.position();
    let n = buffer.len();
    match m {
        MovementCommand::MoveLeftChar => {
            if p > 0 {
                buffer.set_position(p - 1);
            }
        },
        MovementCommand::MoveRightChar => {
            if p < n {
                buffer.set_position(p + 1);
            }
        },
        MovementCommand::MoveToStart => buffer.set_position(0),
        MovementCommand::MoveToEnd => buffer.set_position(n),
    }
}

/// `t` wrapped as `surrounded` says, where the two characters fit in a text of at most
/// `usize::MAX` characters; else `t` unchanged.
pub open spec fn surround_result(t: Seq<char>, from: int, to: int, open: char, close: char) -> Seq<
    char,
> {
    if t.len() + 2 <= usize::MAX {
        surrounded(t, from, to, open, close)
    } else {
        t
    }
}

/// Whether a character insertion wraps the selection instead.
pub open spec fn surround_applies(a: LineEditor, cmd: EditCommand) -> bool {
    &&& a.surround_enabled()
    &&& a.has_selection()
    &&& cmd is InsertChar
    &&& closing_of(cmd->InsertChar_0) is Some
}

/// Buffer, selection and suggestion list are those of `a`.
pub open spec fn unchanged(a: LineEditor, b: LineEditor) -> bool {
    &&& b.buffer() == a.buffer()
    &&& b.sel_start() == a.sel_start()
    &&& b.sel_end() == a.sel_end()
    &&& b.completions() == a.completions()
}

/// `b` is `a` after the edit `cmd`.
pub open spec fn edit_post(a: LineEditor, b: LineEditor, cmd: EditCommand, o: Outcome) -> bool {
    &&& o.status is EditHandled
    &&& o.effect is Nothing
    &&& b.selection_reset()
    &&& b.completions() == a.completions()
    &&& if surround_applies(a, cmd) {
        &&& b.text() == surround_result(
            a.text(),
            a.sel_from() as int,
            a.sel_to() as int,
            cmd->InsertChar_0,
            closing_of(cmd->InsertChar_0)->0,
        )
        &&& b.cursor() == a.sel_from()
    } else {
        &&& b.text() == edited_text(a.text(), a.cursor(), cmd)
        &&& b.cursor() == edited_cursor(a.text(), a.cursor(), cmd)
    }
}

/// `b` is `a` after the cursor movement `m`.
pub open spec fn movement_post(a: LineEditor, b: LineEditor, m: MovementCommand, o: Outcome) -> bool {
    &&& o.status is MovementHandled
    &&& o.effect is Nothing
    &&& b.text() == a.text()
    &&& b.cursor() == moved_cursor(a.cursor(), a.text().len(), m)
    &&& b.selection_reset()
    &&& b.completions() == a.completions()
}

/// `b` is `a` after deleting the selection, or else the character that `cmd` deletes.
pub open spec fn delete_post(a: LineEditor, b: LineEditor, cmd: EditCommand, o: Outcome) -> bool {
    &&& o.status is EditHandled
    &&& o.effect is Nothing
    &&& b.selection_reset()
    &&& b.completions() == a.completions()
    &&& if a.has_selection() {
        &&& b.text() == replaced(a.text(), a.sel_from() as int, a.sel_to() as int, seq![])
        &&& b.cursor() == a.sel_from()
    } else {
        &&& b.text() == edited_text(a.text(), a.cursor(), cmd)
        &&& b.cursor() == edited_cursor(a.text(), a.cursor(), cmd)
    }
}

/// Whether the span of `sg` lies in `t`.
pub open spec fn span_fits(sg: Suggestion, t: Seq<char>) -> bool {
    sg.span.start <= sg.span.end <= t.len()
}

/// `b` is `a` after the submission event.
pub open spec fn enter_post(a: LineEditor, b: LineEditor, o: Outcome) -> bool {
    if a.completions().visible() {
        let sg = a.completions().elements()[a.completions().focus() as int];
        &&& !b.completions().visible()
        &&& o.effect is ClearOverlay
        &&& if span_fits(sg, a.text()) && a.text().len() + sg.content@.len() <= usize::MAX {
            &&& o.status is SelectionHandled
            &&& b.text() == replaced(
                a.text(),
                sg.span.start as int,
                sg.span.end as int,
                sg.content@,
            )
            &&& b.cursor() == sg.span.start + sg.content@.len()
            &&& b.selection_reset()
        } else {
            &&& o.status is Inapplicable
            &&& b.buffer() == a.buffer()
            &&& b.sel_start() == a.sel_start()
            &&& b.sel_end() == a.sel_end()
        }
    } else {
        &&& o.status is Exits
        &&& o.status->Exits_0 is Success
        &&& o.status->Exits_0->Success_0@ == a.text()
        &&& o.effect is Nothing
        &&& b.text() == Seq::<char>::empty()
        &&& b.cursor() == 0
        &&& b.selection_reset()
        &&& b.completions() == a.completions()
    }
}

/// `b` is `a` after moving the focus of a shown list to `focus`; nothing where it is hidden.
pub open spec fn focus_post(a: LineEditor, b: LineEditor, focus: nat, o: Outcome) -> bool {
    if a.completions().visible() {
        &&& o.status is AutoCompleteHandled
        &&& o.effect is RenderOverlay
        &&& b.buffer() == a.buffer()
        &&& b.sel_start() == a.sel_start()
        &&& b.sel_end() == a.sel_end()
        &&& b.completions().visible()
        &&& b.completions().elements() == a.completions().elements()
        &&& b.completions().focus() == focus
    } else {
        &&& o.status is Inapplicable
        &&& o.effect is Nothing
        &&& unchanged(a, b)
    }
}

/// `b` is `a` after moving the end of the selection to `end`, where `ok`; nothing otherwise.
pub open spec fn extend_post(a: LineEditor, b: LineEditor, ok: bool, end: int, o: Outcome) -> bool {
    &&& o.effect is Nothing
    &&& if ok {
        &&& o.status is SelectionHandled
        &&& b.buffer() == a.buffer()
        &&& b.completions() == a.completions()
        &&& b.sel_start() == a.sel_start()
        &&& b.sel_end() == end
    } else {
        &&& o.status is Inapplicable
        &&& unchanged(a, b)
    }
}

/// `b` is `a` after cutting (`cut`) or copying the selection.
pub open spec fn clip_post(a: LineEditor, b: LineEditor, cut: bool, o: Outcome) -> bool {
    if a.has_selection() {
        &&& o.status is GeneralHandled
        &&& o.effect is SetClipboard
        &&& o.effect->SetClipboard_0@ == a.text().subrange(a.sel_from() as int, a.sel_to() as int)
        &&& b.completions() == a.completions()
        &&& if cut {
            &&& b.text() == replaced(a.text(), a.sel_from() as int, a.sel_to() as int, seq![])
            &&& b.cursor() == a.sel_from()
            &&& b.selection_reset()
        } else {
            unchanged(a, b)
        }
    } else {
        &&& o.status is Inapplicable
        &&& o.effect is Nothing
        &&& unchanged(a, b)
    }
}

/// The text and cursor of `a` once its selection, if any, is deleted.
pub open spec fn without_selection(a: LineEditor) -> (Seq<char>, nat) {
    if a.has_selection() {
        (replaced(a.text(), a.sel_from() as int, a.sel_to() as int, seq![]), a.sel_from())
    } else {
        (a.text(), a.cursor())
    }
}

/// `b` is `a` after pasting `clip`, the clipboard's text where it could be read; an empty
/// clipboard does not apply.
pub open spec fn paste_post(a: LineEditor, b: LineEditor, clip: Option<Seq<char>>, o: Outcome) -> bool {
    &&& o.effect is Nothing
    &&& if clip is Some && clip->0.len() > 0 && a.text().len() + clip->0.len() <= usize::MAX {
        let (t, p) = without_selection(a);
        &&& o.status is GeneralHandled
        &&& b.text() == replaced(t, p as int, p as int, clip->0)
        &&& b.cursor() == p + clip->0.len()
        &&& b.selection_reset()
        &&& b.completions() == a.completions()
    } else {
        &&& o.status is Inapplicable
        &&& unchanged(a, b)
    }
}

/// `b` is `a` after toggling the suggestion list, `sugg` being what the completer offers.
pub open spec fn toggle_post(a: LineEditor, b: LineEditor, sugg: Seq<Suggestion>, o: Outcome) -> bool {
    if a.completions().visible() {
        &&& o.status is Inapplicable
        &&& o.effect is ClearOverlay
        &&& !b.completions().visible()
        &&& b.buffer() == a.buffer()
        &&& b.sel_start() == a.sel_start()
        &&& b.sel_end() == a.sel_end()
    } else if sugg.len() == 0 {
        &&& o.status is Inapplicable
        &&& o.effect is Nothing
        &&& unchanged(a, b)
    } else {
        &&& o.status is AutoCompleteHandled
        &&& o.effect is ShowOverlay
        &&& b.completions().visible()
        &&& b.completions().elements() == sugg
        &&& b.completions().focus() == 0
        &&& b.buffer() == a.buffer()
        &&& b.sel_start() == a.sel_start()
        &&& b.sel_end() == a.sel_end()
    }
}

/// The clipboard text as characters.
pub open spec fn clip_view(clip: Option<String>) -> Option<Seq<char>> {
    match clip {
        Some(s) => Some(s@),
        None => None,
    }
}

/// `b` is `a` after `e`, with `clip` the clipboard's text and `sugg` the completer's offer.
pub open spec fn event_post(
    a: LineEditor,
    b: LineEditor,
    e: LineEditorEvent,
    clip: Option<String>,
    sugg: Seq<Suggestion>,
    o: Outcome,
) -> bool {
    match e {
        LineEditorEvent::Edit(cmd) => edit_post(a, b, cmd, o),
        LineEditorEvent::Movement(m) => movement_post(a, b, m, o),
        LineEditorEvent::Left => movement_post(a, b, MovementCommand::MoveLeftChar, o),
        LineEditorEvent::Right => movement_post(a, b, MovementCommand::MoveRightChar, o),
        LineEditorEvent::Enter => enter_post(a, b, o),
        LineEditorEvent::Up => focus_post(
            a,
            b,
            previous_focus(a.completions().focus(), a.completions().elements().len()),
            o,
        ),
        LineEditorEvent::Down => focus_post(
            a,
            b,
            next_focus(a.completions().focus(), a.completions().elements().len()),
            o,
        ),
        LineEditorEvent::Delete => delete_post(a, b, EditCommand::DeleteRightChar, o),
        LineEditorEvent::Backspace => delete_post(a, b, EditCommand::DeleteLeftChar, o),
        LineEditorEvent::SelectLeft => extend_post(a, b, a.sel_end() > 0, a.sel_end() - 1, o),
        LineEditorEvent::SelectRight => extend_post(
            a,
            b,
            a.sel_end() < a.text().len(),
            a.sel_end() + 1 as int,
            o,
        ),
        LineEditorEvent::SelectAll => {
            &&& o.status is SelectionHandled
            &&& o.effect is Nothing
            &&& b.buffer() == a.buffer()
            &&& b.completions() == a.completions()
            &&& b.sel_start() == 0
            &&& b.sel_end() == a.text().len()
        },
        LineEditorEvent::CutSelected => clip_post(a, b, true, o),
        LineEditorEvent::CopySelected => clip_post(a, b, false, o),
        LineEditorEvent::Paste => paste_post(a, b, clip_view(clip), o),
        LineEditorEvent::ToggleAutoComplete => toggle_post(a, b, sugg, o),
        LineEditorEvent::Interrupt => {
            &&& o.status is Exits
            &&& o.status->Exits_0 is Interrupted
            &&& o.effect is Nothing
            &&& unchanged(a, b)
        },
        LineEditorEvent::EndSession => {
            &&& o.status is Exits
            &&& o.status->Exits_0 is EndTerminalSession
            &&& o.effect is Nothing
            &&& unchanged(a, b)
        },
        LineEditorEvent::Esc => {
            &&& o.status is Inapplicable
            &&& o.effect is Nothing
            &&& unchanged(a, b)
        },
    }
}

/// `styling` with the selection of `a` styled, where it has one and a selection style.
pub open spec fn selection_painted(a: LineEditor, styling: Seq<Style>) -> Seq<Style> {
    if a.has_selection() && a.selection_overlay() is Some {
        restyled(styling, a.sel_from() as int, a.sel_to() as int, a.selection_overlay()->0)
    } else {
        styling
    }
}

/// The styles of `a`'s text after a repaint with the highlighter spans `layers`.
pub open spec fn painted(a: LineEditor, layers: Seq<Vec<StyleSpan>>) -> Seq<Style> {
    selection_painted(
        a,
        apply_layers(Seq::new(a.text().len(), |k: int| plain_style()), layers),
    )
}

/// Restyling keeps the number of styles.
pub proof fn lemma_apply_spans_len(styling: Seq<Style>, spans: Seq<StyleSpan>)
    ensures
        apply_spans(styling, spans).len() == styling.len(),
    decreases spans.len(),
{
    if spans.len() > 0 {
        lemma_apply_spans_len(styling, spans.drop_last());
    }
}

/// Where a later set of spans covers an offset, the style there is the later one's whatever
/// was there before: spans applied after others override them where they overlap.
pub proof fn lemma_later_spans_win(x: Seq<Style>, y: Seq<Style>, spans: Seq<StyleSpan>, i: int)
    requires
        x.len() == y.len(),
        0 <= i < x.len(),
        covers(spans, i),
    ensures
        apply_spans(x, spans)[i] == apply_spans(y, spans)[i],
    decreases spans.len(),
{
    lemma_apply_spans_len(x, spans.drop_last());
    lemma_apply_spans_len(y, spans.drop_last());
    let last = spans.last();
    if !(last.from <= i < last.to) {
        let k = choose|k: int| 0 <= k < spans.len() && #[trigger] spans[k].from <= i < spans[k].to;
        assert(spans.drop_last()[k] == spans[k]);
        lemma_later_spans_win(x, y, spans.drop_last(), i);
    }
}

/// Of two highlighters run in order, the second one's style stands wherever it styles a
/// character, whatever the first one did there.
pub proof fn lemma_later_highlighter_wins(
    base: Seq<Style>,
    first: Vec<StyleSpan>,
    second: Vec<StyleSpan>,
    i: int,
)
    requires
        0 <= i < base.len(),
        covers(second@, i),
    ensures
        apply_layers(base, seq![first, second])[i] == apply_layers(base, seq![second])[i],
        apply_layers(base, seq![first, second])[i] == second@[choose_last_cover(second@, i)].style,
{
    let two = seq![first, second];
    let one = seq![second];
    assert(two.drop_last() =~= seq![first]);
    assert(seq![first].drop_last() =~= Seq::<Vec<StyleSpan>>::empty());
    assert(one.drop_last() =~= Seq::<Vec<StyleSpan>>::empty());
    assert(apply_layers(base, Seq::<Vec<StyleSpan>>::empty()) == base);
    assert(apply_layers(base, seq![first]) == apply_spans(base, first@));
    assert(apply_layers(base, two) == apply_spans(apply_spans(base, first@), second@));
    assert(apply_layers(base, one) == apply_spans(base, second@));
    lemma_apply_spans_len(base, first@);
    lemma_later_spans_win(apply_spans(base, first@), base, second@, i);
    lemma_last_cover_style(apply_spans(base, first@), second@, i);
}

/// The index of the last span of `spans` that covers `i`.
pub open spec fn choose_last_cover(spans: Seq<StyleSpan>, i: int) -> int
    decreases spans.len(),
{
    if spans.len() == 0 {
        0
    } else if spans.last().from <= i < spans.last().to {
        spans.len() - 1
    } else {
        choose_last_cover(spans.drop_last(), i)
    }
}

/// Where spans cover an offset, its style is that of the last span covering it.
pub proof fn lemma_last_cover_style(x: Seq<Style>, spans: Seq<StyleSpan>, i: int)
    requires
        0 <= i < x.len(),
        covers(spans, i),
    ensures
        0 <= choose_last_cover(spans, i) < spans.len(),
        spans[choose_last_cover(spans, i)].from <= i < spans[choose_last_cover(spans, i)].to,
        apply_spans(x, spans)[i] == spans[choose_last_cover(spans, i)].style,
    decreases spans.len(),
{
    lemma_apply_spans_len(x, spans.drop_last());
    let last = spans.last();
    if !(last.from <= i < last.to) {
        let k = choose|k: int| 0 <= k < spans.len() && #[trigger] spans[k].from <= i < spans[k].to;
        assert(spans.drop_last()[k] == spans[k]);
        lemma_last_cover_style(x, spans.drop_last(), i);
    }
}

/// A movement keeps both ends of the selection within the text.
pub proof fn lemma_movement_keeps_selection_in_text(
    a: LineEditor,
    b: LineEditor,
    m: MovementCommand,
    o: Outcome,
)
    requires
        a.wf(),
        b.buffer().wf(),
        b.completions().wf(),
        movement_post(a, b, m, o),
    ensures
        b.wf(),
        0 <= b.sel_start() <= b.text().len(),
        0 <= b.sel_end() <= b.text().len(),
{
}

/// Along any run of movements from a well-formed editor, both ends of the selection stay
/// within the text.
pub proof fn lemma_movements_keep_selection_in_text(
    states: Seq<LineEditor>,
    moves: Seq<MovementCommand>,
    outcomes: Seq<Outcome>,
)
    requires
        states.len() == moves.len() + 1,
        outcomes.len() == moves.len(),
        states[0].wf(),
        forall|k: int| 0 <= k < states.len() ==> #[trigger] states[k].buffer().wf(),
        forall|k: int| 0 <= k < states.len() ==> #[trigger] states[k].completions().wf(),
        forall|k: int|
            0 <= k < moves.len() ==> movement_post(
                states[k],
                #[trigger] states[k + 1],
                moves[k],
                outcomes[k],
            ),
    ensures
        forall|k: int|
            0 <= k < states.len() ==> #[trigger] states[k].wf() && states[k].sel_start()
                <= states[k].text().len() && states[k].sel_end() <= states[k].text().len(),
    decreases moves.len(),
{
    if moves.len() > 0 {
        let n = moves.len() - 1;
        lemma_movements_keep_selection_in_text(
            states.subrange(0, n + 1),
            moves.subrange(0, n),
            outcomes.subrange(0, n),
        );
        assert forall|k: int| 0 <= k < states.len() implies #[trigger] states[k].wf()
            && states[k].sel_start() <= states[k].text().len() && states[k].sel_end()
            <= states[k].text().len() by {
            if k <= n {
                assert(states.subrange(0, n + 1)[k] == states[k]);
            } else {
                assert(states.subrange(0, n + 1)[n] == states[n]);
                assert(states[n].wf());
                lemma_movement_keeps_selection_in_text(states[n], states[k], moves[n], outcomes[n]);
            }
        }
    }
}

/// After an edit that applies (a typed edit, a deletion, a paste, a cut), both ends of the
/// selection sit at the new cursor.
pub proof fn lemma_edit_resets_selection(
    a: LineEditor,
    b: LineEditor,
    cmd: EditCommand,
    clip: Option<Seq<char>>,
    o: Outcome,
)
    requires
        edit_post(a, b, cmd, o) || delete_post(a, b, cmd, o) || (paste_post(a, b, clip, o)
            && o.status is GeneralHandled) || (clip_post(a, b, true, o) && a.has_selection()),
    ensures
        b.sel_start() == b.cursor(),
        b.sel_end() == b.cursor(),
{
}

/// Cutting a selection `[from, to)` shortens the text by `to - from`, leaves the cursor at
/// `from` and hands the clipboard the text that was selected.
pub proof fn lemma_cut_selection(a: LineEditor, b: LineEditor, o: Outcome)
    requires
        a.wf(),
        a.has_selection(),
        clip_post(a, b, true, o),
    ensures
        b.text().len() == a.text().len() - (a.sel_to() - a.sel_from()),
        b.cursor() == a.sel_from(),
        o.effect is SetClipboard,
        o.effect->SetClipboard_0@ == a.text().subrange(a.sel_from() as int, a.sel_to() as int),
{
}

/// Copying a selection leaves text and cursor as they were and hands the clipboard the text
/// that is selected.
pub proof fn lemma_copy_selection(a: LineEditor, b: LineEditor, o: Outcome)
    requires
        a.has_selection(),
        clip_post(a, b, false, o),
    ensures
        b.text() == a.text(),
        b.cursor() == a.cursor(),
        o.effect is SetClipboard,
        o.effect->SetClipboard_0@ == a.text().subrange(a.sel_from() as int, a.sel_to() as int),
{
}

/// Wrapping `[from, to)` adds two characters: `open` at `from` and `close` right after the
/// wrapped text, at `to + 1`.
pub proof fn lemma_surround_shape(t: Seq<char>, from: int, to: int, open: char, close: char)
    requires
        0 <= from <= to <= t.len(),
    ensures
        surrounded(t, from, to, open, close).len() == t.len() + 2,
        surrounded(t, from, to, open, close)[from] == open,
        surrounded(t, from, to, open, close)[to + 1] == close,
        surrounded(t, from, to, open, close).subrange(from + 1, to + 1) == t.subrange(from, to),
{
    let s = surrounded(t, from, to, open, close);
    assert(s.subrange(from + 1, to + 1) =~= t.subrange(from, to));
}

/// Toggling the hidden suggestion list with nothing to offer leaves it hidden and does not
/// apply.
pub proof fn lemma_toggle_without_suggestions(a: LineEditor, b: LineEditor, o: Outcome)
    requires
        !a.completions().visible(),
        toggle_post(a, b, Seq::<Suggestion>::empty(), o),
    ensures
        !b.completions().visible(),
        o.status is Inapplicable,
        o.effect is Nothing,
        unchanged(a, b),
{
}

/// Resetting the selection twice gives what resetting it once gives.
pub proof fn lemma_reset_selection_idempotent(s: LineEditor)
    ensures
        s.with_reset_selection().with_reset_selection() == s.with_reset_selection(),
{
}

} // verus!
