use vstd::prelude::*;

verus! {

/// A key of the keyboard.
#[derive(Clone, Copy, Debug, PartialEq, Eq, Structural)]
pub enum KeyCode {
    Char(char),
    Enter,
    Backspace,
    Delete,
    Left,
    Right,
    Up,
    Down,
    Home,
    End,
    Tab,
    Esc,
    F(u8),
    Other,
}

/// A set of modifier keys, one bit each.
#[derive(Clone, Copy, Debug, PartialEq, Eq, Structural)]
pub struct KeyModifiers {
    pub bits: u8,
}

pub const MODIFIER_NONE: u8 = 0;

pub const MODIFIER_SHIFT: u8 = 1;

pub const MODIFIER_CONTROL: u8 = 2;

pub const MODIFIER_ALT: u8 = 4;

/// Whether a key went down, repeats or went up.
#[derive(Clone, Copy, Debug, PartialEq, Eq, Structural)]
pub enum KeyEventKind {
    Press,
    Repeat,
    Release,
}

/// A key chord: key, modifiers and kind.
#[derive(Clone, Copy, Debug, PartialEq, Eq, Structural)]
pub struct KeyCombination {
    pub code: KeyCode,
    pub modifiers: KeyModifiers,
    pub kind: KeyEventKind,
}

/// One raw input event of the terminal.
pub enum RawEvent {
    Key(KeyCombination),
    Paste(String),
    FocusGained,
    FocusLost,
    Resize(u16, u16),
    Mouse,
}

/// A change of the buffer's text.
#[derive(Clone, Copy, Debug, PartialEq, Eq, Structural)]
pub enum EditCommand {
    InsertChar(char),
    DeleteLeftChar,
    DeleteRightChar,
    DeleteSpan(usize, usize),
    Clear,
}

/// A move of the cursor.
#[derive(Clone, Copy, Debug, PartialEq, Eq, Structural)]
pub enum MovementCommand {
    MoveLeftChar,
    MoveRightChar,
    MoveToStart,
    MoveToEnd,
}

/// A semantic editing event.
#[derive(Clone, Copy, Debug, PartialEq, Eq, Structural)]
pub enum LineEditorEvent {
    Edit(EditCommand),
    Movement(MovementCommand),
    Enter,
    Up,
    Down,
    Left,
    Right,
    Delete,
    Backspace,
    SelectLeft,
    SelectRight,
    SelectAll,
    CutSelected,
    CopySelected,
    Paste,
    ToggleAutoComplete,
    Interrupt,
    EndSession,
    Esc,
}

/// What one raw event becomes.
pub enum Classified {
    /// A semantic event.
    Event(LineEditorEvent),
    /// Text to insert at the cursor.
    Text(String),
    /// Nothing: the input is dropped.
    Nothing,
}

/// Which characters typed on the keyboard are inserted.
#[derive(Clone, Copy, Debug, PartialEq, Eq, Structural)]
pub enum InputFilter {
    Text,
    Numeric,
    Alphabetic,
    AlphaNumeric,
    HexDigit,
}

pub open spec fn is_digit(c: char) -> bool {
    '0' <= c <= '9'
}

pub open spec fn is_letter(c: char) -> bool {
    ('a' <= c <= 'z') || ('A' <= c <= 'Z')
}

/// Whether `filter` lets `c` through.
pub open spec fn accepts(filter: InputFilter, c: char) -> bool {
    match filter {
        InputFilter::Text => true,
        InputFilter::Numeric => is_digit(c),
        InputFilter::Alphabetic => is_letter(c),
        InputFilter::AlphaNumeric => is_digit(c) || is_letter(c),
        InputFilter::HexDigit => is_digit(c) || ('a' <= c <= 'f') || ('A' <= c <= 'F'),
    }
}

/// Whether `filter` lets `c` through.
pub fn filter_input(c: char, filter: &InputFilter) -> (r: bool)
    ensures
        r == accepts(*filter, c),
{
    match filter {
        InputFilter::Text => true,
        InputFilter::Numeric => '0' <= c && c <= '9',
        InputFilter::Alphabetic => ('a' <= c && c <= 'z') || ('A' <= c && c <= 'Z'),
        InputFilter::AlphaNumeric => ('0' <= c && c <= '9') || ('a' <= c && c <= 'z') || (
        'A' <= c && c <= 'Z'),
        InputFilter::HexDigit => ('0' <= c && c <= '9') || ('a' <= c && c <= 'f') || ('A' <= c
            && c <= 'F'),
    }
}

/// The table from key chords to semantic events; the first entry for a chord wins.
pub struct Keybindings {
    bindings: Vec<(KeyCombination, LineEditorEvent)>,
}

/// The event bound first to `key` in `b`, if any.
pub open spec fn lookup(b: Seq<(KeyCombination, LineEditorEvent)>, key: KeyCombination) -> Option<
    LineEditorEvent,
>
    decreases b.len(),
{
    if b.len() == 0 {
        None
    } else if b[0].0 == key {
        Some(b[0].1)
    } else {
        lookup(b.drop_first(), key)
    }
}

impl Keybindings {
    /// The bindings, in the order they were added.
    pub closed spec fn entries(&self) -> Seq<(KeyCombination, LineEditorEvent)> {
        self.bindings@
    }

    /// A table with no binding.
    pub fn new() -> (r: Keybindings)
        ensures
            r.entries() == Seq::<(KeyCombination, LineEditorEvent)>::empty(),
    {
        Keybindings { bindings: Vec::new() }
    }

    /// Binds `key` to `event`, in place of any earlier binding of `key`.
    pub fn add_binding(&mut self, key: KeyCombination, event: LineEditorEvent)
        ensures
            lookup(final(self).entries(), key) == Some(event),
            forall|k: KeyCombination|
                k != key ==> lookup(final(self).entries(), k) == lookup(old(self).entries(), k),
    {
        let ghost old_entries = self.entries();
        self.bindings.insert(0, (key, event));
        assert forall|k: KeyCombination| k != key implies lookup(self.entries(), k) == lookup(
            old_entries,
            k,
        ) by {
            assert(self.entries().drop_first() =~= old_entries);
        }
    }

    /// Removes every binding.
    pub fn clear(&mut self)
        ensures
            final(self).entries() == Seq::<(KeyCombination, LineEditorEvent)>::empty(),
    {
        self.bindings.clear();
    }

    /// The event bound to `key`, if any.
    pub fn find_binding(&self, key: KeyCombination) -> (r: Option<LineEditorEvent>)
        ensures
            r == lookup(self.entries(), key),
    {
        let mut i: usize = 0;
        assert(self.bindings@.subrange(0, self.bindings@.len() as int) =~= self.bindings@);
        while i < self.bindings.len()
            invariant
                i <= self.bindings@.len(),
                lookup(self.bindings@, key) == lookup(self.bindings@.subrange(
                    i as int,
                    self.bindings@.len() as int,
                ), key),
            decreases self.bindings@.len() - i,
        {
            let ghost rest = self.bindings@.subrange(i as int, self.bindings@.len() as int);
            assert(rest.drop_first() =~= self.bindings@.subrange(
                i + 1,
                self.bindings@.len() as int,
            ));
            if self.bindings[i].0 == key {
                return Some(self.bindings[i].1);
            }
            i = i + 1;
        }
        None
    }
}

/// Whether a chord types its character: a press with no modifier or shift alone.
pub open spec fn types_char(key: KeyCombination) -> bool {
    &&& key.code is Char
    &&& key.modifiers.bits == MODIFIER_NONE || key.modifiers.bits == MODIFIER_SHIFT
    &&& key.kind == KeyEventKind::Press
}

/// What `raw` becomes under `filter` and the bindings `b`.
pub open spec fn classification(
    raw: RawEvent,
    filter: InputFilter,
    b: Seq<(KeyCombination, LineEditorEvent)>,
) -> Option<LineEditorEvent> {
    match raw {
        RawEvent::Key(key) => if types_char(key) {
            if accepts(filter, key.code->Char_0) {
                Some(LineEditorEvent::Edit(EditCommand::InsertChar(key.code->Char_0)))
            } else {
                None
            }
        } else {
            lookup(b, key)
        },
        _ => None,
    }
}

/// Turns one raw event into the input the editor acts on.
pub fn classify(raw: &RawEvent, filter: &InputFilter, keybindings: &Keybindings) -> (r: Classified)
    ensures
        raw is Paste ==> r is Text && r->Text_0@ == raw->Paste_0@,
        !(raw is Paste) ==> match classification(*raw, *filter, keybindings.entries()) {
            Some(e) => r == Classified::Event(e),
            None => r is Nothing,
        },
{
    match raw {
        RawEvent::Key(key) => {
            if let KeyCode::Char(c) = key.code {
                if (key.modifiers.bits == MODIFIER_NONE || key.modifiers.bits == MODIFIER_SHIFT)
                    && key.kind == KeyEventKind::Press {
                    if filter_input(c, filter) {
                        return Classified::Event(
                            LineEditorEvent::Edit(EditCommand::InsertChar(c)),
                        );
                    }
                    return Classified::Nothing;
                }
            }
            match keybindings.find_binding(*key) {
                Some(e) => Classified::Event(e),
                None => Classified::Nothing,
            }
        },
        RawEvent::Paste(s) => Classified::Text(s.clone()),
        _ => Classified::Nothing,
    }
}

} // verus!
