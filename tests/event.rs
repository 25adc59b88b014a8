use lineeditor::event::classify;
use lineeditor::event::filter_input;
use lineeditor::event::Classified;
use lineeditor::event::EditCommand;
use lineeditor::event::InputFilter;
use lineeditor::event::KeyCode;
use lineeditor::event::KeyCombination;
use lineeditor::event::KeyEventKind;
use lineeditor::event::KeyModifiers;
use lineeditor::event::Keybindings;
use lineeditor::event::LineEditorEvent;
use lineeditor::event::RawEvent;
use lineeditor::event::MODIFIER_CONTROL;
use lineeditor::event::MODIFIER_NONE;
use lineeditor::event::MODIFIER_SHIFT;

fn key(code: KeyCode, bits: u8) -> KeyCombination {
    KeyCombination { code, modifiers: KeyModifiers { bits }, kind: KeyEventKind::Press }
}

#[test]
fn filters_accept_their_characters() {
    assert!(filter_input('x', &InputFilter::Text));
    assert!(filter_input('7', &InputFilter::Numeric));
    assert!(!filter_input('x', &InputFilter::Numeric));
    assert!(filter_input('x', &InputFilter::Alphabetic));
    assert!(!filter_input('1', &InputFilter::Alphabetic));
    assert!(filter_input('1', &InputFilter::AlphaNumeric));
    assert!(!filter_input('-', &InputFilter::AlphaNumeric));
    assert!(filter_input('F', &InputFilter::HexDigit));
    assert!(!filter_input('g', &InputFilter::HexDigit));
}

#[test]
fn later_binding_replaces_earlier() {
    let mut kb = Keybindings::new();
    let k = key(KeyCode::Char('a'), MODIFIER_CONTROL);
    kb.add_binding(k, LineEditorEvent::SelectAll);
    assert_eq!(kb.find_binding(k), Some(LineEditorEvent::SelectAll));
    kb.add_binding(k, LineEditorEvent::CopySelected);
    assert_eq!(kb.find_binding(k), Some(LineEditorEvent::CopySelected));
    assert_eq!(kb.find_binding(key(KeyCode::Char('b'), MODIFIER_CONTROL)), None);
    kb.clear();
    assert_eq!(kb.find_binding(k), None);
}

#[test]
fn plain_char_press_becomes_insertion() {
    let kb = Keybindings::new();
    let raw = RawEvent::Key(key(KeyCode::Char('Q'), MODIFIER_SHIFT));
    match classify(&raw, &InputFilter::Text, &kb) {
        Classified::Event(e) => assert_eq!(e, LineEditorEvent::Edit(EditCommand::InsertChar('Q'))),
        _ => panic!("expected an insertion"),
    }
}

#[test]
fn filtered_char_is_dropped() {
    let kb = Keybindings::new();
    let raw = RawEvent::Key(key(KeyCode::Char('q'), MODIFIER_NONE));
    assert!(matches!(classify(&raw, &InputFilter::Numeric, &kb), Classified::Nothing));
}

#[test]
fn chord_goes_through_bindings() {
    let mut kb = Keybindings::new();
    let k = key(KeyCode::Char('c'), MODIFIER_CONTROL);
    kb.add_binding(k, LineEditorEvent::CopySelected);
    match classify(&RawEvent::Key(k), &InputFilter::Text, &kb) {
        Classified::Event(e) => assert_eq!(e, LineEditorEvent::CopySelected),
        _ => panic!("expected the bound event"),
    }
    let unbound = RawEvent::Key(key(KeyCode::Left, MODIFIER_NONE));
    assert!(matches!(classify(&unbound, &InputFilter::Text, &kb), Classified::Nothing));
}

#[test]
fn released_char_uses_bindings() {
    let kb = Keybindings::new();
    let k = KeyCombination {
        code: KeyCode::Char('a'),
        modifiers: KeyModifiers { bits: MODIFIER_NONE },
        kind: KeyEventKind::Release,
    };
    assert!(matches!(classify(&RawEvent::Key(k), &InputFilter::Text, &kb), Classified::Nothing));
}

#[test]
fn paste_becomes_text_even_under_filter() {
    let kb = Keybindings::new();
    let raw = RawEvent::Paste("ab c".to_string());
    match classify(&raw, &InputFilter::Numeric, &kb) {
        Classified::Text(s) => assert_eq!(s, "ab c"),
        _ => panic!("expected text"),
    }
    assert!(matches!(classify(&RawEvent::FocusGained, &InputFilter::Text, &kb), Classified::Nothing));
    assert!(matches!(classify(&RawEvent::Resize(80, 24), &InputFilter::Text, &kb), Classified::Nothing));
}
