use lineeditor::buffer::StyledBuffer;
use lineeditor::pairs::closing_pair;
use lineeditor::pairs::complete_pair;
use lineeditor::style::Color;
use lineeditor::style::Style;

fn buffer_of(s: &str) -> StyledBuffer {
    let mut b = StyledBuffer::new();
    b.insert_string(&s.to_string());
    b
}

fn red() -> Style {
    let mut s = Style::new();
    s.set_foreground_color(Color::Red);
    s
}

#[test]
fn insert_string_moves_cursor_past_text() {
    let mut b = buffer_of("ac");
    b.set_position(1);
    b.insert_string(&"bb".to_string());
    assert_eq!(b.contents(), "abbc");
    assert_eq!(b.position(), 3);
    assert_eq!(b.len(), 4);
}

#[test]
fn insert_char_at_cursor() {
    let mut b = buffer_of("ac");
    b.set_position(1);
    b.insert_char('b');
    assert_eq!(b.contents(), "abc");
    assert_eq!(b.position(), 2);
}

#[test]
fn insert_string_of_non_ascii_counts_characters() {
    let b = buffer_of("héllo");
    assert_eq!(b.len(), 5);
    assert_eq!(b.char_at(1), 'é');
}

#[test]
fn delete_range_puts_cursor_at_start() {
    let mut b = buffer_of("abcdef");
    b.delete_range(1, 4);
    assert_eq!(b.contents(), "aef");
    assert_eq!(b.position(), 1);
}

#[test]
fn delete_left_and_right() {
    let mut b = buffer_of("abc");
    b.set_position(1);
    b.delete_left_char();
    assert_eq!(b.contents(), "bc");
    assert_eq!(b.position(), 0);
    b.delete_left_char();
    assert_eq!(b.contents(), "bc");
    b.delete_right_char();
    assert_eq!(b.contents(), "c");
    assert_eq!(b.position(), 0);
    b.set_position(1);
    b.delete_right_char();
    assert_eq!(b.contents(), "c");
}

#[test]
fn sub_string_in_and_out_of_range() {
    let b = buffer_of("abcdef");
    assert_eq!(b.sub_string(1, 3), Some("bc".to_string()));
    assert_eq!(b.sub_string(2, 2), Some(String::new()));
    assert_eq!(b.sub_string(3, 2), None);
    assert_eq!(b.sub_string(0, 7), None);
}

#[test]
fn style_range_is_clamped_to_text() {
    let mut b = buffer_of("abc");
    b.style_range(1, 10, red());
    assert_eq!(b.style_at(0), Style::new());
    assert_eq!(b.style_at(1), red());
    assert_eq!(b.style_at(2), red());
    b.reset_styles();
    assert_eq!(b.style_at(2), Style::new());
}

#[test]
fn clear_empties_buffer() {
    let mut b = buffer_of("abc");
    b.clear();
    assert_eq!(b.len(), 0);
    assert_eq!(b.position(), 0);
    assert_eq!(b.contents(), "");
}

#[test]
fn closing_pairs() {
    assert_eq!(closing_pair('('), Some(')'));
    assert_eq!(closing_pair('['), Some(']'));
    assert_eq!(closing_pair('{'), Some('}'));
    assert_eq!(closing_pair('<'), Some('>'));
    assert_eq!(closing_pair('"'), Some('"'));
    assert_eq!(closing_pair('\''), Some('\''));
    assert_eq!(closing_pair('a'), None);
}

#[test]
fn complete_pair_inserts_closing_after_cursor() {
    let mut b = buffer_of("f(");
    complete_pair(&mut b);
    assert_eq!(b.contents(), "f()");
    assert_eq!(b.position(), 2);
    let mut c = buffer_of("fa");
    complete_pair(&mut c);
    assert_eq!(c.contents(), "fa");
}
