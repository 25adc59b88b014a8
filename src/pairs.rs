use vstd::prelude::*;

use crate::buffer::StyledBuffer;

verus! {

/// The closing character paired with `c`, if `c` opens a pair.
pub open spec fn closing_of(c: char) -> Option<char> {
    if c == '(' {
        Some(')')
    } else if c == '[' {
        Some(']')
    } else if c == '{' {
        Some('}')
    } else if c == '<' {
        Some('>')
    } else if c == '"' {
        Some('"')
    } else if c == '\'' {
        Some('\'')
    } else {
        None
    }
}

/// The closing character paired with `c`, if `c` opens a pair.
pub fn closing_pair(c: char) -> (r: Option<char>)
    ensures
        r == closing_of(c),
{
    if c == '(' {
        Some(')')
    } else if c == '[' {
        Some(']')
    } else if c == '{' {
        Some('}')
    } else if c == '<' {
        Some('>')
    } else if c == '"' {
        Some('"')
    } else if c == '\'' {
        Some('\'')
    } else {
        None
    }
}

/// Whether the character left of the cursor opens a pair, and then its closing character.
pub open spec fn pending_close(t: Seq<char>, cursor: nat) -> Option<char> {
    if cursor > 0 && cursor <= t.len() {
        closing_of(t[cursor - 1])
    } else {
        None
    }
}

/// The closing character to insert right of the cursor: the one paired with the character
/// left of the cursor, where that character opens a pair.
pub fn pending_pair(buffer: &StyledBuffer) -> (r: Option<char>)
    requires
        buffer.wf(),
    ensures
        r == pending_close(buffer.text(), buffer.cursor()),
{
    let p = buffer.position();
    if p == 0 {
        None
    } else {
        closing_pair(buffer.char_at(p - 1))
    }
}

/// Inserts the closing character right of the cursor when the character left of it opens a
/// pair; the cursor stays between the two.
pub fn complete_pair(buffer: &mut StyledBuffer)
    requires
        old(buffer).wf(),
        old(buffer).text().len() < usize::MAX,
    ensures
        final(buffer).wf(),
        final(buffer).cursor() == old(buffer).cursor(),
        final(buffer).text() == match pending_close(old(buffer).text(), old(buffer).cursor()) {
            Some(close) => old(buffer).text().insert(old(buffer).cursor() as int, close),
            None => old(buffer).text(),
        },
{
    let p = buffer.position();
    match pending_pair(buffer) {
        Some(close) => {
            buffer.insert_char(close);
            buffer.set_position(p);
        },
        None => {},
    }
}

} // verus!
