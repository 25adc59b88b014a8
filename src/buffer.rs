use vstd::prelude::*;

use crate::style::plain_style;
use crate::style::Style;
use crate::text::chars_of;
use crate::text::replaced;
use crate::text::string_of;

verus! {

/// `styling` with every item in `[from, to)` set to `style`.
pub open spec fn restyled(styling: Seq<Style>, from: int, to: int, style: Style) -> Seq<Style> {
    Seq::new(styling.len(), |i: int| if from <= i < to { style } else { styling[i] })
}

/// A line of text with one style per character and a cursor.
pub struct StyledBuffer {
    buffer: Vec<char>,
    styles: Vec<Style>,
    position: usize,
}

impl StyledBuffer {
    /// The characters of the line.
    pub closed spec fn text(&self) -> Seq<char> {
        self.buffer@
    }

    /// The style of each character.
    pub closed spec fn styling(&self) -> Seq<Style> {
        self.styles@
    }

    /// The cursor offset.
    pub closed spec fn cursor(&self) -> nat {
        self.position as nat
    }

    /// The cursor lies within the text and each character has one style.
    pub open spec fn wf(&self) -> bool {
        &&& self.cursor() <= self.text().len()
        &&& self.styling().len() == self.text().len()
    }

    /// An empty buffer with the cursor at 0.
    pub fn new() -> (r: StyledBuffer)
        ensures
            r.wf(),
            r.text() == Seq::<char>::empty(),
            r.cursor() == 0,
    {
        StyledBuffer { buffer: Vec::new(), styles: Vec::new(), position: 0 }
    }

    pub fn len(&self) -> (r: usize)
        ensures
            r == self.text().len(),
    {
        self.buffer.len()
    }

    pub fn position(&self) -> (r: usize)
        ensures
            r == self.cursor(),
    {
        self.position
    }

    pub fn set_position(&mut self, n: usize)
        requires
            old(self).wf(),
            n <= old(self).text().len(),
        ensures
            final(self).wf(),
            final(self).text() == old(self).text(),
            final(self).styling() == old(self).styling(),
            final(self).cursor() == n,
    {
        self.position = n;
    }

    /// Inserts `c` with the plain style at the cursor, which moves past it.
    pub fn insert_char(&mut self, c: char)
        requires
            old(self).wf(),
            old(self).text().len() < usize::MAX,
        ensures
            final(self).wf(),
            final(self).text() == old(self).text().insert(old(self).cursor() as int, c),
            final(self).styling() == old(self).styling().insert(
                old(self).cursor() as int,
                plain_style(),
            ),
            final(self).cursor() == old(self).cursor() + 1,
    {
        self.buffer.insert(self.position, c);
        self.styles.insert(self.position, Style::new());
        self.position = self.position + 1;
    }

    /// Inserts the characters of `s` with the plain style at the cursor, which moves past them.
    pub fn insert_chars(&mut self, s: &Vec<char>)
        requires
            old(self).wf(),
            old(self).text().len() + s@.len() <= usize::MAX,
        ensures
            final(self).wf(),
            final(self).text() == replaced(
                old(self).text(),
                old(self).cursor() as int,
                old(self).cursor() as int,
                s@,
            ),
            final(self).styling() == replaced(
                old(self).styling(),
                old(self).cursor() as int,
                old(self).cursor() as int,
                Seq::new(s@.len(), |i: int| plain_style()),
            ),
            final(self).cursor() == old(self).cursor() + s@.len(),
    {
        let ghost t0 = self.text();
        let ghost st0 = self.styling();
        let ghost p = self.cursor() as int;
        let mut k: usize = 0;
        while k < s.len()
            invariant
                0 <= p <= t0.len(),
                st0.len() == t0.len(),
                t0.len() + s@.len() <= usize::MAX,
                k <= s@.len(),
                self.wf(),
                self.cursor() == p + k,
                self.text() == t0.subrange(0, p) + s@.subrange(0, k as int) + t0.subrange(
                    p,
                    t0.len() as int,
                ),
                self.styling() == st0.subrange(0, p) + Seq::new(k as nat, |i: int| plain_style())
                    + st0.subrange(p, st0.len() as int),
            decreases s@.len() - k,
        {
            let ghost before = self.text();
            let ghost sbefore = self.styling();
            self.insert_char(s[k]);
            k = k + 1;
            assert(self.text() =~= t0.subrange(0, p) + s@.subrange(0, k as int) + t0.subrange(
                p,
                t0.len() as int,
            ));
            assert(self.styling() =~= st0.subrange(0, p) + Seq::new(
                k as nat,
                |i: int| plain_style(),
            ) + st0.subrange(p, st0.len() as int));
        }
        assert(s@.subrange(0, s@.len() as int) =~= s@);
    }

    /// Inserts the characters of `s` at the cursor, which moves past them.
    pub fn insert_string(&mut self, s: &String)
        requires
            old(self).wf(),
            old(self).text().len() + s@.len() <= usize::MAX,
        ensures
            final(self).wf(),
            final(self).text() == replaced(
                old(self).text(),
                old(self).cursor() as int,
                old(self).cursor() as int,
                s@,
            ),
            final(self).styling() == replaced(
                old(self).styling(),
                old(self).cursor() as int,
                old(self).cursor() as int,
                Seq::new(s@.len(), |i: int| plain_style()),
            ),
            final(self).cursor() == old(self).cursor() + s@.len(),
    {
        let chars = chars_of(s);
        self.insert_chars(&chars);
    }

    /// Removes the characters in `[from, to)` and puts the cursor at `from`.
    pub fn delete_range(&mut self, from: usize, to: usize)
        requires
            old(self).wf(),
            from <= to <= old(self).text().len(),
        ensures
            final(self).wf(),
            final(self).text() == replaced(old(self).text(), from as int, to as int, seq![]),
            final(self).styling() == replaced(
                old(self).styling(),
                from as int,
                to as int,
                seq![],
            ),
            final(self).cursor() == from,
    {
        let ghost t0 = self.text();
        let ghost st0 = self.styling();
        let mut k: usize = from;
        while k < to
            invariant
                from <= k <= to <= t0.len(),
                st0.len() == t0.len(),
                self.buffer@ == t0.subrange(0, from as int) + t0.subrange(k as int, t0.len() as int),
                self.styles@ == st0.subrange(0, from as int) + st0.subrange(
                    k as int,
                    st0.len() as int,
                ),
                self.position <= t0.len(),
            decreases to - k,
        {
            self.buffer.remove(from);
            self.styles.remove(from);
            k = k + 1;
            assert(self.buffer@ =~= t0.subrange(0, from as int) + t0.subrange(
                k as int,
                t0.len() as int,
            ));
            assert(self.styles@ =~= st0.subrange(0, from as int) + st0.subrange(
                k as int,
                st0.len() as int,
            ));
        }
        self.position = from;
        assert(self.buffer@ =~= replaced(t0, from as int, to as int, seq![]));
        assert(self.styles@ =~= replaced(st0, from as int, to as int, seq![]));
    }

    /// Removes the character left of the cursor, if any.
    pub fn delete_left_char(&mut self)
        requires
            old(self).wf(),
        ensures
            final(self).wf(),
            old(self).cursor() == 0 ==> *final(self) == *old(self),
            old(self).cursor() > 0 ==> {
                &&& final(self).text() == old(self).text().remove(old(self).cursor() - 1)
                &&& final(self).styling() == old(self).styling().remove(old(self).cursor() - 1)
                &&& final(self).cursor() == old(self).cursor() - 1
            },
    {
        if self.position > 0 {
            self.buffer.remove(self.position - 1);
            self.styles.remove(self.position - 1);
            self.position = self.position - 1;
        }
    }

    /// Removes the character right of the cursor, if any.
    pub fn delete_right_char(&mut self)
        requires
            old(self).wf(),
        ensures
            final(self).wf(),
            old(self).cursor() == old(self).text().len() ==> *final(self) == *old(self),
            old(self).cursor() < old(self).text().len() ==> {
                &&& final(self).text() == old(self).text().remove(old(self).cursor() as int)
                &&& final(self).styling() == old(self).styling().remove(old(self).cursor() as int)
                &&& final(self).cursor() == old(self).cursor()
            },
    {
        if self.position < self.buffer.len() {
            self.buffer.remove(self.position);
            self.styles.remove(self.position);
        }
    }

    /// The characters in `[from, to)`, or `None` where that range is not within the text.
    pub fn sub_string(&self, from: usize, to: usize) -> (r: Option<String>)
        ensures
            r is Some <==> from <= to <= self.text().len(),
            r is Some ==> r->0@ == self.text().subrange(from as int, to as int),
    {
        if from <= to && to <= self.buffer.len() {
            Some(string_of(&self.buffer, from, to))
        } else {
            None
        }
    }

    /// Gives `style` to each character in `[from, to)` that the text has.
    pub fn style_range(&mut self, from: usize, to: usize, style: Style)
        requires
            old(self).wf(),
        ensures
            final(self).wf(),
            final(self).text() == old(self).text(),
            final(self).cursor() == old(self).cursor(),
            final(self).styling() == restyled(old(self).styling(), from as int, to as int, style),
    {
        let ghost st0 = self.styling();
        let end = if to < self.styles.len() { to } else { self.styles.len() };
        let mut i: usize = from;
        while i < end
            invariant
                end <= st0.len(),
                end == to || end == st0.len(),
                end <= to,
                from <= i,
                i <= end || i == from,
                self.wf(),
                self.buffer@ == old(self).buffer@,
                self.position == old(self).position,
                self.styles@.len() == st0.len(),
                forall|j: int|
                    0 <= j < st0.len() ==> #[trigger] self.styles@[j] == if from <= j < i {
                        style
                    } else {
                        st0[j]
                    },
            decreases end - i,
        {
            self.styles.set(i, style);
            i = i + 1;
        }
        assert(self.styles@ =~= restyled(st0, from as int, to as int, style));
    }

    /// Gives every character the plain style.
    pub fn reset_styles(&mut self)
        requires
            old(self).wf(),
        ensures
            final(self).wf(),
            final(self).text() == old(self).text(),
            final(self).cursor() == old(self).cursor(),
            final(self).styling() == Seq::new(old(self).text().len(), |i: int| plain_style()),
    {
        let n = self.styles.len();
        self.style_range(0, n, Style::new());
        assert(self.styling() =~= Seq::new(self.text().len(), |i: int| plain_style()));
    }

    /// Empties the buffer.
    pub fn clear(&mut self)
        ensures
            final(self).wf(),
            final(self).text() == Seq::<char>::empty(),
            final(self).cursor() == 0,
    {
        self.buffer.clear();
        self.styles.clear();
        self.position = 0;
    }

    /// The text as a string.
    pub fn contents(&self) -> (r: String)
        ensures
            r@ == self.text(),
    {
        let r = string_of(&self.buffer, 0, self.buffer.len());
        assert(self.buffer@.subrange(0, self.buffer@.len() as int) =~= self.buffer@);
        r
    }

    /// The character at `i`.
    pub fn char_at(&self, i: usize) -> (r: char)
        requires
            i < self.text().len(),
        ensures
            r == self.text()[i as int],
    {
        self.buffer[i]
    }

    /// The style of the character at `i`.
    pub fn style_at(&self, i: usize) -> (r: Style)
        requires
            self.wf(),
            i < self.text().len(),
        ensures
            r == self.styling()[i as int],
    {
        self.styles[i]
    }
}

} // verus!
