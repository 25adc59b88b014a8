use vstd::prelude::*;

verus! {

/// A half-open range `[start, end)` of buffer offsets.
#[derive(Clone, Copy, Debug, PartialEq, Eq, Structural)]
pub struct Span {
    pub start: usize,
    pub end: usize,
}

/// A completion: the text that would replace `span`.
pub struct Suggestion {
    pub content: String,
    pub span: Span,
}

impl Suggestion {
    pub fn new(content: String, span: Span) -> (r: Suggestion)
        ensures
            r.content@ == content@,
            r.span == span,
    {
        Suggestion { content, span }
    }

    /// The text that replaces the span.
    pub fn literal(&self) -> (r: &String)
        ensures
            r@ == self.content@,
    {
        &self.content
    }
}

/// A list of suggestions with a focused entry, shown or hidden.
pub struct ListView {
    elements: Vec<Suggestion>,
    focus: usize,
    visible: bool,
}

/// The focus after moving one entry forward in a list of `n`, wrapping round.
pub open spec fn next_focus(focus: nat, n: nat) -> nat {
    if focus + 1 < n {
        focus + 1
    } else {
        0
    }
}

/// The focus after moving one entry back in a list of `n`, wrapping round.
pub open spec fn previous_focus(focus: nat, n: nat) -> nat {
    if focus > 0 {
        (focus - 1) as nat
    } else if n > 0 {
        (n - 1) as nat
    } else {
        0
    }
}

impl ListView {
    pub closed spec fn elements(&self) -> Seq<Suggestion> {
        self.elements@
    }

    pub closed spec fn focus(&self) -> nat {
        self.focus as nat
    }

    pub closed spec fn visible(&self) -> bool {
        self.visible
    }

    /// The focus is on an entry, where there is one; a shown list is not empty.
    pub open spec fn wf(&self) -> bool {
        &&& self.elements().len() == 0 ==> self.focus() == 0
        &&& self.elements().len() > 0 ==> self.focus() < self.elements().len()
        &&& self.visible() ==> self.elements().len() > 0
    }

    /// A hidden, empty list.
    pub fn new() -> (r: ListView)
        ensures
            r.wf(),
            r.elements().len() == 0,
            r.focus() == 0,
            !r.visible(),
    {
        ListView { elements: Vec::new(), focus: 0, visible: false }
    }

    pub fn is_visible(&self) -> (r: bool)
        ensures
            r == self.visible(),
    {
        self.visible
    }

    pub fn len(&self) -> (r: usize)
        ensures
            r == self.elements().len(),
    {
        self.elements.len()
    }

    /// Shows the list with `elements`, focused on the first.
    pub fn show(&mut self, elements: Vec<Suggestion>)
        requires
            elements@.len() > 0,
        ensures
            final(self).wf(),
            final(self).elements() == elements@,
            final(self).focus() == 0,
            final(self).visible(),
    {
        self.elements = elements;
        self.focus = 0;
        self.visible = true;
    }

    /// Hides the list and drops its entries.
    pub fn close(&mut self)
        ensures
            final(self).wf(),
            final(self).elements().len() == 0,
            final(self).focus() == 0,
            !final(self).visible(),
    {
        self.elements = Vec::new();
        self.focus = 0;
        self.visible = false;
    }

    pub fn focus_next(&mut self)
        requires
            old(self).wf(),
        ensures
            final(self).wf(),
            final(self).elements() == old(self).elements(),
            final(self).visible() == old(self).visible(),
            final(self).focus() == next_focus(old(self).focus(), old(self).elements().len()),
    {
        if self.elements.len() > 0 && self.focus < self.elements.len() - 1 {
            self.focus = self.focus + 1;
        } else {
            self.focus = 0;
        }
    }

    pub fn focus_previous(&mut self)
        requires
            old(self).wf(),
        ensures
            final(self).wf(),
            final(self).elements() == old(self).elements(),
            final(self).visible() == old(self).visible(),
            final(self).focus() == previous_focus(old(self).focus(), old(self).elements().len()),
    {
        if self.focus > 0 {
            self.focus = self.focus - 1;
        } else if self.elements.len() > 0 {
            self.focus = self.elements.len() - 1;
        }
    }

    /// The focused entry, where there is one.
    pub fn selected_element(&self) -> (r: Option<&Suggestion>)
        requires
            self.wf(),
        ensures
            self.elements().len() == 0 <==> r is None,
            r is Some ==> *r->0 == self.elements()[self.focus() as int],
    {
        if self.focus < self.elements.len() {
            Some(&self.elements[self.focus])
        } else {
            None
        }
    }

    /// The entry at `i`.
    pub fn element(&self, i: usize) -> (r: &Suggestion)
        requires
            i < self.elements().len(),
        ensures
            *r == self.elements()[i as int],
    {
        &self.elements[i]
    }

    pub fn focus_index(&self) -> (r: usize)
        ensures
            r == self.focus(),
    {
        self.focus
    }
}

/// The row the editor starts at so that an overlay of `height` rows below `row` fits in a
/// terminal of `max_row` rows: `None` where it already fits, else the row that leaves the
/// overlay and two more rows on screen, or 0 where the terminal is too short for that.
pub fn overlay_start_row(row: u16, height: usize, max_row: u16) -> (r: Option<u16>)
    ensures
        row + height <= max_row <==> r is None,
        r is Some ==> r->0 == (if height + 2 <= max_row {
            max_row - 2 - height
        } else {
            0
        }),
{
    if height <= max_row as usize && row as usize + height <= max_row as usize {
        None
    } else if max_row >= 2 && height <= (max_row - 2) as usize {
        Some(max_row - 2 - height as u16)
    } else {
        Some(0)
    }
}

} // verus!
