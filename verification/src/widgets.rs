//! Plain widget state for the surrounding text interface: visibility,
//! check and focus bits, a text editing buffer, and a suggestion
//! selection. No rendering happens here.
use vstd::prelude::*;

verus! {

/// Visibility state for a floating help window.
#[derive(Debug, Clone)]
pub struct TooltipState {
    pub visible: bool,
}

impl TooltipState {
    pub fn new() -> (r: Self)
        ensures
            !r.visible,
    {
        TooltipState { visible: false }
    }

    pub fn show(&mut self)
        ensures
            final(self).visible,
    {
        self.visible = true;
    }

    pub fn dismiss(&mut self)
        ensures
            !final(self).visible,
    {
        self.visible = false;
    }

    pub fn toggle(&mut self)
        ensures
            final(self).visible == !old(self).visible,
    {
        self.visible = !self.visible;
    }

    pub fn is_visible(&self) -> (r: bool)
        ensures
            r == self.visible,
    {
        self.visible
    }

    pub fn set_visible(&mut self, visible: bool)
        ensures
            final(self).visible == visible,
    {
        self.visible = visible;
    }
}

/// Where a tooltip stands relative to its reference area.
#[derive(Debug, Clone, Copy, PartialEq, Eq)]
pub enum TooltipPosition {
    Above,
    Below,
    Left,
    Right,
    AboveLeft,
    AboveRight,
    BelowLeft,
    BelowRight,
    Cursor(u16, u16),
}

/// Check and focus state for a checkbox.
#[derive(Debug, Clone)]
pub struct CheckboxState {
    pub checked: bool,
    pub focused: bool,
}

impl CheckboxState {
    pub fn new(checked: bool) -> (r: Self)
        ensures
            r.checked == checked,
            !r.focused,
    {
        CheckboxState { checked, focused: false }
    }

    pub fn toggle(&mut self)
        ensures
            final(self).checked == !old(self).checked,
            final(self).focused == old(self).focused,
    {
        self.checked = !self.checked;
    }

    pub fn set(&mut self, checked: bool)
        ensures
            final(self).checked == checked,
            final(self).focused == old(self).focused,
    {
        self.checked = checked;
    }

    pub fn is_checked(&self) -> (r: bool)
        ensures
            r == self.checked,
    {
        self.checked
    }

    pub fn set_focused(&mut self, focused: bool)
        ensures
            final(self).focused == focused,
            final(self).checked == old(self).checked,
    {
        self.focused = focused;
    }

    pub fn focus(&mut self)
        ensures
            final(self).focused,
            final(self).checked == old(self).checked,
    {
        self.focused = true;
    }

    pub fn unfocus(&mut self)
        ensures
            !final(self).focused,
            final(self).checked == old(self).checked,
    {
        self.focused = false;
    }

    pub fn is_focused(&self) -> (r: bool)
        ensures
            r == self.focused,
    {
        self.focused
    }
}

/// What handling one input event produced.
#[derive(Debug)]
pub enum EventResult<T> {
    Consumed,
    Ignored,
    Submit(T),
    Cancel,
}

/// A text editing buffer with a cursor, counted in characters.
#[derive(Debug, Clone)]
pub struct InputBuffer {
    pub content: Vec<char>,
    pub cursor: usize,
}

impl InputBuffer {
    /// Whether the cursor stands inside the content.
    pub open spec fn wf(&self) -> bool {
        self.cursor <= self.content@.len()
    }

    pub fn new() -> (r: Self)
        ensures
            r.wf(),
            r.content@ == Seq::<char>::empty(),
            r.cursor == 0,
    {
        InputBuffer { content: Vec::new(), cursor: 0 }
    }

    /// Inserts a character at the cursor and moves past it.
    pub fn insert_char(&mut self, c: char)
        requires
            old(self).wf(),
        ensures
            final(self).wf(),
            final(self).content@ == old(self).content@.take(old(self).cursor as int).push(c) + old(
                self,
            ).content@.skip(old(self).cursor as int),
            final(self).cursor == old(self).cursor + 1,
    {
        self.content.insert(self.cursor, c);
        let n = self.content.len();
        proof {
            assert(self.cursor < n);
        }
        self.cursor = self.cursor + 1;
        proof {
            assert(self.content@ =~= old(self).content@.take(old(self).cursor as int).push(c)
                + old(self).content@.skip(old(self).cursor as int));
        }
    }

    /// Removes the character under the cursor, if any.
    pub fn delete_char(&mut self)
        requires
            old(self).wf(),
        ensures
            final(self).wf(),
            final(self).cursor == old(self).cursor,
            final(self).content@ == if old(self).cursor < old(self).content@.len() {
                old(self).content@.take(old(self).cursor as int) + old(self).content@.skip(
                    old(self).cursor + 1,
                )
            } else {
                old(self).content@
            },
    {
        if self.cursor < self.content.len() {
            self.content.remove(self.cursor);
            proof {
                assert(self.content@ =~= old(self).content@.take(old(self).cursor as int) + old(
                    self,
                ).content@.skip(old(self).cursor + 1));
            }
        }
    }

    /// Removes the character before the cursor, if any.
    pub fn backspace(&mut self)
        requires
            old(self).wf(),
        ensures
            final(self).wf(),
            final(self).cursor == if old(self).cursor > 0 {
                (old(self).cursor - 1) as usize
            } else {
                0usize
            },
            final(self).content@ == if old(self).cursor > 0 {
                old(self).content@.take(old(self).cursor - 1) + old(self).content@.skip(
                    old(self).cursor as int,
                )
            } else {
                old(self).content@
            },
    {
        if self.cursor > 0 {
            self.cursor = self.cursor - 1;
            self.content.remove(self.cursor);
            proof {
                assert(self.content@ =~= old(self).content@.take(old(self).cursor - 1) + old(
                    self,
                ).content@.skip(old(self).cursor as int));
            }
        }
    }

    pub fn move_cursor_left(&mut self)
        requires
            old(self).wf(),
        ensures
            final(self).wf(),
            final(self).content@ == old(self).content@,
            final(self).cursor == if old(self).cursor > 0 {
                (old(self).cursor - 1) as usize
            } else {
                0usize
            },
    {
        if self.cursor > 0 {
            self.cursor = self.cursor - 1;
        }
    }

    pub fn move_cursor_right(&mut self)
        requires
            old(self).wf(),
        ensures
            final(self).wf(),
            final(self).content@ == old(self).content@,
            final(self).cursor == if old(self).cursor < old(self).content@.len() {
                (old(self).cursor + 1) as usize
            } else {
                old(self).cursor
            },
    {
        if self.cursor < self.content.len() {
            self.cursor = self.cursor + 1;
        }
    }

    pub fn move_cursor_start(&mut self)
        ensures
            final(self).wf(),
            final(self).content@ == old(self).content@,
            final(self).cursor == 0,
    {
        self.cursor = 0;
    }

    pub fn move_cursor_end(&mut self)
        ensures
            final(self).wf(),
            final(self).content@ == old(self).content@,
            final(self).cursor == old(self).content@.len(),
    {
        self.cursor = self.content.len();
    }

    pub fn clear(&mut self)
        ensures
            final(self).wf(),
            final(self).content@ == Seq::<char>::empty(),
            final(self).cursor == 0,
    {
        self.content = Vec::new();
        self.cursor = 0;
        proof {
            assert(self.content@ =~= Seq::<char>::empty());
        }
    }

    /// The buffer's text.
    pub fn content(&self) -> (r: String)
        ensures
            r@ == self.content@,
    {
        crate::chars::string_of_chars(&self.content)
    }

    /// Replaces the text and puts the cursor at its end.
    pub fn set_content(&mut self, content: String)
        ensures
            final(self).wf(),
            final(self).content@ == content@,
            final(self).cursor == content@.len(),
    {
        let v = crate::chars::chars_of_str(content.as_str());
        self.cursor = v.len();
        self.content = v;
    }

    /// The cursor position, in characters.
    pub fn cursor_position(&self) -> (r: usize)
        ensures
            r == self.cursor,
    {
        self.cursor
    }
}

/// A list of path suggestions and the selected one.
#[derive(Debug, Clone)]
pub struct PathCompleter {
    pub suggestions: Vec<String>,
    pub selected_idx: usize,
}

impl PathCompleter {
    pub fn new() -> (r: Self)
        ensures
            r.suggestions@.len() == 0,
            r.selected_idx == 0,
    {
        PathCompleter { suggestions: Vec::new(), selected_idx: 0 }
    }

    /// Moves the selection forward, wrapping at the end.
    pub fn select_next(&mut self)
        requires
            old(self).selected_idx < old(self).suggestions@.len() || old(
                self,
            ).suggestions@.len() == 0,
        ensures
            final(self).suggestions == old(self).suggestions,
            final(self).selected_idx == if old(self).suggestions@.len() == 0 {
                old(self).selected_idx
            } else {
                ((old(self).selected_idx + 1) as int % old(self).suggestions@.len() as int) as usize
            },
    {
        if self.suggestions.len() > 0 {
            self.selected_idx = (self.selected_idx + 1) % self.suggestions.len();
        }
    }

    /// Moves the selection backward, wrapping at the start.
    pub fn select_prev(&mut self)
        requires
            old(self).selected_idx < old(self).suggestions@.len() || old(
                self,
            ).suggestions@.len() == 0,
        ensures
            final(self).suggestions == old(self).suggestions,
            final(self).selected_idx == if old(self).suggestions@.len() == 0 {
                old(self).selected_idx
            } else if old(self).selected_idx == 0 {
                (old(self).suggestions@.len() - 1) as usize
            } else {
                (old(self).selected_idx - 1) as usize
            },
    {
        if self.suggestions.len() > 0 {
            if self.selected_idx == 0 {
                self.selected_idx = self.suggestions.len() - 1;
            } else {
                self.selected_idx = self.selected_idx - 1;
            }
        }
    }

    /// The selected suggestion, if any.
    pub fn selected(&self) -> (r: Option<&String>)
        ensures
            match r {
                Some(s) => self.selected_idx < self.suggestions@.len() && s
                    == &self.suggestions[self.selected_idx as int],
                None => self.selected_idx >= self.suggestions@.len(),
            },
    {
        if self.selected_idx < self.suggestions.len() {
            Some(&self.suggestions[self.selected_idx])
        } else {
            None
        }
    }

    pub fn has_suggestions(&self) -> (r: bool)
        ensures
            r == (self.suggestions@.len() > 0),
    {
        self.suggestions.len() > 0
    }
}

} // verus!
