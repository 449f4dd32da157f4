//! The rendered detail of the selected record: its styled lines plus a
//! vertical scroll position that saturates at the top and is clamped by the
//! content only when drawn.

use vstd::prelude::*;
use crate::styled::StyledLine;

verus! {

/// The detail pane's content and scroll state.
pub struct SelectedLogMessage {
    pub message: Vec<StyledLine>,
    pub vertical_position: u16,
}

impl SelectedLogMessage {
    /// A fresh rendering starts scrolled to the top.
    pub fn from_lines(lines: Vec<StyledLine>) -> (r: SelectedLogMessage)
        ensures
            r.message == lines,
            r.vertical_position == 0,
    {
        SelectedLogMessage { message: lines, vertical_position: 0 }
    }

    /// Scroll one line up, saturating at the top.
    pub fn prev(&mut self)
        ensures
            final(self).message == old(self).message,
            final(self).vertical_position == (if old(self).vertical_position > 0 {
                (old(self).vertical_position - 1) as u16
            } else {
                0u16
            }),
    {
        if self.vertical_position > 0 {
            self.vertical_position = self.vertical_position - 1;
        }
    }

    /// Scroll one line down; the drawn offset is clamped by the content, so
    /// the position itself only saturates at the type's limit.
    pub fn next(&mut self)
        ensures
            final(self).message == old(self).message,
            final(self).vertical_position == (if old(self).vertical_position < u16::MAX {
                (old(self).vertical_position + 1) as u16
            } else {
                u16::MAX
            }),
    {
        if self.vertical_position < u16::MAX {
            self.vertical_position = self.vertical_position + 1;
        }
    }

    /// The (row, column) scroll of the detail pane; only the row ever moves.
    pub fn scroll_position(&self) -> (r: (u16, u16))
        ensures
            r.0 == self.vertical_position,
            r.1 == 0u16,
    {
        (self.vertical_position, 0)
    }
}

} // verus!
