//! The popups drawn over the branch list, and where they go on screen.
use vstd::prelude::*;
use crate::foreign::{center_horizontally, center_vertically, centered_columns, centered_rows};

verus! {

/// A message with an OK button.
#[derive(Debug)]
pub struct MessagePopup {
    pub title: String,
    pub content: String,
}

/// A question with Yes and No buttons.
#[derive(Debug)]
pub struct ConfirmPopup {
    pub title: String,
    pub content: String,
}

/// A rectangle of terminal cells.
#[derive(Debug, Clone, Copy, PartialEq, Eq, Structural)]
pub struct Area {
    pub x: u16,
    pub y: u16,
    pub width: u16,
    pub height: u16,
}

/// The popup area inside `area`: the rows that ratatui's layout centers at
/// `percent_y` percent of the height, then the columns of those that it
/// centers at `percent_x` percent of the width.
pub open spec fn popup_area_of(area: Area, percent_x: u16, percent_y: u16) -> Area {
    let (x1, y1, w1, h1) = centered_rows(area.x, area.y, area.width, area.height, percent_y);
    let (x2, y2, w2, h2) = centered_columns(x1, y1, w1, h1, percent_x);
    Area { x: x2, y: y2, width: w2, height: h2 }
}

/// Where a popup of `percent_x` by `percent_y` percent of `area` goes.
pub fn popup_area(area: Area, percent_x: u16, percent_y: u16) -> (popup: Area)
    ensures
        popup == popup_area_of(area, percent_x, percent_y),
{
    let rows = center_vertically(area, percent_y);
    center_horizontally(rows, percent_x)
}

} // verus!
