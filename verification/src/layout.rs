//! The areas of the screen: the search box on top, the list on the left, the
//! preview on the right.
//!
//! How an area is divided is left to `ratatui`; the library keeps the areas
//! that come back and answers questions about them.

use vstd::prelude::*;
use ratatui::layout::{Constraint as Rule, Direction, Layout, Rect as Area};

verus! {

/// A rectangle of screen cells.
#[derive(Clone, Copy, Debug, PartialEq, Eq, Structural)]
pub struct Rect {
    pub x: u16,
    pub y: u16,
    pub width: u16,
    pub height: u16,
}

impl Rect {
    /// The rectangle without cells, in the corner of the screen.
    pub open spec fn empty() -> Rect {
        Rect { x: 0, y: 0, width: 0, height: 0 }
    }

    /// The rectangle at column `x` and row `y`, `width` wide and `height` high.
    pub fn new(x: u16, y: u16, width: u16, height: u16) -> (rect: Rect)
        ensures
            rect == (Rect { x, y, width, height }),
    {
        Rect { x, y, width, height }
    }

    /// Whether the cell at column `x` and row `y` lies in the rectangle.
    pub open spec fn holds(self, x: u16, y: u16) -> bool {
        self.x <= x < self.x + self.width && self.y <= y < self.y + self.height
    }

    /// Whether the cell at column `x` and row `y` lies in the rectangle.
    pub fn contains(&self, x: u16, y: u16) -> (r: bool)
        ensures
            r == self.holds(x, y),
    {
        x >= self.x && (x as u32) < (self.x as u32) + (self.width as u32) && y >= self.y && (
        y as u32) < (self.y as u32) + (self.height as u32)
    }
}

/// Whether `part` spans `area` across the direction of a split: a part of a
/// split into rows has the column and the width of the area, a part of a split
/// into columns its row and its height, the width and the height cut so that
/// the area ends within the columns and rows that a `u16` counts.
pub open spec fn spans(part: Rect, area: Rect, vertical: bool) -> bool {
    if vertical {
        part.x == area.x && part.width == if area.x + area.width > u16::MAX {
            u16::MAX - area.x
        } else {
            area.width as int
        }
    } else {
        part.y == area.y && part.height == if area.y + area.height > u16::MAX {
            u16::MAX - area.y
        } else {
            area.height as int
        }
    }
}

/// How much of an area a part of it is to take.
#[derive(Clone, Copy, Debug, PartialEq, Eq, Structural)]
pub enum Constraint {
    /// So many cells.
    Length(u16),
    /// So many cells at least.
    Min(u16),
    /// So many hundredths of the area.
    Percentage(u16),
}

/// Calls `ratatui::layout::Layout::split` on `area`, one part above the other
/// where `vertical`, else side by side, under the constraints `first` and
/// `second`, with no margin and no spacing, and gives the two areas that the
/// layout solver finds. The area is handed over through `Rect::new`, which
/// cuts a width or a height that would reach beyond the last column or row
/// that a `u16` counts. Where the parts begin and how far they reach along
/// the direction of the split is the solver's choice, of which nothing is
/// promised: it walks hash maps, so where the constraints leave a choice two
/// runs may choose differently. Across that direction each part spans the
/// area: parts one above the other have its column and its width, parts side
/// by side its row and its height.
#[verifier::external_body]
pub(crate) fn split_area(vertical: bool, first: Constraint, second: Constraint, area: Rect) -> (parts:
    (Rect, Rect))
    ensures
        spans(parts.0, area, vertical),
        spans(parts.1, area, vertical),
{
    let to = |c: Constraint| match c {
        Constraint::Length(n) => Rule::Length(n),
        Constraint::Min(n) => Rule::Min(n),
        Constraint::Percentage(n) => Rule::Percentage(n),
    };
    let direction = if vertical { Direction::Vertical } else { Direction::Horizontal };
    let whole = Area::new(area.x, area.y, area.width, area.height);
    let parts = Layout::new(direction, [to(first), to(second)]).split(whole);
    let back = |r: Area| Rect { x: r.x, y: r.y, width: r.width, height: r.height };
    (back(parts[0]), back(parts[1]))
}

/// The areas of the screen.
#[derive(Clone, Copy, Debug)]
pub struct LayoutManager {
    /// The whole terminal.
    pub terminal_area: Rect,
    /// The search box, on top.
    pub search_area: Rect,
    /// What lies under the search box.
    pub main_area: Rect,
    /// The list, on the left.
    pub left_area: Rect,
    /// The preview or the help, on the right.
    pub right_area: Rect,
    /// Whether the areas were laid out.
    pub initialized: bool,
}

/// The height of the search box.
pub const SEARCH_BOX_HEIGHT: u16 = 3;

/// The rows of `area` that are left for content inside a border.
pub open spec fn content_height(area: Rect) -> nat {
    if area.height >= 2 {
        (area.height - 2) as nat
    } else {
        0
    }
}

/// The columns of `area` that are left for content inside a border.
pub open spec fn content_width(area: Rect) -> nat {
    if area.width >= 2 {
        (area.width - 2) as nat
    } else {
        0
    }
}

impl Default for LayoutManager {
    fn default() -> (layout: Self)
        ensures
            !layout.is_set(),
            layout.left_area == Rect::empty(),
            layout.right_area == Rect::empty(),
    {
        LayoutManager::new()
    }
}

impl LayoutManager {
    /// The layout before the size of the terminal is known: all areas empty.
    pub fn new() -> (layout: LayoutManager)
        ensures
            !layout.is_set(),
            layout.terminal_area == Rect::empty(),
            layout.search_area == Rect::empty(),
            layout.main_area == Rect::empty(),
            layout.left_area == Rect::empty(),
            layout.right_area == Rect::empty(),
    {
        let empty = Rect { x: 0, y: 0, width: 0, height: 0 };
        LayoutManager {
            terminal_area: empty,
            search_area: empty,
            main_area: empty,
            left_area: empty,
            right_area: empty,
            initialized: false,
        }
    }

    /// Whether the areas were laid out.
    pub open spec fn is_set(self) -> bool {
        self.initialized
    }

    /// Lays the areas out for a terminal of size `terminal_size`: the search
    /// box is asked to be three rows high, the rest to be halved between list
    /// and preview. The areas are those that the layout solver gives: search
    /// box and main area span the terminal from side to side, list and
    /// preview span the main area from top to bottom.
    pub fn update_layout(&mut self, terminal_size: Rect)
        ensures
            final(self).terminal_area == terminal_size,
            final(self).is_set(),
            final(self).spans_terminal(),
    {
        self.update_layout_with_constraints(
            terminal_size,
            Constraint::Percentage(50),
            Constraint::Percentage(50),
        );
    }

    /// Search box and main area span the terminal from side to side, list
    /// and preview span the main area from top to bottom.
    pub open spec fn spans_terminal(self) -> bool {
        &&& spans(self.search_area, self.terminal_area, true)
        &&& spans(self.main_area, self.terminal_area, true)
        &&& spans(self.left_area, self.main_area, false)
        &&& spans(self.right_area, self.main_area, false)
    }

    /// Lays the areas out for a terminal of size `terminal_size`, with the
    /// list and the preview under the constraints given. The areas are those
    /// that the layout solver gives: search box and main area span the
    /// terminal from side to side, list and preview span the main area from
    /// top to bottom.
    pub fn update_layout_with_constraints(
        &mut self,
        terminal_size: Rect,
        left_constraint: Constraint,
        right_constraint: Constraint,
    )
        ensures
            final(self).terminal_area == terminal_size,
            final(self).is_set(),
            final(self).spans_terminal(),
    {
        let rows = split_area(
            true,
            Constraint::Length(SEARCH_BOX_HEIGHT),
            Constraint::Min(0),
            terminal_size,
        );
        let columns = split_area(false, left_constraint, right_constraint, rows.1);
        self.terminal_area = terminal_size;
        self.search_area = rows.0;
        self.main_area = rows.1;
        self.left_area = columns.0;
        self.right_area = columns.1;
        self.initialized = true;
    }

    /// Whether the areas were laid out.
    pub fn is_initialized(&self) -> (r: bool)
        ensures
            r == self.is_set(),
    {
        self.initialized
    }

    /// The whole terminal.
    pub fn get_terminal_area(&self) -> (area: Rect)
        ensures
            area == self.terminal_area,
    {
        self.terminal_area
    }

    /// The search box.
    pub fn get_search_area(&self) -> (area: Rect)
        ensures
            area == self.search_area,
    {
        self.search_area
    }

    /// What lies under the search box.
    pub fn get_main_area(&self) -> (area: Rect)
        ensures
            area == self.main_area,
    {
        self.main_area
    }

    /// The list.
    pub fn get_left_area(&self) -> (area: Rect)
        ensures
            area == self.left_area,
    {
        self.left_area
    }

    /// The preview.
    pub fn get_right_area(&self) -> (area: Rect)
        ensures
            area == self.right_area,
    {
        self.right_area
    }

    /// Whether the cell at column `x` and row `y` lies in the list.
    pub fn is_in_left_area(&self, x: u16, y: u16) -> (r: bool)
        ensures
            r == self.left_area.holds(x, y),
    {
        self.left_area.contains(x, y)
    }

    /// Whether the cell at column `x` and row `y` lies in the preview.
    pub fn is_in_right_area(&self, x: u16, y: u16) -> (r: bool)
        ensures
            r == self.right_area.holds(x, y),
    {
        self.right_area.contains(x, y)
    }

    /// Whether the cell at column `x` and row `y` lies in the search box.
    pub fn is_in_search_area(&self, x: u16, y: u16) -> (r: bool)
        ensures
            r == self.search_area.holds(x, y),
    {
        self.search_area.contains(x, y)
    }

    /// The width and the height of the terminal.
    pub fn get_terminal_size(&self) -> (size: (u16, u16))
        ensures
            size == (self.terminal_area.width, self.terminal_area.height),
    {
        (self.terminal_area.width, self.terminal_area.height)
    }

    /// The width and the height of the list.
    pub fn get_left_panel_size(&self) -> (size: (u16, u16))
        ensures
            size == (self.left_area.width, self.left_area.height),
    {
        (self.left_area.width, self.left_area.height)
    }

    /// The width and the height of the preview.
    pub fn get_right_panel_size(&self) -> (size: (u16, u16))
        ensures
            size == (self.right_area.width, self.right_area.height),
    {
        (self.right_area.width, self.right_area.height)
    }

    /// The rows of `area` that are left for content inside a border.
    pub fn get_content_height(&self, area: Rect) -> (rows: usize)
        ensures
            rows == content_height(area),
    {
        if area.height >= 2 {
            (area.height - 2) as usize
        } else {
            0
        }
    }

    /// The columns of `area` that are left for content inside a border.
    pub fn get_content_width(&self, area: Rect) -> (columns: usize)
        ensures
            columns == content_width(area),
    {
        if area.width >= 2 {
            (area.width - 2) as usize
        } else {
            0
        }
    }

    /// The rows of the list that hold items.
    pub fn get_left_content_height(&self) -> (rows: usize)
        ensures
            rows == content_height(self.left_area),
    {
        self.get_content_height(self.left_area)
    }

    /// The rows of the preview that hold content.
    pub fn get_right_content_height(&self) -> (rows: usize)
        ensures
            rows == content_height(self.right_area),
    {
        self.get_content_height(self.right_area)
    }

    /// The columns of the list that hold items.
    pub fn get_left_content_width(&self) -> (columns: usize)
        ensures
            columns == content_width(self.left_area),
    {
        self.get_content_width(self.left_area)
    }

    /// The columns of the preview that hold content.
    pub fn get_right_content_width(&self) -> (columns: usize)
        ensures
            columns == content_width(self.right_area),
    {
        self.get_content_width(self.right_area)
    }

    /// Whether the areas have to be laid out again for a terminal of size
    /// `new_terminal_size`: they were never laid out, or for another size.
    pub fn needs_update(&self, new_terminal_size: Rect) -> (r: bool)
        ensures
            r == (!self.is_set() || self.terminal_area != new_terminal_size),
    {
        !self.initialized || self.terminal_area != new_terminal_size
    }
}

} // verus!
