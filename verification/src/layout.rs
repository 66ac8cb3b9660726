//! The arithmetic of the grid: which page an entry is on, which entry a cell
//! shows, and when the terminal is too small for the grid.

use vstd::prelude::*;
use vstd::string::StringExecFns;
use crate::data::TimeRange;

verus! {

/// The number of entries on one page of the grid.
pub const PAGE_SIZE: usize = 4;

/// The number of columns of the grid.
pub const GRID_COLUMNS: usize = 2;

/// The number of rows of the grid.
pub const GRID_ROWS: usize = 2;

/// The least width of a terminal that the grid fits in.
pub const MIN_WIDTH: u16 = 100;

/// The least height of a terminal that the grid fits in.
pub const MIN_HEIGHT: u16 = 35;

/// The width of the warning shown in a terminal that is too small.
pub const WARNING_WIDTH: u16 = 50;

/// The height of the warning shown in a terminal that is too small.
pub const WARNING_HEIGHT: u16 = 10;

/// A rectangle of terminal cells: its left column, its top row, and its size.
#[derive(Clone, Copy, Debug, PartialEq, Eq, Structural)]
pub struct Area {
    pub x: u16,
    pub y: u16,
    pub width: u16,
    pub height: u16,
}

/// Whether a terminal of this size is too small for the grid.
pub fn is_too_small(width: u16, height: u16) -> (r: bool)
    ensures
        r == (width < MIN_WIDTH || height < MIN_HEIGHT),
{
    width < MIN_WIDTH || height < MIN_HEIGHT
}

/// Where the warning goes in a terminal of this size: in the middle, and no
/// larger than the terminal.
pub fn warning_area(width: u16, height: u16) -> (area: Area)
    ensures
        area.width == if width < WARNING_WIDTH {
            width
        } else {
            WARNING_WIDTH
        },
        area.height == if height < WARNING_HEIGHT {
            height
        } else {
            WARNING_HEIGHT
        },
        area.x == (width - area.width) / 2,
        area.y == (height - area.height) / 2,
        area.x + area.width <= width,
        area.y + area.height <= height,
{
    let shown_width = if width < WARNING_WIDTH {
        width
    } else {
        WARNING_WIDTH
    };
    let shown_height = if height < WARNING_HEIGHT {
        height
    } else {
        WARNING_HEIGHT
    };
    Area {
        x: (width - shown_width) / 2,
        y: (height - shown_height) / 2,
        width: shown_width,
        height: shown_height,
    }
}

/// The number of pages that `entries` entries fill: four to a page, the last
/// page perhaps not full.
pub fn page_count(entries: usize) -> (pages: usize)
    ensures
        pages == (entries + PAGE_SIZE - 1) / PAGE_SIZE as int,
        pages * PAGE_SIZE >= entries,
        entries > 0 ==> (pages - 1) * PAGE_SIZE < entries,
{
    if entries % PAGE_SIZE == 0 {
        entries / PAGE_SIZE
    } else {
        entries / PAGE_SIZE + 1
    }
}

/// The page, counted from one, that shows the entry at `selected_index`.
pub fn current_page(selected_index: usize) -> (page: usize)
    ensures
        page == selected_index / PAGE_SIZE + 1,
        (page - 1) * PAGE_SIZE <= selected_index < page * PAGE_SIZE,
{
    selected_index / PAGE_SIZE + 1
}

/// The position of the entry that the cell in row `row` and column `column`
/// of page `page` shows, if the grid has `entries` entries; none where the
/// cell stays empty.
pub fn cell_entry(page: usize, row: usize, column: usize, entries: usize) -> (index: Option<usize>)
    requires
        page >= 1,
        row < GRID_ROWS,
        column < GRID_COLUMNS,
    ensures
        index is Some <==> (page - 1) * PAGE_SIZE + row * GRID_COLUMNS + column < entries,
        index is Some ==> index->0 == (page - 1) * PAGE_SIZE + row * GRID_COLUMNS + column,
{
    let within = row * GRID_COLUMNS + column;
    let first = page - 1;
    if first > (usize::MAX - within) / PAGE_SIZE {
        return None;
    }
    let index = first * PAGE_SIZE + within;
    if index < entries {
        Some(index)
    } else {
        None
    }
}

/// One window in the selector line: its label between spaces, in square
/// brackets if it is the one shown and its entry is selected, in round
/// brackets if it is the one shown and its entry is not selected.
pub open spec fn selector_piece(range: TimeRange, current: TimeRange, is_selected: bool) -> Seq<
    char,
> {
    if range == current {
        if is_selected {
            " ["@ + range.label() + "] "@
        } else {
            " ("@ + range.label() + ") "@
        }
    } else {
        " "@ + range.label() + " "@
    }
}

/// The selector line for the first `count` windows: their pieces, with one
/// space between neighbours.
pub open spec fn selector_prefix(current: TimeRange, is_selected: bool, count: nat) -> Seq<char>
    decreases count,
{
    if count == 0 {
        Seq::<char>::empty()
    } else {
        let piece = selector_piece(TimeRange::ranges()[count - 1], current, is_selected);
        if count == 1 {
            piece
        } else {
            selector_prefix(current, is_selected, (count - 1) as nat).push(' ') + piece
        }
    }
}

/// The selector line: every window, with the one shown marked.
pub open spec fn selector_line(current: TimeRange, is_selected: bool) -> Seq<char> {
    selector_prefix(current, is_selected, TimeRange::ranges().len())
}

/// The text of the selector under an entry that shows `current_time_range`.
pub fn time_range_selector_text(current_time_range: TimeRange, is_selected: bool) -> (text: String)
    ensures
        text@ == selector_line(current_time_range, is_selected),
{
    let mut text = String::new();
    let time_ranges = TimeRange::all();
    let mut i: usize = 0;
    while i < time_ranges.len()
        invariant
            time_ranges@ == TimeRange::ranges(),
            i <= time_ranges@.len(),
            text@ == selector_prefix(current_time_range, is_selected, i as nat),
        decreases time_ranges@.len() - i,
    {
        let ghost before = text@;
        if i > 0 {
            text.push(' ');
        }
        let ghost spaced = text@;
        let range = time_ranges[i];
        if range == current_time_range {
            if is_selected {
                text.append(" [");
                text.append(range.as_str());
                text.append("] ");
            } else {
                text.append(" (");
                text.append(range.as_str());
                text.append(") ");
            }
        } else {
            text.append(" ");
            text.append(range.as_str());
            text.append(" ");
        }
        assert(text@ =~= spaced + selector_piece(range, current_time_range, is_selected));
        assert(text@ =~= selector_prefix(current_time_range, is_selected, (i + 1) as nat));
        i += 1;
    }
    text
}

} // verus!
