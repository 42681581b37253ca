//! Where the process monitor puts its columns, headers and rows.

use vstd::prelude::*;
use crate::geometry::Rect;

verus! {

/// Height of one row of the process list, in pixels.
pub const ITEM_SIZE: i32 = 16;

/// Height of the column headers, in pixels; the list starts below them.
pub const HEADER_HEIGHT: u32 = 32;

/// How far down the text of a column header starts within its label, in
/// pixels.
pub const HEADER_TEXT_OFFSET: i32 = 16;

/// The widest that the window is opened.
pub const MAX_INITIAL_WIDTH: u32 = 1024;

/// The highest that the window is opened.
pub const MAX_INITIAL_HEIGHT: u32 = 768;

/// Seconds between two readings of the process list.
pub const REFRESH_SECONDS: u64 = 2;

/// One column of the process list.
#[derive(Clone, Copy, Debug)]
pub struct Column {
    pub name: &'static str,
    pub x: i32,
    pub width: i32,
}

/// The three columns before the window's width is known: the name column
/// takes what the other two leave.
pub open spec fn spec_default_columns() -> Seq<Column> {
    seq![
        Column { name: "Name", x: 0, width: 0 },
        Column { name: "PID", x: 0, width: 48 },
        Column { name: "Program Usage", x: 0, width: 150 },
    ]
}

/// The three columns before the window's width is known.
pub fn default_columns() -> (columns: [Column; 3])
    ensures
        columns@ == spec_default_columns(),
{
    [
        Column { name: "Name", x: 0, width: 0 },
        Column { name: "PID", x: 0, width: 48 },
        Column { name: "Program Usage", x: 0, width: 150 },
    ]
}

/// The size at which the window opens on a display of the given size: four
/// fifths of the display each way, rounded down, and no more than 1024 by
/// 768.
pub open spec fn spec_initial_window_size(display_width: u32, display_height: u32) -> (u32, u32) {
    (
        if display_width * 4 / 5 < MAX_INITIAL_WIDTH {
            (display_width * 4 / 5) as u32
        } else {
            MAX_INITIAL_WIDTH
        },
        if display_height * 4 / 5 < MAX_INITIAL_HEIGHT {
            (display_height * 4 / 5) as u32
        } else {
            MAX_INITIAL_HEIGHT
        },
    )
}

/// The size at which the window opens on a display of the given size.
pub fn initial_window_size(display_width: u32, display_height: u32) -> (size: (u32, u32))
    ensures
        size == spec_initial_window_size(display_width, display_height),
{
    let width: u64 = display_width as u64 * 4 / 5;
    let height: u64 = display_height as u64 * 4 / 5;
    (
        if width < MAX_INITIAL_WIDTH as u64 {
            width as u32
        } else {
            MAX_INITIAL_WIDTH
        },
        if height < MAX_INITIAL_HEIGHT as u64 {
            height as u32
        } else {
            MAX_INITIAL_HEIGHT
        },
    )
}

/// The width that the first column gets in a window of the given width:
/// what the other two leave, and no less than its own width.
pub open spec fn first_column_width(columns: Seq<Column>, window_width: u32) -> int {
    let spare = window_width - columns[1].width - columns[2].width;
    if columns[0].width >= spare {
        columns[0].width as int
    } else {
        spare
    }
}

/// Whether the columns can be laid out in a window of the given width
/// with 32-bit positions.
pub open spec fn spec_columns_fit(columns: Seq<Column>, window_width: u32) -> bool {
    let first = first_column_width(columns, window_width);
    &&& window_width <= i32::MAX
    &&& i32::MIN <= window_width - columns[1].width <= i32::MAX
    &&& i32::MIN <= window_width - columns[1].width - columns[2].width <= i32::MAX
    &&& i32::MIN <= columns[0].x + first <= i32::MAX
    &&& i32::MIN <= columns[0].x + first + columns[1].width <= i32::MAX
}

/// Whether the columns can be laid out in a window of the given width
/// with 32-bit positions.
pub fn columns_fit(columns: &[Column; 3], window_width: u32) -> (fit: bool)
    ensures
        fit == spec_columns_fit(columns@, window_width),
{
    if window_width > i32::MAX as u32 {
        return false;
    }
    let low: i64 = i32::MIN as i64;
    let high: i64 = i32::MAX as i64;
    let step: i64 = window_width as i64 - columns[1].width as i64;
    let spare: i64 = step - columns[2].width as i64;
    let first: i64 = if columns[0].width as i64 >= spare {
        columns[0].width as i64
    } else {
        spare
    };
    let second_x: i64 = columns[0].x as i64 + first;
    let third_x: i64 = second_x + columns[1].width as i64;
    low <= step && step <= high && low <= spare && spare <= high && low <= second_x && second_x
        <= high && low <= third_x && third_x <= high
}

/// The columns in a window of the given width. The first column keeps its
/// place and grows to fill the window; the second starts where the first
/// ends, the third where the second ends. Names and the widths of the
/// second and third column stay.
pub open spec fn spec_resized_columns(columns: Seq<Column>, window_width: u32) -> Seq<Column> {
    let first_width = first_column_width(columns, window_width);
    let second_x = columns[0].x + first_width;
    let third_x = second_x + columns[1].width;
    seq![
        Column { name: columns[0].name, x: columns[0].x, width: first_width as i32 },
        Column { name: columns[1].name, x: second_x as i32, width: columns[1].width },
        Column { name: columns[2].name, x: third_x as i32, width: columns[2].width },
    ]
}

/// The columns in a window of the given width.
pub fn resized_columns(columns: &[Column; 3], window_width: u32) -> (resized: [Column; 3])
    requires
        spec_columns_fit(columns@, window_width),
    ensures
        resized@ == spec_resized_columns(columns@, window_width),
{
    let spare: i32 = window_width as i32 - columns[1].width - columns[2].width;
    let first_width: i32 = if columns[0].width >= spare {
        columns[0].width
    } else {
        spare
    };
    let first = Column { name: columns[0].name, x: columns[0].x, width: first_width };
    let second = Column { name: columns[1].name, x: first.x + first.width, width: columns[1].width };
    let third = Column {
        name: columns[2].name,
        x: second.x + second.width,
        width: columns[2].width,
    };
    [first, second, third]
}

/// A piece of text and the place where it is shown.
pub struct Label {
    pub rect: Rect,
    pub text: String,
}

/// A `Label` as a plain value.
pub struct LabelView {
    pub rect: Rect,
    pub text: Seq<char>,
}

impl View for Label {
    type V = LabelView;

    open spec fn view(&self) -> LabelView {
        LabelView { rect: self.rect, text: self.text@ }
    }
}

/// The labels in `labels` as plain values.
pub open spec fn label_views(labels: Seq<Label>) -> Seq<LabelView> {
    Seq::new(labels.len(), |i: int| labels[i]@)
}

} // verus!
