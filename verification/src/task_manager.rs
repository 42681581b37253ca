//! The state of the process monitor and what it shows.
//!
//! The window, its widgets and the reading of the process list are the
//! caller's part. The monitor keeps the list and the window's size, takes
//! in what changes them, and says where each header and each row goes.

use vstd::prelude::*;
use vstd::string::*;
use crate::geometry::Rect;
use crate::layout::{
    default_columns, initial_window_size, label_views, resized_columns, spec_default_columns,
    spec_initial_window_size, spec_resized_columns, Column, Label, LabelView, HEADER_HEIGHT,
    ITEM_SIZE,
};
use crate::process_info::{ProcessInfo, ProcessInfoView, process_views};

verus! {

/// What changes the monitor's state.
pub enum TaskManagerCommand {
    /// The window has this width and height now.
    Resize(u32, u32),
    /// The process list was read anew.
    Update(Vec<ProcessInfo>),
}

/// The monitor as a plain value.
pub struct TaskManagerView {
    pub processes: Seq<ProcessInfoView>,
    pub window_width: u32,
    pub window_height: u32,
}

/// The three labels of one row of the list.
pub struct Row {
    pub name: Label,
    pub pid: Label,
    pub mem: Label,
}

/// A `Row` as a plain value.
pub struct RowView {
    pub name: LabelView,
    pub pid: LabelView,
    pub mem: LabelView,
}

impl View for Row {
    type V = RowView;

    open spec fn view(&self) -> RowView {
        RowView { name: self.name@, pid: self.pid@, mem: self.mem@ }
    }
}

/// The rows in `rows` as plain values.
pub open spec fn row_views(rows: Seq<Row>) -> Seq<RowView> {
    Seq::new(rows.len(), |i: int| rows[i]@)
}

/// The list of processes as it is shown: its place, and its rows from top
/// to bottom. The labels of a row are placed within the row.
pub struct ListLayout {
    pub rect: Rect,
    pub rows: Vec<Row>,
}

/// The columns in a window of the given width: the default columns, laid
/// out for that width.
pub open spec fn columns_at(window_width: u32) -> Seq<Column> {
    spec_resized_columns(spec_default_columns(), window_width)
}

/// The width over which the list and each of its labels reach: from the
/// left edge to the end of the last column.
pub open spec fn list_width(window_width: u32) -> int {
    columns_at(window_width)[2].x + columns_at(window_width)[2].width
}

/// The header of column `index` in a window of the given width: at the
/// top, as wide as the column, with the column's name.
pub open spec fn header_at(window_width: u32, index: int) -> LabelView {
    let column = columns_at(window_width)[index];
    LabelView {
        rect: Rect { x: column.x, y: 0, width: column.width as u32, height: HEADER_HEIGHT },
        text: column.name@,
    }
}

/// The three column headers in a window of the given width, from left to
/// right.
pub open spec fn headers_at(window_width: u32) -> Seq<LabelView> {
    Seq::new(3, |i: int| header_at(window_width, i))
}

/// The row that shows `process` in a window of the given width: name,
/// process id and memory, each starting at its column and reaching over
/// the list's whole width.
pub open spec fn row_at(window_width: u32, process: ProcessInfoView) -> RowView {
    let columns = columns_at(window_width);
    let width = list_width(window_width) as u32;
    let height = ITEM_SIZE as u32;
    RowView {
        name: LabelView { rect: Rect { x: columns[0].x, y: 0, width, height }, text: process.name },
        pid: LabelView { rect: Rect { x: columns[1].x, y: 0, width, height }, text: process.pid },
        mem: LabelView { rect: Rect { x: columns[2].x, y: 0, width, height }, text: process.mem },
    }
}

/// The rows that show `processes` in a window of the given width, one for
/// each process, in the order of the processes.
pub open spec fn rows_at(window_width: u32, processes: Seq<ProcessInfoView>) -> Seq<RowView> {
    Seq::new(processes.len(), |i: int| row_at(window_width, processes[i]))
}

/// The place of the list in a window of the given size: below the headers,
/// down to the window's lower edge.
pub open spec fn list_rect(window_width: u32, window_height: u32) -> Rect {
    Rect {
        x: 0,
        y: HEADER_HEIGHT as i32,
        width: list_width(window_width) as u32,
        height: (window_height - HEADER_HEIGHT) as u32,
    }
}

/// The state of the process monitor.
pub struct TaskManager {
    processes: Vec<ProcessInfo>,
    columns: [Column; 3],
    window_width: u32,
    window_height: u32,
}

impl View for TaskManager {
    type V = TaskManagerView;

    closed spec fn view(&self) -> TaskManagerView {
        TaskManagerView {
            processes: process_views(self.processes@),
            window_width: self.window_width,
            window_height: self.window_height,
        }
    }
}

impl TaskManager {
    /// The columns are the three default columns, whatever else changes.
    #[verifier::type_invariant]
    spec fn has_default_columns(&self) -> bool {
        self.columns@ == spec_default_columns()
    }

    /// Whether the window's size can be laid out: its width is a 32-bit
    /// position, and it is high enough for the headers.
    pub open spec fn spec_can_lay_out(self) -> bool {
        self@.window_width <= i32::MAX && self@.window_height >= HEADER_HEIGHT
    }

    /// A monitor with no process yet, for a window opened on a display of
    /// the given size.
    pub fn new(display_width: u32, display_height: u32) -> (manager: Self)
        ensures
            manager@.processes == Seq::<ProcessInfoView>::empty(),
            (manager@.window_width, manager@.window_height) == spec_initial_window_size(
                display_width,
                display_height,
            ),
    {
        let (width, height) = initial_window_size(display_width, display_height);
        TaskManager {
            processes: Vec::new(),
            columns: default_columns(),
            window_width: width,
            window_height: height,
        }
    }

    /// The window's width.
    pub fn window_width(&self) -> (width: u32)
        ensures
            width == self@.window_width,
    {
        self.window_width
    }

    /// The window's height.
    pub fn window_height(&self) -> (height: u32)
        ensures
            height == self@.window_height,
    {
        self.window_height
    }

    /// The processes that the monitor shows.
    pub fn processes(&self) -> (processes: &Vec<ProcessInfo>)
        ensures
            process_views(processes@) == self@.processes,
    {
        &self.processes
    }

    /// Whether the window's size can be laid out.
    pub fn can_lay_out(&self) -> (possible: bool)
        ensures
            possible == self.spec_can_lay_out(),
    {
        self.window_width <= i32::MAX as u32 && self.window_height >= HEADER_HEIGHT
    }

    /// Takes in a change: a new window size replaces the old one, a new
    /// process list replaces the old one. What the command does not name
    /// stays.
    pub fn apply(&mut self, command: TaskManagerCommand)
        ensures
            final(self)@ == match command {
                TaskManagerCommand::Resize(width, height) => TaskManagerView {
                    window_width: width,
                    window_height: height,
                    ..old(self)@
                },
                TaskManagerCommand::Update(processes) => TaskManagerView {
                    processes: process_views(processes@),
                    ..old(self)@
                },
            },
    {
        proof {
            use_type_invariant(&*self);
        }
        match command {
            TaskManagerCommand::Resize(width, height) => {
                self.window_width = width;
                self.window_height = height;
            },
            TaskManagerCommand::Update(processes) => {
                self.processes = processes;
            },
        }
    }

    /// The columns at the window's present width.
    pub fn resized_columns(&self) -> (columns: [Column; 3])
        requires
            self@.window_width <= i32::MAX,
        ensures
            columns@ == columns_at(self@.window_width),
    {
        proof {
            use_type_invariant(self);
        }
        resized_columns(&self.columns, self.window_width)
    }

    /// The three column headers, from left to right.
    pub fn header_layout(&self) -> (headers: Vec<Label>)
        requires
            self@.window_width <= i32::MAX,
        ensures
            headers@.len() == 3,
            label_views(headers@) == headers_at(self@.window_width),
    {
        let columns = self.resized_columns();
        let mut headers: Vec<Label> = Vec::new();
        let mut i: usize = 0;
        while i < 3
            invariant
                i <= 3,
                self@.window_width <= i32::MAX,
                columns@ == columns_at(self@.window_width),
                headers@.len() == i,
                forall|k: int|
                    0 <= k < i ==> (#[trigger] headers@[k])@ == header_at(self@.window_width, k),
            decreases 3 - i,
        {
            let column = columns[i];
            headers.push(
                Label {
                    rect: Rect { x: column.x, y: 0, width: column.width as u32, height: HEADER_HEIGHT },
                    text: String::from_str(column.name),
                },
            );
            i = i + 1;
        }
        headers
    }

    /// The list with one row for each process, in the order of the
    /// processes.
    pub fn list_layout(&self) -> (list: ListLayout)
        requires
            self.spec_can_lay_out(),
        ensures
            list.rect == list_rect(self@.window_width, self@.window_height),
            list.rows@.len() == self@.processes.len(),
            row_views(list.rows@) == rows_at(self@.window_width, self@.processes),
    {
        let columns = self.resized_columns();
        let width: u32 = (columns[2].x + columns[2].width) as u32;
        let height: u32 = ITEM_SIZE as u32;
        let mut rows: Vec<Row> = Vec::new();
        let mut i: usize = 0;
        while i < self.processes.len()
            invariant
                i <= self.processes.len(),
                columns@ == columns_at(self@.window_width),
                width == list_width(self@.window_width),
                height == ITEM_SIZE,
                rows@.len() == i,
                forall|k: int|
                    0 <= k < i ==> (#[trigger] rows@[k])@ == row_at(
                        self@.window_width,
                        self.processes@[k]@,
                    ),
            decreases self.processes.len() - i,
        {
            let process = &self.processes[i];
            rows.push(
                Row {
                    name: Label {
                        rect: Rect { x: columns[0].x, y: 0, width, height },
                        text: process.name.clone(),
                    },
                    pid: Label {
                        rect: Rect { x: columns[1].x, y: 0, width, height },
                        text: process.pid.clone(),
                    },
                    mem: Label {
                        rect: Rect { x: columns[2].x, y: 0, width, height },
                        text: process.mem.clone(),
                    },
                },
            );
            i = i + 1;
        }
        ListLayout {
            rect: Rect {
                x: 0,
                y: HEADER_HEIGHT as i32,
                width,
                height: self.window_height - HEADER_HEIGHT,
            },
            rows,
        }
    }
}

} // verus!
