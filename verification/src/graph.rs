//! The memory usage graph: which lines make it up, and which readings it
//! shows.
//!
//! The picture itself belongs to the caller. The graph says which segments
//! to draw, in order; scaling a reading to a height is done by the caller,
//! who hands in the points.

use vstd::prelude::*;
use vstd::string::*;
use crate::geometry::{Color, Point, Rect, Segment};
use crate::layout::{Label, LabelView};

verus! {

/// Length of the marks under each point, in pixels.
pub const NOTCH_HEIGHT: i32 = 20;

/// Space left free around the plot, in pixels.
pub const BORDER: i32 = 30;

/// Number of readings after which the oldest one makes room.
pub const POINTS_KEPT: usize = 10;

/// Width and height of the viewer's window and of its graph.
pub const VIEWER_SIZE: u32 = 300;

/// The segment from `from` to `to`.
pub open spec fn segment(from: Point, to: Point) -> Segment {
    Segment { from, to }
}

/// The plot area of a graph of the given size as left, top, right and
/// bottom: the graph's area without the border.
pub open spec fn plot_area(width: u32, height: u32) -> (int, int, int, int) {
    (BORDER as int, BORDER as int, width - BORDER, height - BORDER)
}

/// The four sides of the plot area, drawn clockwise from the top left.
pub open spec fn frame_of(width: u32, height: u32) -> Seq<Segment> {
    let (left, top, right, bottom) = plot_area(width, height);
    let top_left = Point { x: left as i32, y: top as i32 };
    let top_right = Point { x: right as i32, y: top as i32 };
    let bottom_left = Point { x: left as i32, y: bottom as i32 };
    let bottom_right = Point { x: right as i32, y: bottom as i32 };
    seq![
        segment(top_left, top_right),
        segment(top_right, bottom_right),
        segment(bottom_right, bottom_left),
        segment(bottom_left, top_left),
    ]
}

/// The mark at `x`: a vertical stroke through the lower side of the plot
/// area, drawn upwards, half of it below and half above.
pub open spec fn notch_at(height: u32, x: i32) -> Segment {
    let bottom = height - BORDER;
    segment(
        Point { x, y: (bottom + NOTCH_HEIGHT / 2) as i32 },
        Point { x, y: (bottom - NOTCH_HEIGHT / 2) as i32 },
    )
}

/// The horizontal position of point `index` of `count`: the points start
/// at the left side of the plot area and stand a whole number of pixels
/// apart, the area's width divided by their number and rounded towards
/// zero.
pub open spec fn point_x(width: u32, index: int, count: int) -> int {
    let span = width - BORDER;
    let step = if span >= 0 {
        span / count
    } else {
        -((-span) / count)
    };
    BORDER + step * index
}

/// The lines between each point and the next, from left to right.
pub open spec fn path_of(points: Seq<Point>) -> Seq<Segment> {
    Seq::new((points.len() - 1) as nat, |i: int| segment(points[i], points[i + 1]))
}

/// The marks under the points, from left to right.
pub open spec fn notches_of(height: u32, points: Seq<Point>) -> Seq<Segment> {
    Seq::new(points.len(), |i: int| notch_at(height, points[i].x))
}

/// All that is drawn for `points` on a graph of the given size: the frame,
/// then the path, then the marks.
pub open spec fn plot_of(width: u32, height: u32, points: Seq<Point>) -> Seq<Segment> {
    frame_of(width, height) + path_of(points) + notches_of(height, points)
}

/// The readings after one more came in: the oldest one leaves if there
/// were more than `kept`, and the new one goes to the end.
pub open spec fn points_after(points: Seq<i32>, kept: usize, reading: i32) -> Seq<i32> {
    if points.len() > kept {
        points.skip(1).push(reading)
    } else {
        points.push(reading)
    }
}

/// A line graph on a picture of a given size.
pub struct LineGraph {
    rect: Rect,
    background_color: Color,
}

impl LineGraph {
    /// The sides of the picture are 32-bit positions.
    #[verifier::type_invariant]
    spec fn sides_are_positions(&self) -> bool {
        self.rect.width <= i32::MAX && self.rect.height <= i32::MAX
    }

    /// Where the graph is and how large its picture is.
    pub closed spec fn spec_rect(&self) -> Rect {
        self.rect
    }

    /// The colour of the empty picture.
    pub closed spec fn spec_background(&self) -> Color {
        self.background_color
    }

    /// A graph on a white picture of the given size.
    pub fn new(x: i32, y: i32, width: u32, height: u32) -> (graph: Self)
        requires
            width <= i32::MAX,
            height <= i32::MAX,
        ensures
            graph.spec_rect() == (Rect { x, y, width, height }),
            graph.spec_background() == (Color { r: 255, g: 255, b: 255, a: 255 }),
    {
        Self::from_image(x, y, width, height, Color::rgb(255, 255, 255))
    }

    /// A graph on a picture of the given size and colour.
    pub fn from_color(x: i32, y: i32, width: u32, height: u32, color: Color) -> (graph: Self)
        requires
            width <= i32::MAX,
            height <= i32::MAX,
        ensures
            graph.spec_rect() == (Rect { x, y, width, height }),
            graph.spec_background() == color,
    {
        Self::from_image(x, y, width, height, color)
    }

    /// A graph on a picture that the caller holds; `image_width` and
    /// `image_height` are the picture's size, `color` the colour to clear
    /// it with.
    pub fn from_image(x: i32, y: i32, image_width: u32, image_height: u32, color: Color) -> (graph:
        Self)
        requires
            image_width <= i32::MAX,
            image_height <= i32::MAX,
        ensures
            graph.spec_rect() == (Rect { x, y, width: image_width, height: image_height }),
            graph.spec_background() == color,
    {
        LineGraph {
            rect: Rect { x, y, width: image_width, height: image_height },
            background_color: color,
        }
    }

    /// Where the graph is and how large its picture is.
    pub fn area(&self) -> (rect: Rect)
        ensures
            rect == self.spec_rect(),
    {
        self.rect
    }

    /// The colour of the empty picture.
    pub fn background_color(&self) -> (color: Color)
        ensures
            color == self.spec_background(),
    {
        self.background_color
    }

    /// The plot area as left, top, right and bottom.
    pub fn rect(&self) -> (area: (i32, i32, i32, i32))
        ensures
            (area.0 as int, area.1 as int, area.2 as int, area.3 as int) == plot_area(
                self.spec_rect().width,
                self.spec_rect().height,
            ),
    {
        proof {
            use_type_invariant(self);
        }
        (BORDER, BORDER, self.rect.width as i32 - BORDER, self.rect.height as i32 - BORDER)
    }

    /// The mark under a point at `x`.
    pub fn notch(&self, x: i32) -> (mark: Segment)
        ensures
            mark == notch_at(self.spec_rect().height, x),
    {
        proof {
            use_type_invariant(self);
        }
        let (_, _, _, bottom) = self.rect();
        Segment {
            from: Point { x, y: bottom + NOTCH_HEIGHT / 2 },
            to: Point { x, y: bottom - NOTCH_HEIGHT / 2 },
        }
    }

    /// The frame around the plot area.
    pub fn frame(&self) -> (sides: Vec<Segment>)
        ensures
            sides@ == frame_of(self.spec_rect().width, self.spec_rect().height),
    {
        let (left, top, right, bottom) = self.rect();
        let top_left = Point { x: left, y: top };
        let top_right = Point { x: right, y: top };
        let bottom_left = Point { x: left, y: bottom };
        let bottom_right = Point { x: right, y: bottom };
        let mut sides: Vec<Segment> = Vec::new();
        sides.push(Segment { from: top_left, to: top_right });
        sides.push(Segment { from: top_right, to: bottom_right });
        sides.push(Segment { from: bottom_right, to: bottom_left });
        sides.push(Segment { from: bottom_left, to: top_left });
        sides
    }

    /// The horizontal positions of `count` points, from left to right.
    pub fn translate_xs(&self, count: usize) -> (xs: Vec<i32>)
        requires
            count <= i32::MAX,
        ensures
            xs@.len() == count,
            forall|i: int| 0 <= i < count ==> xs@[i] == point_x(self.spec_rect().width, i, count as int),
    {
        proof {
            use_type_invariant(self);
        }
        let (left, _, right, _) = self.rect();
        let mut xs: Vec<i32> = Vec::new();
        let length: i32 = count as i32;
        let mut i: usize = 0;
        while i < count
            invariant
                i <= count,
                count <= i32::MAX,
                length == count,
                left == BORDER,
                right == self.spec_rect().width - BORDER,
                -BORDER <= right <= i32::MAX - BORDER,
                xs@.len() == i,
                forall|k: int|
                    0 <= k < i ==> xs@[k] == point_x(self.spec_rect().width, k, count as int),
            decreases count - i,
        {
            let step: i32 = right / length;
            let index: i32 = i as i32;
            proof {
                lemma_step_stays_in_span(right as int, length as int, index as int);
            }
            xs.push(left + step * index);
            i = i + 1;
        }
        xs
    }

    /// All segments to draw for `points`, in the order in which they are
    /// drawn: the frame, the path through the points, the marks under
    /// them.
    pub fn plot(&self, points: &Vec<Point>) -> (segments: Vec<Segment>)
        requires
            points@.len() >= 1,
        ensures
            segments@ == plot_of(self.spec_rect().width, self.spec_rect().height, points@),
    {
        let mut segments = self.frame();
        let ghost frame = segments@;
        let mut i: usize = 0;
        while i < points.len() - 1
            invariant
                points@.len() >= 1,
                i <= points@.len() - 1,
                segments@ == frame + path_of(points@).take(i as int),
            decreases points@.len() - i,
        {
            segments.push(Segment { from: points[i], to: points[i + 1] });
            i = i + 1;
        }
        let ghost lines = segments@;
        let mut k: usize = 0;
        while k < points.len()
            invariant
                k <= points@.len(),
                segments@ == lines + notches_of(self.spec_rect().height, points@).take(k as int),
            decreases points@.len() - k,
        {
            let mark = self.notch(points[k].x);
            segments.push(mark);
            k = k + 1;
        }
        segments
    }
}

/// Where the parts of the viewer's window go.
pub struct ViewerLayout {
    /// The window on the display.
    pub window: Rect,
    /// The graph within the window.
    pub graph: Rect,
    /// The label of the horizontal axis.
    pub x_label: Label,
    /// The title above the plot.
    pub title: Label,
}

/// The label of the horizontal axis: near the lower right corner of the
/// graph.
pub open spec fn x_label_at() -> LabelView {
    LabelView {
        rect: Rect {
            x: (VIEWER_SIZE - 50) as i32,
            y: (VIEWER_SIZE - 20) as i32,
            width: 40,
            height: 16,
        },
        text: "Time"@,
    }
}

/// The title: a third of the graph's width from its left side, near the
/// top.
pub open spec fn title_at() -> LabelView {
    LabelView {
        rect: Rect { x: (VIEWER_SIZE / 3) as i32, y: 10, width: 100, height: 16 },
        text: "Memory Usage"@,
    }
}

/// The layout of the viewer's window: a window of 300 by 300 pixels, filled
/// by the graph, with the two labels on it.
pub fn viewer_layout() -> (layout: ViewerLayout)
    ensures
        layout.window == (Rect { x: 10, y: 30, width: VIEWER_SIZE, height: VIEWER_SIZE }),
        layout.graph == (Rect { x: 0, y: 0, width: VIEWER_SIZE, height: VIEWER_SIZE }),
        layout.x_label@ == x_label_at(),
        layout.title@ == title_at(),
{
    let graph = Rect { x: 0, y: 0, width: VIEWER_SIZE, height: VIEWER_SIZE };
    ViewerLayout {
        window: Rect { x: 10, y: 30, width: VIEWER_SIZE, height: VIEWER_SIZE },
        graph,
        x_label: Label {
            rect: Rect {
                x: graph.x + graph.width as i32 - 50,
                y: graph.y + graph.height as i32 - 20,
                width: 40,
                height: 16,
            },
            text: String::from_str("Time"),
        },
        title: Label {
            rect: Rect {
                x: graph.x + (graph.width / 3) as i32,
                y: graph.y + 10,
                width: 100,
                height: 16,
            },
            text: String::from_str("Memory Usage"),
        },
    }
}

/// The readings that the viewer shows, and the value at the top of its
/// scale.
pub struct GraphViewer {
    points: Vec<i32>,
    points_kept: usize,
    max: i32,
}

impl GraphViewer {
    /// The readings, oldest first.
    pub closed spec fn spec_points(&self) -> Seq<i32> {
        self.points@
    }

    /// The number of readings after which the oldest one makes room.
    pub closed spec fn spec_points_kept(&self) -> usize {
        self.points_kept
    }

    /// The value at the top of the scale.
    pub closed spec fn spec_max(&self) -> i32 {
        self.max
    }

    /// A viewer without readings. `usage` is free, used and total memory;
    /// the total is the top of the scale.
    pub fn new(usage: (i32, i32, i32)) -> (viewer: Self)
        ensures
            viewer.spec_points() == Seq::<i32>::empty(),
            viewer.spec_points_kept() == POINTS_KEPT,
            viewer.spec_max() == usage.2,
    {
        GraphViewer { points: Vec::new(), points_kept: POINTS_KEPT, max: usage.2 }
    }

    /// The readings, oldest first.
    pub fn points(&self) -> (points: &Vec<i32>)
        ensures
            points@ == self.spec_points(),
    {
        &self.points
    }

    /// The value at the top of the scale.
    pub fn max(&self) -> (max: i32)
        ensures
            max == self.spec_max(),
    {
        self.max
    }

    /// Takes in a reading of free, used and total memory: the used memory
    /// becomes the newest point, and the oldest point leaves if there were
    /// more than the viewer keeps.
    pub fn update_points(&mut self, usage: (i32, i32, i32))
        ensures
            final(self).spec_points() == points_after(
                old(self).spec_points(),
                old(self).spec_points_kept(),
                usage.1,
            ),
            final(self).spec_points_kept() == old(self).spec_points_kept(),
            final(self).spec_max() == old(self).spec_max(),
    {
        if self.points.len() > self.points_kept {
            let _ = self.points.remove(0);
        }
        self.points.push(usage.1);
    }
}

proof fn lemma_step_stays_in_span(span: int, count: int, index: int)
    requires
        0 <= index < count,
        -BORDER <= span,
    ensures
        span >= 0 ==> 0 <= (span / count) * index <= span,
        span < 0 ==> span <= -((-span) / count) * index <= 0,
{
    if span >= 0 {
        let step = span / count;
        assert(0 <= step) by (nonlinear_arith)
            requires
                0 <= span,
                0 < count,
                step == span / count,
        ;
        assert(step * count <= span) by (nonlinear_arith)
            requires
                0 <= span,
                0 < count,
                step == span / count,
        ;
        assert(0 <= step * index <= step * count) by (nonlinear_arith)
            requires
                0 <= step,
                0 <= index < count,
        ;
    } else {
        let step = (-span) / count;
        assert(0 <= step) by (nonlinear_arith)
            requires
                0 <= -span,
                0 < count,
                step == (-span) / count,
        ;
        assert(step * count <= -span) by (nonlinear_arith)
            requires
                0 <= -span,
                0 < count,
                step == (-span) / count,
        ;
        assert(0 <= step * index <= step * count) by (nonlinear_arith)
            requires
                0 <= step,
                0 <= index < count,
        ;
        assert(-step * index == -(step * index)) by (nonlinear_arith);
    }
}

} // verus!
