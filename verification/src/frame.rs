//! What one frame shows: the polygon, its spokes, and the order in which their
//! lines are drawn.

use vstd::prelude::*;
use crate::color::{ColorSet, Rgba};
use crate::generator::{
    corner_count, hull, is_hull, is_rim, lemma_hull_unique, lemma_rim_unique, rim, FrameError, Point,
    Sample, Screen,
};
use crate::shape::{ShapeModel, ShapeParameters};

verus! {

/// How thick every line of the figure is drawn, in pixels.
pub const LINE_THICKNESS: u32 = 6;

/// A straight line in one colour.
#[derive(Clone, Copy, Debug, PartialEq, Eq, Structural)]
pub struct Line {
    pub from: Point,
    pub to: Point,
    pub color: Rgba,
}

/// Everything that one frame shows.
#[derive(Debug, PartialEq, Eq)]
pub struct Frame {
    /// The colour that the screen is cleared to before anything is drawn.
    pub background: Rgba,
    /// The centre of the screen.
    pub center: Point,
    /// The corners of the polygon, in the order of their angles.
    pub hull: Vec<Point>,
    /// For each corner the point where its outer spoke ends.
    pub rim: Vec<Point>,
    /// The lines to draw, in drawing order.
    pub lines: Vec<Line>,
}

/// The points that the lines of a frame run between.
pub struct Figure {
    pub center: Point,
    pub hull: Seq<Point>,
    pub rim: Seq<Point>,
}

impl Figure {
    /// There is a rim point for each corner, and there is a corner.
    pub open spec fn valid(self) -> bool {
        0 < self.hull.len() == self.rim.len()
    }

    /// The corner before corner `i`; before the first one comes the last.
    pub open spec fn before(self, i: int) -> int {
        if i == 0 {
            self.hull.len() - 1
        } else {
            i - 1
        }
    }

    /// The line from corner `i` to the centre.
    pub open spec fn inner_spoke(self, colors: ColorSet, i: int) -> Line {
        Line { from: self.hull[i], to: self.center, color: colors.inner }
    }

    /// The line from corner `i` out to its rim point.
    pub open spec fn outer_spoke(self, colors: ColorSet, i: int) -> Line {
        Line { from: self.hull[i], to: self.rim[i], color: colors.outer }
    }

    /// The edge of the polygon from corner `i` back to the corner before it.
    pub open spec fn border_edge(self, colors: ColorSet, i: int) -> Line {
        Line { from: self.hull[i], to: self.hull[self.before(i)], color: colors.border }
    }

    /// The lines drawn when corner `i` is reached: its two spokes, and the edge
    /// back to the corner before it unless it is the first corner.
    pub open spec fn corner_lines(self, colors: ColorSet, i: int) -> Seq<Line> {
        if i == 0 {
            seq![self.inner_spoke(colors, i), self.outer_spoke(colors, i)]
        } else {
            seq![
                self.inner_spoke(colors, i),
                self.outer_spoke(colors, i),
                self.border_edge(colors, i),
            ]
        }
    }

    /// The lines drawn for the first `n` corners.
    pub open spec fn lines_through(self, colors: ColorSet, n: nat) -> Seq<Line>
        decreases n,
    {
        if n == 0 {
            Seq::empty()
        } else {
            self.lines_through(colors, (n - 1) as nat) + self.corner_lines(colors, n - 1)
        }
    }

    /// All lines of the figure in drawing order: corner after corner, and last
    /// the edge from the first corner back to the last, which closes the polygon.
    pub open spec fn lines(self, colors: ColorSet) -> Seq<Line> {
        self.lines_through(colors, self.hull.len()) + seq![self.border_edge(colors, 0)]
    }

    /// The first `n` corners take three lines each, but for the first, which has
    /// no edge yet.
    pub proof fn lemma_lines_through_len(self, colors: ColorSet, n: nat)
        ensures
            self.lines_through(colors, n).len() == if n == 0 {
                0
            } else {
                3 * n - 1
            },
        decreases n,
    {
        if n > 0 {
            self.lemma_lines_through_len(colors, (n - 1) as nat);
        }
    }

    /// Where the lines of corner `i` stand among the lines of the first `n`.
    pub proof fn lemma_lines_through_at(self, colors: ColorSet, n: nat, i: int)
        requires
            0 <= i < n,
        ensures
            self.lines_through(colors, n).len() == 3 * n - 1,
            i == 0 ==> {
                &&& self.lines_through(colors, n)[0] == self.inner_spoke(colors, 0)
                &&& self.lines_through(colors, n)[1] == self.outer_spoke(colors, 0)
            },
            i > 0 ==> {
                &&& self.lines_through(colors, n)[3 * i - 1] == self.inner_spoke(colors, i)
                &&& self.lines_through(colors, n)[3 * i] == self.outer_spoke(colors, i)
                &&& self.lines_through(colors, n)[3 * i + 1] == self.border_edge(colors, i)
            },
        decreases n,
    {
        self.lemma_lines_through_len(colors, n);
        self.lemma_lines_through_len(colors, (n - 1) as nat);
        if i < n - 1 {
            self.lemma_lines_through_at(colors, (n - 1) as nat, i);
        }
    }

    /// Whether `lines` close the polygon: three lines for each corner, among
    /// them for every corner the edge back to the corner before it, and as the
    /// very last line the edge from the first corner back to the last one.
    pub open spec fn closed_by(self, lines: Seq<Line>, colors: ColorSet) -> bool {
        &&& lines.len() == 3 * self.hull.len()
        &&& lines.last() == (Line {
            from: self.hull.first(),
            to: self.hull.last(),
            color: colors.border,
        })
        &&& forall|i: int|
            0 <= i < self.hull.len() ==> lines.contains(#[trigger] self.border_edge(colors, i))
    }

    /// The lines of a figure close its polygon.
    pub proof fn lemma_polygon_closed(self, colors: ColorSet)
        requires
            self.valid(),
        ensures
            self.closed_by(self.lines(colors), colors),
    {
        let n = self.hull.len();
        let all = self.lines(colors);
        self.lemma_lines_through_len(colors, n);
        assert forall|i: int| 0 <= i < n implies all.contains(
            #[trigger] self.border_edge(colors, i),
        ) by {
            if i == 0 {
                assert(all[3 * n - 1] == self.border_edge(colors, 0));
            } else {
                self.lemma_lines_through_at(colors, n, i);
                assert(all[3 * i + 1] == self.border_edge(colors, i));
            }
        }
    }

    /// Every corner has its two spokes among the lines.
    pub proof fn lemma_spokes_drawn(self, colors: ColorSet, i: int)
        requires
            self.valid(),
            0 <= i < self.hull.len(),
        ensures
            self.lines(colors).contains(self.inner_spoke(colors, i)),
            self.lines(colors).contains(self.outer_spoke(colors, i)),
    {
        let n = self.hull.len();
        let all = self.lines(colors);
        self.lemma_lines_through_at(colors, n, i);
        if i == 0 {
            assert(all[0] == self.inner_spoke(colors, 0));
            assert(all[1] == self.outer_spoke(colors, 0));
        } else {
            assert(all[3 * i - 1] == self.inner_spoke(colors, i));
            assert(all[3 * i] == self.outer_spoke(colors, i));
        }
    }
}

impl Frame {
    /// The points of this frame.
    pub open spec fn figure(self) -> Figure {
        Figure { center: self.center, hull: self.hull@, rim: self.rim@ }
    }

    /// Whether this frame is the one that the parameters, the colours, the screen
    /// and the samples give.
    pub open spec fn shows(
        self,
        m: ShapeModel,
        colors: ColorSet,
        screen: Screen,
        samples: Seq<Sample>,
    ) -> bool {
        &&& self.background == colors.background
        &&& self.center.x == screen.center_x()
        &&& self.center.y == screen.center_y()
        &&& self.hull@.len() == corner_count(m.segments)
        &&& is_hull(self.hull@, m, screen, samples)
        &&& is_rim(self.rim@, screen, samples)
        &&& self.lines@ == self.figure().lines(colors)
    }
}

/// The same numbers, colours, screen and samples give the same frame: the same
/// background, centre, corners, rim and lines.
pub proof fn lemma_frame_unique(
    first: Frame,
    second: Frame,
    m: ShapeModel,
    colors: ColorSet,
    screen: Screen,
    samples: Seq<Sample>,
)
    requires
        first.shows(m, colors, screen, samples),
        second.shows(m, colors, screen, samples),
    ensures
        first.background == second.background,
        first.center == second.center,
        first.hull@ == second.hull@,
        first.rim@ == second.rim@,
        first.lines@ == second.lines@,
{
    lemma_hull_unique(first.hull@, second.hull@, m, screen, samples);
    lemma_rim_unique(first.rim@, second.rim@, screen, samples);
}

/// The lines between the given points, in drawing order.
fn draw_list(center: Point, hull: &Vec<Point>, rim: &Vec<Point>, colors: &ColorSet) -> (lines: Vec<
    Line,
>)
    requires
        0 < hull@.len() == rim@.len(),
    ensures
        lines@ == (Figure { center, hull: hull@, rim: rim@ }).lines(*colors),
{
    let ghost figure = Figure { center, hull: hull@, rim: rim@ };
    let mut lines: Vec<Line> = Vec::new();
    let mut i: usize = 0;
    while i < hull.len()
        invariant
            i <= hull@.len() == rim@.len(),
            figure == (Figure { center, hull: hull@, rim: rim@ }),
            lines@ == figure.lines_through(*colors, i as nat),
        decreases hull@.len() - i,
    {
        lines.push(Line { from: hull[i], to: center, color: colors.inner });
        lines.push(Line { from: hull[i], to: rim[i], color: colors.outer });
        if i > 0 {
            lines.push(Line { from: hull[i], to: hull[i - 1], color: colors.border });
        }
        proof {
            assert(lines@ =~= figure.lines_through(*colors, i as nat) + figure.corner_lines(
                *colors,
                i as int,
            ));
        }
        i += 1;
    }
    lines.push(Line { from: hull[0], to: hull[hull.len() - 1], color: colors.border });
    lines
}

/// The frame that the parameters, the colours, the screen and the samples give.
/// There have to be as many samples as the parameters ask for corners, and never
/// fewer than three.
pub fn render(
    shape: &ShapeParameters,
    colors: &ColorSet,
    screen: Screen,
    samples: &Vec<Sample>,
) -> (made: Result<Frame, FrameError>)
    ensures
        made is Ok <==> samples@.len() == corner_count(shape@.segments),
        made matches Ok(frame) ==> {
            &&& frame.shows(shape@, *colors, screen, samples@)
            &&& frame.figure().closed_by(frame.lines@, *colors)
        },
        made matches Err(e) ==> e == FrameError::SampleCount,
{
    match hull(shape, screen, samples) {
        Ok(corners) => {
            let center: Point = screen.center();
            let rim_points: Vec<Point> = rim(screen, samples);
            let lines: Vec<Line> = draw_list(center, &corners, &rim_points, colors);
            proof {
                (Figure { center, hull: corners@, rim: rim_points@ }).lemma_polygon_closed(*colors);
            }
            Ok(Frame { background: colors.background, center, hull: corners, rim: rim_points, lines })
        },
        Err(e) => Err(e),
    }
}

} // verus!
