//! The vertex set and the chaos iterator: random placement, the
//! choose-and-midpoint recurrence, and the tracer history it maintains.

use vstd::prelude::*;
use crate::point;
use crate::point::Color;
use crate::point::Point;
use crate::point::SCREEN_HEIGHT;
use crate::point::SCREEN_WIDTH;
use crate::point::TRACER_SIDE;
use crate::point::green_spec;
use crate::point::in_box;
use crate::point::in_screen;
use crate::point::marker_styled;
use crate::point::midpoint_spec;
use crate::point::tracer_styled;
use crate::rng;

verus! {

/// Number of vertices in the default configuration (a Sierpinski triangle).
pub const DEFAULT_VERTICES: usize = 3;

/// Side length of the square drawn for a vertex marker in the default
/// configuration.
pub const VERTEX_SIDE: u32 = 10;

/// Whether the game keeps every tracer point ever produced, for renderers
/// that redraw the whole trail each frame, or only the most recent one, for
/// renderers that draw incrementally onto a persistent frame buffer.
#[derive(Clone, Copy, Debug, PartialEq, Eq, Structural)]
pub enum HistoryMode {
    Full,
    LastOnly,
}

/// The one error of the core: a configuration that would leave the
/// recurrence without a vertex to choose from. It is rejected once, at
/// construction, so every later step can assume a non-empty vertex set.
#[derive(Clone, Copy, Debug, PartialEq, Eq, Structural)]
pub enum InvariantViolation {
    EmptyVertexSet,
}

/// A freshly placed point: coordinates drawn independently and uniformly
/// from the screen's coordinate ranges, with the given marker attributes.
pub fn random_point(width: u32, height: u32, color: Color) -> (p: Point)
    ensures
        in_screen(p),
        marker_styled(p, width, height, color),
{
    let x = rng::sample_below(SCREEN_WIDTH);
    let y = rng::sample_below(SCREEN_HEIGHT);
    Point { x, y, width, height, color }
}

/// The fixed anchor points of the game: at least one, placed once at
/// initialization and never mutated, reordered or removed thereafter.
#[derive(Debug)]
pub struct VertexSet {
    points: Vec<Point>,
}

impl View for VertexSet {
    type V = Seq<Point>;

    closed spec fn view(&self) -> Seq<Point> {
        self.points@
    }
}

impl VertexSet {
    /// `count` points placed uniformly at random on the screen, all sharing
    /// the given marker attributes. A count of zero is rejected here, once,
    /// as the configuration defect it is.
    pub fn initialize(
        count: usize,
        marker_width: u32,
        marker_height: u32,
        marker_color: Color,
    ) -> (r: Result<VertexSet, InvariantViolation>)
        ensures
            r is Ok <==> count >= 1,
            r is Err ==> r->Err_0 == InvariantViolation::EmptyVertexSet,
            r is Ok ==> (r->Ok_0)@.len() == count,
            r is Ok ==> forall|i: int|
                0 <= i < count ==> in_screen(#[trigger] (r->Ok_0)@[i]) && marker_styled(
                    (r->Ok_0)@[i],
                    marker_width,
                    marker_height,
                    marker_color,
                ),
    {
        if count == 0 {
            return Err(InvariantViolation::EmptyVertexSet);
        }
        let mut points: Vec<Point> = Vec::new();
        let mut i: usize = 0;
        while i < count
            invariant
                i <= count,
                points@.len() == i,
                forall|j: int|
                    0 <= j < i ==> in_screen(#[trigger] points@[j]) && marker_styled(
                        points@[j],
                        marker_width,
                        marker_height,
                        marker_color,
                    ),
            decreases count - i,
        {
            points.push(random_point(marker_width, marker_height, marker_color));
            i += 1;
        }
        Ok(VertexSet { points })
    }

    /// A vertex set with exactly the given points, in the given order; an
    /// empty sequence is rejected as at `initialize`.
    pub fn from_points(points: Vec<Point>) -> (r: Result<VertexSet, InvariantViolation>)
        ensures
            r is Ok <==> points@.len() >= 1,
            r is Err ==> r->Err_0 == InvariantViolation::EmptyVertexSet,
            r is Ok ==> (r->Ok_0)@ == points@,
    {
        if points.len() == 0 {
            Err(InvariantViolation::EmptyVertexSet)
        } else {
            Ok(VertexSet { points })
        }
    }

    /// How many vertices the set holds.
    pub fn len(&self) -> (n: usize)
        ensures
            n == self@.len(),
    {
        self.points.len()
    }

    /// The vertex at position `i`.
    pub fn get(&self, i: usize) -> (p: Point)
        requires
            i < self@.len(),
        ensures
            p == self@[i as int],
    {
        self.points[i]
    }

    /// Draw one vertex uniformly at random, with replacement, independently
    /// of earlier draws. Whichever value the random source yields, the
    /// result is an element of the set.
    pub fn pick_vertex(&self) -> (p: Point)
        requires
            self@.len() >= 1,
        ensures
            exists|i: int| 0 <= i < self@.len() && p == self@[i],
    {
        match rng::choose_point(&self.points) {
            Some(p) => p,
            None => vstd::pervasive::unreached(),
        }
    }
}

/// The chaos iterator: a fixed vertex set and the tracer history the
/// recurrence grows. The history is never empty, and under `LastOnly` it
/// holds exactly the current point.
pub struct ChaosGame {
    vertices: VertexSet,
    history: Vec<Point>,
    mode: HistoryMode,
}

impl ChaosGame {
    /// The anchor points, in initialization order.
    pub closed spec fn vertices_seq(&self) -> Seq<Point> {
        self.vertices@
    }

    /// Every retained tracer point, oldest first.
    pub closed spec fn history_seq(&self) -> Seq<Point> {
        self.history@
    }

    /// The configured history policy.
    pub closed spec fn mode_spec(&self) -> HistoryMode {
        self.mode
    }

    /// The current tracer point: the last element of the history.
    pub open spec fn current_spec(&self) -> Point {
        self.history_seq().last()
    }

    /// Well-formedness: a vertex to choose from always exists, the history
    /// starts with the seed and never empties, and under `LastOnly` it never
    /// holds more than the current point.
    pub open spec fn wf(&self) -> bool {
        &&& self.vertices_seq().len() >= 1
        &&& self.history_seq().len() >= 1
        &&& (self.mode_spec() is LastOnly ==> self.history_seq().len() == 1)
    }

    /// The default configuration: three green 10 x 10 vertex markers and a
    /// white 1 x 1 seed tracer, each placed uniformly at random on the
    /// screen.
    pub fn load(mode: HistoryMode) -> (g: ChaosGame)
        ensures
            g.wf(),
            g.mode_spec() == mode,
            g.vertices_seq().len() == DEFAULT_VERTICES,
            forall|i: int|
                0 <= i < g.vertices_seq().len() ==> in_screen(#[trigger] g.vertices_seq()[i])
                    && marker_styled(g.vertices_seq()[i], VERTEX_SIDE, VERTEX_SIDE, green_spec()),
            g.history_seq().len() == 1,
            in_screen(g.current_spec()),
            tracer_styled(g.current_spec()),
    {
        let vertices = match VertexSet::initialize(
            DEFAULT_VERTICES,
            VERTEX_SIDE,
            VERTEX_SIDE,
            Color::green(),
        ) {
            Ok(v) => v,
            Err(_) => vstd::pervasive::unreached(),
        };
        let seed = random_point(TRACER_SIDE, TRACER_SIDE, Color::white());
        let mut history: Vec<Point> = Vec::new();
        history.push(seed);
        ChaosGame { vertices, history, mode }
    }

    /// A game over explicitly given vertices, seed tracer and policy: the
    /// entry point for deterministic configurations.
    pub fn from_parts(vertices: VertexSet, seed: Point, mode: HistoryMode) -> (g: ChaosGame)
        requires
            vertices@.len() >= 1,
        ensures
            g.wf(),
            g.vertices_seq() == vertices@,
            g.history_seq() == seq![seed],
            g.current_spec() == seed,
            g.mode_spec() == mode,
    {
        let mut history: Vec<Point> = Vec::new();
        history.push(seed);
        proof {
            assert(history@ =~= seq![seed]);
        }
        ChaosGame { vertices, history, mode }
    }

    /// Advance one step toward a caller-chosen target: the produced point is
    /// the midpoint of the current tracer point and `target`, carries the
    /// fixed tracer attributes, and is recorded according to the history
    /// policy — appended under `Full`, replacing the stored point under
    /// `LastOnly`. Nothing else changes.
    pub fn step_toward(&mut self, target: Point)
        requires
            old(self).wf(),
        ensures
            final(self).wf(),
            final(self).vertices_seq() == old(self).vertices_seq(),
            final(self).mode_spec() == old(self).mode_spec(),
            final(self).current_spec() == midpoint_spec(old(self).current_spec(), target),
            old(self).mode_spec() is Full ==> final(self).history_seq() == old(
                self,
            ).history_seq().push(midpoint_spec(old(self).current_spec(), target)),
            old(self).mode_spec() is LastOnly ==> final(self).history_seq() == seq![
                midpoint_spec(old(self).current_spec(), target),
            ],
    {
        let n = self.history.len();
        let origin = self.history[n - 1];
        let next = point::midpoint(&origin, &target);
        match self.mode {
            HistoryMode::Full => {
                self.history.push(next);
            },
            HistoryMode::LastOnly => {
                self.history.clear();
                self.history.push(next);
                proof {
                    assert(self.history@ =~= seq![next]);
                }
            },
        }
    }

    /// Advance the recurrence by one iteration: choose a vertex uniformly at
    /// random and move to the midpoint between the current tracer point and
    /// that vertex. The produced point carries the fixed tracer attributes;
    /// under `Full` it is appended — the history grows by exactly one and no
    /// earlier point is touched — and under `LastOnly` it replaces the
    /// stored point.
    pub fn step(&mut self)
        requires
            old(self).wf(),
        ensures
            final(self).wf(),
            final(self).vertices_seq() == old(self).vertices_seq(),
            final(self).mode_spec() == old(self).mode_spec(),
            exists|i: int|
                0 <= i < old(self).vertices_seq().len() && final(self).current_spec()
                    == midpoint_spec(old(self).current_spec(), #[trigger] old(self).vertices_seq()[i]),
            tracer_styled(final(self).current_spec()),
            old(self).mode_spec() is Full ==> final(self).history_seq() == old(
                self,
            ).history_seq().push(final(self).current_spec()),
            old(self).mode_spec() is Full ==> final(self).history_seq().len() == old(
                self,
            ).history_seq().len() + 1,
            old(self).mode_spec() is Full ==> forall|j: int|
                0 <= j < old(self).history_seq().len() ==> final(self).history_seq()[j] == old(
                    self,
                ).history_seq()[j],
            old(self).mode_spec() is LastOnly ==> final(self).history_seq() == seq![
                final(self).current_spec(),
            ],
    {
        let target = self.vertices.pick_vertex();
        self.step_toward(target);
    }

    /// The current tracer point.
    pub fn current(&self) -> (p: Point)
        requires
            self.wf(),
        ensures
            p == self.current_spec(),
    {
        let n = self.history.len();
        self.history[n - 1]
    }

    /// How many vertices the game has.
    pub fn vertex_count(&self) -> (n: usize)
        ensures
            n == self.vertices_seq().len(),
    {
        self.vertices.len()
    }

    /// The vertex at position `i`.
    pub fn vertex_at(&self, i: usize) -> (p: Point)
        requires
            i < self.vertices_seq().len(),
        ensures
            p == self.vertices_seq()[i as int],
    {
        self.vertices.get(i)
    }

    /// How many tracer points the history holds.
    pub fn history_len(&self) -> (n: usize)
        ensures
            n == self.history_seq().len(),
    {
        self.history.len()
    }

    /// The tracer point at position `i` of the history, oldest first.
    pub fn history_at(&self, i: usize) -> (p: Point)
        requires
            i < self.history_seq().len(),
        ensures
            p == self.history_seq()[i as int],
    {
        self.history[i]
    }

    /// The configured history policy.
    pub fn mode(&self) -> (m: HistoryMode)
        ensures
            m == self.mode_spec(),
    {
        self.mode
    }

    /// Everything that should currently be drawn: the vertex markers first,
    /// then the retained tracer points in production order.
    pub fn renderable_points(&self) -> (r: Vec<Point>)
        ensures
            r@ == self.vertices_seq() + self.history_seq(),
    {
        let mut r: Vec<Point> = Vec::new();
        let mut i: usize = 0;
        while i < self.vertices.points.len()
            invariant
                i <= self.vertices.points@.len(),
                r@ == self.vertices.points@.subrange(0, i as int),
            decreases self.vertices.points@.len() - i,
        {
            r.push(self.vertices.points[i]);
            proof {
                assert(r@ =~= self.vertices.points@.subrange(0, i + 1));
            }
            i += 1;
        }
        proof {
            assert(r@ =~= self.vertices.points@);
        }
        let mut j: usize = 0;
        while j < self.history.len()
            invariant
                j <= self.history@.len(),
                r@ == self.vertices.points@ + self.history@.subrange(0, j as int),
            decreases self.history@.len() - j,
        {
            r.push(self.history[j]);
            proof {
                assert(r@ =~= self.vertices.points@ + self.history@.subrange(0, j + 1));
            }
            j += 1;
        }
        proof {
            assert(r@ =~= self.vertices.points@ + self.history@);
        }
        r
    }
}

/// Law (containment): whichever vertex the random source picks, one step
/// never leaves an axis-aligned box that contains the current tracer point
/// and every vertex. By induction over the steps, the whole tracer trail
/// stays inside every such box — the screen included, whenever the seed and
/// all vertices are on screen.
pub proof fn lemma_step_containment(
    g: ChaosGame,
    i: int,
    x_lo: int,
    x_hi: int,
    y_lo: int,
    y_hi: int,
)
    requires
        0 <= i < g.vertices_seq().len(),
        in_box(g.current_spec(), x_lo, x_hi, y_lo, y_hi),
        forall|j: int|
            0 <= j < g.vertices_seq().len() ==> in_box(
                #[trigger] g.vertices_seq()[j],
                x_lo,
                x_hi,
                y_lo,
                y_hi,
            ),
    ensures
        in_box(midpoint_spec(g.current_spec(), g.vertices_seq()[i]), x_lo, x_hi, y_lo, y_hi),
{
    point::lemma_midpoint_containment(
        g.current_spec(),
        g.vertices_seq()[i],
        x_lo,
        x_hi,
        y_lo,
        y_hi,
    );
}

} // verus!
