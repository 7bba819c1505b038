//! The graph embedding and interaction engine.
//!
//! Owns per-vertex and per-edge visual state, performs pointer hit-testing,
//! drives the gesture classifier, applies force and alignment passes through
//! a common clamping integrator, and keeps a navigable history of edge
//! highlight sets.
//!
//! The engine consumes plain per-frame samples (pointer position, button
//! flag, time in milliseconds) and plain force vectors; the caller computes
//! the floating-point force magnitudes and the initial ring layout, which
//! the integer engine cannot express.

use crate::geometry::{
    clamp_i64, dist_sq, lemma_mul_bound, lemma_sq_bound, spec_clamp, spec_dist_sq, sq, Point,
    COORD_LIMIT,
};
use crate::gesture::{spec_click_fired, spec_is_drag, spec_press_after, ClickHandler};
use crate::graph::Graph;
use vstd::prelude::*;

verus! {

/// Radius of the filled part of a drawn vertex.
pub const DEFAULT_VERTEX_MAIN_SIZE: i64 = 12;
/// Extra radius of the border ring around a drawn vertex.
pub const DEFAULT_VERTEX_BORDER_SIZE: i64 = 5;
/// Hit radius of a vertex: main size plus border size.
pub const DEFAULT_VERTEX_RADIUS: i64 = 17;
/// Width of a drawn edge, also its hit distance.
pub const DEFAULT_EDGE_WIDTH: i64 = 5;
/// Bound on each per-vertex force component fed to the integrator.
pub const FORCE_LIMIT: i64 = 1_099_511_627_776;

/// Visibility and emphasis of a vertex or edge.
#[derive(Clone, Copy, PartialEq, Eq, Structural, Debug)]
pub enum DrawState {
    Default,
    Highlighted,
    Unhighlighted,
    Hidden,
}

/// One step of the click-triggered cycle
/// Default -> Highlighted -> Unhighlighted -> Hidden -> Default.
pub open spec fn spec_cycle(s: DrawState) -> DrawState {
    match s {
        DrawState::Default => DrawState::Highlighted,
        DrawState::Highlighted => DrawState::Unhighlighted,
        DrawState::Unhighlighted => DrawState::Hidden,
        DrawState::Hidden => DrawState::Default,
    }
}

/// Applying the draw-state cycle four times returns every state to itself.
pub proof fn lemma_draw_state_cycle(s: DrawState)
    ensures
        spec_cycle(spec_cycle(spec_cycle(spec_cycle(s)))) == s,
{
}

/// Visual state of one vertex.
#[derive(Clone, Copy, PartialEq, Eq, Structural, Debug)]
pub struct VertexProperties {
    pub position: Point,
    pub radius: i64,
    pub draw_state: DrawState,
}

/// The vertex a fresh entry gets: origin position, default hit radius.
pub open spec fn default_vertex_properties() -> VertexProperties {
    VertexProperties {
        position: Point { x: 0, y: 0 },
        radius: DEFAULT_VERTEX_RADIUS as i64,
        draw_state: DrawState::Default,
    }
}

impl VertexProperties {
    pub open spec fn wf(self) -> bool {
        self.position.in_range() && 0 <= self.radius <= COORD_LIMIT
    }

    /// Advances the draw state one step along the cycle.
    pub fn cycle_drawstate(&mut self)
        ensures
            final(self).draw_state == spec_cycle(old(self).draw_state),
            final(self).position == old(self).position,
            final(self).radius == old(self).radius,
    {
        self.draw_state = match self.draw_state {
            DrawState::Default => DrawState::Highlighted,
            DrawState::Highlighted => DrawState::Unhighlighted,
            DrawState::Unhighlighted => DrawState::Hidden,
            DrawState::Hidden => DrawState::Default,
        }
    }
}

impl Default for VertexProperties {
    fn default() -> (r: Self)
        ensures
            r == default_vertex_properties(),
    {
        VertexProperties {
            position: Point { x: 0, y: 0 },
            radius: DEFAULT_VERTEX_RADIUS,
            draw_state: DrawState::Default,
        }
    }
}

/// Visual state of one edge; `vertices` are the endpoint indices.
#[derive(Clone, Copy, PartialEq, Eq, Debug)]
pub struct EdgeProperties {
    pub vertices: (usize, usize),
    pub width: i64,
    pub draw_state: DrawState,
}

/// The edge state a fresh entry gets for the given endpoints.
pub open spec fn default_edge_properties(vertices: (usize, usize)) -> EdgeProperties {
    EdgeProperties { vertices, width: DEFAULT_EDGE_WIDTH as i64, draw_state: DrawState::Default }
}

impl EdgeProperties {
    pub open spec fn wf(self) -> bool {
        0 <= self.width <= COORD_LIMIT
    }

    /// Advances the draw state one step along the cycle.
    pub fn cycle_drawstate(&mut self)
        ensures
            final(self).draw_state == spec_cycle(old(self).draw_state),
            final(self).vertices == old(self).vertices,
            final(self).width == old(self).width,
    {
        self.draw_state = match self.draw_state {
            DrawState::Default => DrawState::Highlighted,
            DrawState::Highlighted => DrawState::Unhighlighted,
            DrawState::Unhighlighted => DrawState::Hidden,
            DrawState::Hidden => DrawState::Default,
        }
    }
}

impl Default for EdgeProperties {
    fn default() -> (r: Self)
        ensures
            r == default_edge_properties((0usize, 0usize)),
    {
        EdgeProperties {
            vertices: (0, 0),
            width: DEFAULT_EDGE_WIDTH,
            draw_state: DrawState::Default,
        }
    }
}

/// Present exactly while a vertex is being dragged.
#[derive(Clone, Copy, PartialEq, Eq, Structural, Debug)]
pub struct DragState {
    pub vertex: usize,
    pub mouse_position: Point,
}

/// The position a vertex takes in lookups: its stored position, or the zero
/// vector as a sentinel for an out-of-range index.
pub open spec fn spec_position_in(props: Seq<VertexProperties>, i: int) -> Point {
    if 0 <= i < props.len() {
        props[i].position
    } else {
        Point { x: 0, y: 0 }
    }
}

/// Whether the pointer at `p` hits vertex `i`: its distance to the stored
/// position is strictly below the vertex's hit radius.
pub open spec fn spec_vertex_hit(props: Seq<VertexProperties>, i: int, p: Point) -> bool {
    spec_dist_sq(p, props[i].position) < sq(props[i].radius as int)
}

/// First vertex at index `i` or later hit by `p`, lowest index first.
pub open spec fn spec_vertex_at_from(props: Seq<VertexProperties>, p: Point, i: int) -> Option<
    usize,
>
    decreases props.len() - i,
{
    if i < 0 || i >= props.len() {
        None
    } else if spec_vertex_hit(props, i, p) {
        Some(i as usize)
    } else {
        spec_vertex_at_from(props, p, i + 1)
    }
}

/// First vertex hit by `p`, lowest index first.
pub open spec fn spec_vertex_at(props: Seq<VertexProperties>, p: Point) -> Option<usize> {
    spec_vertex_at_from(props, p, 0)
}

/// Whether the pointer at `p` hits edge `j`: `p` lies in the edge's
/// width-padded bounding box and closer to the infinite line through the
/// endpoints than the edge's width. (This is a line test, not a segment
/// test: points beyond the segment's ends that are inside the bounding box
/// and near the line count as hits.)
pub open spec fn spec_edge_hit(
    eprops: Seq<EdgeProperties>,
    vprops: Seq<VertexProperties>,
    j: int,
    p: Point,
) -> bool {
    let e = eprops[j];
    let s = spec_position_in(vprops, e.vertices.0 as int);
    let t = spec_position_in(vprops, e.vertices.1 as int);
    let w = e.width as int;
    let min_x = if s.x <= t.x { s.x } else { t.x };
    let max_x = if s.x <= t.x { t.x } else { s.x };
    let min_y = if s.y <= t.y { s.y } else { t.y };
    let max_y = if s.y <= t.y { t.y } else { s.y };
    let a = t.x - s.x;
    let b = t.y - s.y;
    let c = a * (s.y - p.y) - (s.x - p.x) * b;
    &&& min_x - w <= p.x <= max_x + w
    &&& min_y - w <= p.y <= max_y + w
    &&& sq(a) + sq(b) > 0
    &&& sq(c) < sq(w) * (sq(a) + sq(b))
}

/// First edge at index `j` or later hit by `p`, lowest index first.
pub open spec fn spec_edge_at_from(
    eprops: Seq<EdgeProperties>,
    vprops: Seq<VertexProperties>,
    p: Point,
    j: int,
) -> Option<usize>
    decreases eprops.len() - j,
{
    if j < 0 || j >= eprops.len() {
        None
    } else if spec_edge_hit(eprops, vprops, j, p) {
        Some(j as usize)
    } else {
        spec_edge_at_from(eprops, vprops, p, j + 1)
    }
}

/// First edge hit by `p`, lowest index first.
pub open spec fn spec_edge_at(
    eprops: Seq<EdgeProperties>,
    vprops: Seq<VertexProperties>,
    p: Point,
) -> Option<usize> {
    spec_edge_at_from(eprops, vprops, p, 0)
}

/// The position a dragged vertex takes: the old position translated by the
/// pointer delta since the last sample, confined to the coordinate range.
pub open spec fn spec_drag_position(old_pos: Point, last: Point, mouse: Point) -> Point {
    Point {
        x: spec_clamp(old_pos.x + mouse.x - last.x, -COORD_LIMIT as int, COORD_LIMIT as int) as i64,
        y: spec_clamp(old_pos.y + mouse.y - last.y, -COORD_LIMIT as int, COORD_LIMIT as int) as i64,
    }
}

/// Cursor movement of the highlight history: the target index of one
/// forward step, kept only if it stays within bounds.
pub open spec fn spec_next_cursor(cur: Option<usize>, len: nat) -> Option<usize> {
    let target: int = match cur {
        Some(i) => i + 1,
        None => 0,
    };
    if target < len {
        Some(target as usize)
    } else {
        cur
    }
}

/// Cursor movement of the highlight history: the target index of one
/// backward step, kept only if it exists.
pub open spec fn spec_previous_cursor(cur: Option<usize>, len: nat) -> Option<usize> {
    match cur {
        Some(i) => if i >= 1 {
            Some((i - 1) as usize)
        } else {
            cur
        },
        None => if len >= 1 {
            Some((len - 1) as usize)
        } else {
            cur
        },
    }
}

/// The engine state: all vertex/edge/drag/gesture/history state of one
/// embedded graph, plus the canvas rectangle the integrator clamps into.
pub struct GraphInterface {
    pub vertex_properties: Vec<VertexProperties>,
    pub edge_properties: Vec<EdgeProperties>,
    pub dragged_vertex: Option<usize>,
    pub hovered_vertex: Option<usize>,
    pub hovered_edge: Option<usize>,
    pub canvas_width: i64,
    pub canvas_height: i64,
    pub drag_state: Option<DragState>,
    pub click_handler: ClickHandler,
    pub highlight_graph_history: Vec<Graph>,
    pub current_highlight_graph: Option<usize>,
}

impl GraphInterface {
    /// The recorded highlight history.
    pub open spec fn history(&self) -> Seq<Graph> {
        self.highlight_graph_history@
    }

    /// The active drag, as (vertex index, last pointer position).
    pub open spec fn drag_state_view(&self) -> Option<(usize, Point)> {
        match self.drag_state {
            Some(d) => Some((d.vertex, d.mouse_position)),
            None => None,
        }
    }

    /// The gesture classifier state.
    pub open spec fn gesture(&self) -> ClickHandler {
        self.click_handler
    }

    /// Consistency of the private state: the drag record points at a real
    /// vertex and mirrors the public dragged-vertex field, the history
    /// cursor is in bounds, and the recorded press is in range.
    pub open spec fn inner_wf(&self) -> bool {
        &&& match self.drag_state {
            Some(d) => {
                &&& d.vertex < self.vertex_properties@.len()
                &&& d.mouse_position.in_range()
                &&& self.dragged_vertex == Some(d.vertex)
            },
            None => self.dragged_vertex is None,
        }
        &&& self.click_handler.wf()
        &&& match self.current_highlight_graph {
            Some(i) => i < self.highlight_graph_history@.len(),
            None => true,
        }
    }

    /// Well-formedness: every stored coordinate, radius and width is in the
    /// engine's coordinate range, the canvas rectangle is sane, and the
    /// private state is consistent.
    pub open spec fn wf(&self) -> bool {
        &&& forall|i: int|
            0 <= i < self.vertex_properties@.len() ==> (
            #[trigger] self.vertex_properties@[i]).wf()
        &&& forall|j: int|
            0 <= j < self.edge_properties@.len() ==> (#[trigger] self.edge_properties@[j]).wf()
        &&& 0 <= self.canvas_width <= COORD_LIMIT
        &&& 0 <= self.canvas_height <= COORD_LIMIT
        &&& self.inner_wf()
    }

    /// The sample clock has not run backwards past the recorded press.
    pub open spec fn time_ok(&self, now_ms: u64) -> bool {
        self.click_handler.time_ok(now_ms)
    }

    /// Builds the embedding of `graph`: vertex `i` starts at `layout[i]`
    /// (the caller lays the vertices out on a ring), edge states are derived
    /// one to one from the graph's edge list, and all interaction and
    /// history state starts empty.
    pub fn new(graph: &Graph, layout: &Vec<Point>, canvas_width: i64, canvas_height: i64) -> (e:
        GraphInterface)
        requires
            layout@.len() == graph.vertices,
            forall|i: int| 0 <= i < layout@.len() ==> (#[trigger] layout@[i]).in_range(),
            0 <= canvas_width <= COORD_LIMIT,
            0 <= canvas_height <= COORD_LIMIT,
        ensures
            e.wf(),
            e.vertex_properties@.len() == graph.vertices,
            forall|i: int|
                0 <= i < graph.vertices ==> #[trigger] e.vertex_properties@[i]
                    == (VertexProperties {
                    position: layout@[i],
                    radius: DEFAULT_VERTEX_RADIUS as i64,
                    draw_state: DrawState::Default,
                }),
            e.edge_properties@.len() == graph.edges@.len(),
            forall|j: int|
                0 <= j < graph.edges@.len() ==> #[trigger] e.edge_properties@[j]
                    == default_edge_properties(graph.edges@[j]),
            e.dragged_vertex is None,
            e.hovered_vertex is None,
            e.hovered_edge is None,
            e.drag_state_view() is None,
            e.history() == Seq::<Graph>::empty(),
            e.current_highlight_graph is None,
            e.canvas_width == canvas_width,
            e.canvas_height == canvas_height,
            !e.gesture().click_fired(),
            e.gesture().press() is None,
            forall|t: u64| e.time_ok(t),
    {
        let mut vertex_properties: Vec<VertexProperties> = Vec::new();
        let mut i: usize = 0;
        while i < layout.len()
            invariant
                i <= layout@.len(),
                layout@.len() == graph.vertices,
                forall|t: int| 0 <= t < layout@.len() ==> (#[trigger] layout@[t]).in_range(),
                vertex_properties@.len() == i,
                forall|t: int|
                    0 <= t < i ==> #[trigger] vertex_properties@[t] == (VertexProperties {
                        position: layout@[t],
                        radius: DEFAULT_VERTEX_RADIUS as i64,
                        draw_state: DrawState::Default,
                    }),
            decreases layout@.len() - i,
        {
            vertex_properties.push(
                VertexProperties {
                    position: layout[i],
                    radius: DEFAULT_VERTEX_RADIUS,
                    draw_state: DrawState::Default,
                },
            );
            i += 1;
        }

        let edge_properties = derive_edge_properties(graph);

        GraphInterface {
            vertex_properties,
            edge_properties,
            dragged_vertex: None,
            hovered_vertex: None,
            hovered_edge: None,
            canvas_width,
            canvas_height,
            drag_state: None,
            click_handler: ClickHandler::new(),
            highlight_graph_history: Vec::new(),
            current_highlight_graph: None,
        }
    }

    /// Replaces the edge states from a new edge list, leaving every vertex
    /// position (and all other state) untouched. This is the documented
    /// "keep vertex positions" re-import mode.
    pub fn update_edges(&mut self, graph: &Graph)
        requires
            old(self).wf(),
        ensures
            final(self).wf(),
            final(self).edge_properties@.len() == graph.edges@.len(),
            forall|j: int|
                0 <= j < graph.edges@.len() ==> #[trigger] final(self).edge_properties@[j]
                    == default_edge_properties(graph.edges@[j]),
            final(self).vertex_properties@ == old(self).vertex_properties@,
            final(self).dragged_vertex == old(self).dragged_vertex,
            final(self).hovered_vertex == old(self).hovered_vertex,
            final(self).hovered_edge == old(self).hovered_edge,
            final(self).drag_state_view() == old(self).drag_state_view(),
            final(self).gesture() == old(self).gesture(),
            final(self).history() == old(self).history(),
            final(self).current_highlight_graph == old(self).current_highlight_graph,
            final(self).canvas_width == old(self).canvas_width,
            final(self).canvas_height == old(self).canvas_height,
    {
        self.edge_properties = derive_edge_properties(graph);
    }

    /// The vertex's stored position, or the zero vector for an out-of-range
    /// index (a sentinel, not an error).
    pub fn get_position(&self, vertex: usize) -> (p: Point)
        ensures
            p == spec_position_in(self.vertex_properties@, vertex as int),
    {
        if vertex < self.vertex_properties.len() {
            self.vertex_properties[vertex].position
        } else {
            Point::zero()
        }
    }

    /// Overwrites the vertex's position in place, or — for an index beyond
    /// the current length — grows the collection with default entries up to
    /// and including that index (a quirk kept for compatibility; intended
    /// callers never pass an out-of-range index).
    pub fn set_position(&mut self, vertex: usize, position: Point)
        requires
            old(self).wf(),
            position.in_range(),
            vertex < usize::MAX,
        ensures
            final(self).wf(),
            vertex < old(self).vertex_properties@.len() ==> final(self).vertex_properties@ == old(self).vertex_properties@.update(
                vertex as int,
                (VertexProperties {
                    position,
                    ..old(self).vertex_properties@[vertex as int]
                }),
            ),
            vertex >= old(self).vertex_properties@.len() ==> {
                &&& final(self).vertex_properties@.len() == vertex + 1
                &&& forall|i: int|
                    0 <= i < old(self).vertex_properties@.len() ==> #[trigger] final(self).vertex_properties@[i] == old(self).vertex_properties@[i]
                &&& forall|i: int|
                    old(self).vertex_properties@.len() <= i < vertex ==> #[trigger] final(self).vertex_properties@[i] == default_vertex_properties()
                &&& final(self).vertex_properties@[vertex as int] == (VertexProperties {
                    position,
                    radius: DEFAULT_VERTEX_RADIUS as i64,
                    draw_state: DrawState::Default,
                })
            },
            final(self).edge_properties@ == old(self).edge_properties@,
            final(self).dragged_vertex == old(self).dragged_vertex,
            final(self).hovered_vertex == old(self).hovered_vertex,
            final(self).hovered_edge == old(self).hovered_edge,
            final(self).drag_state_view() == old(self).drag_state_view(),
            final(self).gesture() == old(self).gesture(),
            final(self).history() == old(self).history(),
            final(self).current_highlight_graph == old(self).current_highlight_graph,
            final(self).canvas_width == old(self).canvas_width,
            final(self).canvas_height == old(self).canvas_height,
    {
        if vertex < self.vertex_properties.len() {
            let mut vp = self.vertex_properties[vertex];
            vp.position = position;
            self.vertex_properties[vertex] = vp;
        } else {
            while self.vertex_properties.len() < vertex
                invariant
                    old(self).vertex_properties@.len() <= self.vertex_properties@.len() <= vertex,
                    vertex < usize::MAX,
                    forall|i: int|
                        0 <= i < old(self).vertex_properties@.len() ==> #[trigger] self
                            .vertex_properties@[i] == old(self).vertex_properties@[i],
                    forall|i: int|
                        old(self).vertex_properties@.len() <= i < self.vertex_properties@.len()
                            ==> #[trigger] self.vertex_properties@[i]
                            == default_vertex_properties(),
                    self.edge_properties@ == old(self).edge_properties@,
                    self.dragged_vertex == old(self).dragged_vertex,
                    self.hovered_vertex == old(self).hovered_vertex,
                    self.hovered_edge == old(self).hovered_edge,
                    self.drag_state_view() == old(self).drag_state_view(),
                    self.gesture() == old(self).gesture(),
                    self.history() == old(self).history(),
                    self.current_highlight_graph == old(self).current_highlight_graph,
                    self.canvas_width == old(self).canvas_width,
                    self.canvas_height == old(self).canvas_height,
                    old(self).wf(),
                    vertex >= old(self).vertex_properties@.len(),
                decreases vertex - self.vertex_properties@.len(),
            {
                self.vertex_properties.push(VertexProperties::default());
            }
            self.vertex_properties.push(
                VertexProperties {
                    position,
                    radius: DEFAULT_VERTEX_RADIUS,
                    draw_state: DrawState::Default,
                },
            );
        }
    }

    /// First vertex (lowest index) whose distance to `position` is strictly
    /// below its hit radius.
    pub fn get_vertex_at_position(&self, position: Point) -> (r: Option<usize>)
        requires
            self.wf(),
            position.in_range(),
        ensures
            r == spec_vertex_at(self.vertex_properties@, position),
            r matches Some(i) ==> i < self.vertex_properties@.len(),
    {
        let mut index: usize = 0;
        while index < self.vertex_properties.len()
            invariant
                self.wf(),
                position.in_range(),
                index <= self.vertex_properties@.len(),
                spec_vertex_at(self.vertex_properties@, position) == spec_vertex_at_from(
                    self.vertex_properties@,
                    position,
                    index as int,
                ),
            decreases self.vertex_properties@.len() - index,
        {
            let vp = self.vertex_properties[index];
            let d = dist_sq(position, vp.position);
            proof {
                lemma_sq_bound(vp.radius as int, COORD_LIMIT as int);
            }
            if d < vp.radius * vp.radius {
                return Some(index);
            }
            index += 1;
        }
        None
    }

    /// First edge (lowest index) passing the width-padded bounding-box
    /// pre-filter whose perpendicular distance to the infinite line through
    /// its endpoints is below its width.
    pub fn get_edge_at_position(&self, position: Point) -> (r: Option<usize>)
        requires
            self.wf(),
            position.in_range(),
        ensures
            r == spec_edge_at(self.edge_properties@, self.vertex_properties@, position),
            r matches Some(j) ==> j < self.edge_properties@.len(),
    {
        let mut index: usize = 0;
        while index < self.edge_properties.len()
            invariant
                self.wf(),
                position.in_range(),
                index <= self.edge_properties@.len(),
                spec_edge_at(self.edge_properties@, self.vertex_properties@, position)
                    == spec_edge_at_from(
                    self.edge_properties@,
                    self.vertex_properties@,
                    position,
                    index as int,
                ),
            decreases self.edge_properties@.len() - index,
        {
            if self.edge_hit(index, position) {
                return Some(index);
            }
            index += 1;
        }
        None
    }

    /// Whether `position` hits edge `index`, per the bounding-box pre-filter
    /// and the line-distance test.
    fn edge_hit(&self, index: usize, position: Point) -> (r: bool)
        requires
            self.wf(),
            position.in_range(),
            index < self.edge_properties@.len(),
        ensures
            r == spec_edge_hit(
                self.edge_properties@,
                self.vertex_properties@,
                index as int,
                position,
            ),
    {
        let e = self.edge_properties[index];
        let s = self.get_position(e.vertices.0);
        let t = self.get_position(e.vertices.1);
        let w = e.width;

        let min_x = if s.x <= t.x { s.x } else { t.x };
        let max_x = if s.x <= t.x { t.x } else { s.x };
        let min_y = if s.y <= t.y { s.y } else { t.y };
        let max_y = if s.y <= t.y { t.y } else { s.y };

        if !(min_x - w <= position.x && position.x <= max_x + w && min_y - w <= position.y
            && position.y <= max_y + w) {
            return false;
        }

        let a = t.x - s.x;
        let b = t.y - s.y;
        proof {
            lemma_mul_bound(a as int, (s.y - position.y) as int, 2 * COORD_LIMIT as int, 2 * COORD_LIMIT as int);
            lemma_mul_bound((s.x - position.x) as int, b as int, 2 * COORD_LIMIT as int, 2 * COORD_LIMIT as int);
        }
        let c = a * (s.y - position.y) - (s.x - position.x) * b;
        proof {
            lemma_sq_bound(c as int, 9223372036854775808int);
            lemma_sq_bound(a as int, 2 * COORD_LIMIT as int);
            lemma_sq_bound(b as int, 2 * COORD_LIMIT as int);
            lemma_sq_bound(w as int, COORD_LIMIT as int);
            lemma_mul_bound(
                sq(w as int),
                sq(a as int) + sq(b as int),
                sq(COORD_LIMIT as int),
                2 * sq(2 * COORD_LIMIT as int),
            );
        }
        let c2 = (c as i128) * (c as i128);
        let root2 = (a as i128) * (a as i128) + (b as i128) * (b as i128);
        let w2 = (w as i128) * (w as i128);
        root2 > 0 && c2 < w2 * root2
    }

    /// One pointer sample: advances the gesture classifier, then either
    /// continues/ends an active drag, or recomputes hover state, possibly
    /// starts a drag, and applies click-triggered draw-state cycling.
    pub fn handle_mouse_input(&mut self, mouse_down: bool, mouse_position: Point, now_ms: u64)
        requires
            old(self).wf(),
            old(self).time_ok(now_ms),
            mouse_position.in_range(),
        ensures
            final(self).wf(),
            final(self).gesture().press() == spec_press_after(
                old(self).gesture().press(),
                mouse_down,
                now_ms,
                mouse_position,
            ),
            final(self).history() == old(self).history(),
            final(self).current_highlight_graph == old(self).current_highlight_graph,
            final(self).canvas_width == old(self).canvas_width,
            final(self).canvas_height == old(self).canvas_height,
            ({
                let press1 = spec_press_after(
                    old(self).gesture().press(),
                    mouse_down,
                    now_ms,
                    mouse_position,
                );
                let fired = spec_click_fired(old(self).gesture().press(), mouse_down, now_ms);
                let dragging = spec_is_drag(press1, now_ms, mouse_position);
                match old(self).drag_state_view() {
                    Some(dv) => {
                        let v = dv.0;
                        let last = dv.1;
                        if dragging {
                            &&& final(self).vertex_properties@ == old(self).vertex_properties@.update(
                                v as int,
                                (VertexProperties {
                                    position: spec_drag_position(
                                        old(self).vertex_properties@[v as int].position,
                                        last,
                                        mouse_position,
                                    ),
                                    ..old(self).vertex_properties@[v as int]
                                }),
                            )
                            &&& final(self).drag_state_view() == Some((v, mouse_position))
                            &&& final(self).dragged_vertex == old(self).dragged_vertex
                            &&& final(self).hovered_vertex == old(self).hovered_vertex
                            &&& final(self).hovered_edge == old(self).hovered_edge
                            &&& final(self).edge_properties@ == old(self).edge_properties@
                        } else {
                            &&& final(self).vertex_properties@ == old(self).vertex_properties@
                            &&& final(self).drag_state_view() is None
                            &&& final(self).dragged_vertex is None
                            &&& final(self).hovered_vertex == old(self).hovered_vertex
                            &&& final(self).hovered_edge == old(self).hovered_edge
                            &&& final(self).edge_properties@ == old(self).edge_properties@
                        }
                    },
                    None => {
                        let hv = spec_vertex_at(old(self).vertex_properties@, mouse_position);
                        let he = spec_edge_at(
                            old(self).edge_properties@,
                            old(self).vertex_properties@,
                            mouse_position,
                        );
                        let hv2: Option<usize> = if !dragging {
                            hv
                        } else {
                            None
                        };
                        let he2: Option<usize> = if hv is None {
                            he
                        } else {
                            None
                        };
                        &&& final(self).hovered_vertex == hv2
                        &&& final(self).hovered_edge == he2
                        &&& (if dragging && hv is Some {
                            &&& final(self).dragged_vertex == hv
                            &&& final(self).drag_state_view() == Some(
                                (hv->Some_0, mouse_position),
                            )
                        } else {
                            &&& final(self).dragged_vertex is None
                            &&& final(self).drag_state_view() is None
                        })
                        &&& final(self).vertex_properties@.len() == old(self).vertex_properties@.len()
                        &&& forall|i: int|
                            0 <= i < old(self).vertex_properties@.len()
                                ==> #[trigger] final(self).vertex_properties@[i]
                                == (VertexProperties {
                                draw_state: if fired && (hv2 matches Some(v) && v == i) {
                                    spec_cycle(old(self).vertex_properties@[i].draw_state)
                                } else {
                                    old(self).vertex_properties@[i].draw_state
                                },
                                ..old(self).vertex_properties@[i]
                            })
                        &&& final(self).edge_properties@.len() == old(self).edge_properties@.len()
                        &&& forall|j: int|
                            0 <= j < old(self).edge_properties@.len()
                                ==> #[trigger] final(self).edge_properties@[j]
                                == (EdgeProperties {
                                draw_state: if fired && (he2 matches Some(w) && w == j) {
                                    spec_cycle(old(self).edge_properties@[j].draw_state)
                                } else {
                                    old(self).edge_properties@[j].draw_state
                                },
                                ..old(self).edge_properties@[j]
                            })
                    },
                }
            }),
    {
        self.click_handler.register_mouse_button_status(mouse_down, now_ms, mouse_position);

        if let Some(previous_drag_state) = self.drag_state {
            let dragged = previous_drag_state.vertex;

            if self.click_handler.mouse_drag(now_ms, mouse_position) {
                let vertex_count = self.vertex_properties.len();
                assert(dragged < vertex_count);
                let old_pos = self.get_position(dragged);
                let nx = clamp_i64(
                    old_pos.x + mouse_position.x - previous_drag_state.mouse_position.x,
                    -COORD_LIMIT,
                    COORD_LIMIT,
                );
                let ny = clamp_i64(
                    old_pos.y + mouse_position.y - previous_drag_state.mouse_position.y,
                    -COORD_LIMIT,
                    COORD_LIMIT,
                );
                self.set_position(dragged, Point { x: nx, y: ny });
                self.drag_state = Some(DragState { vertex: dragged, mouse_position });
            } else {
                self.drag_state = None;
                self.dragged_vertex = None;
            }
        } else {
            let hovered_vertex = self.get_vertex_at_position(mouse_position);
            let hovered_edge = self.get_edge_at_position(mouse_position);

            if !self.click_handler.mouse_drag(now_ms, mouse_position) {
                self.hovered_vertex = hovered_vertex;
            } else {
                self.hovered_vertex = None;

                if let Some(dragged_vertex) = hovered_vertex {
                    self.dragged_vertex = Some(dragged_vertex);
                    self.drag_state = Some(
                        DragState { vertex: dragged_vertex, mouse_position },
                    );
                }
            }

            if hovered_vertex.is_none() {
                self.hovered_edge = hovered_edge;
            } else {
                self.hovered_edge = None;
            }

            if self.click_handler.mouse_click() {
                if let Some(hv) = self.hovered_vertex {
                    let mut vp = self.vertex_properties[hv];
                    vp.cycle_drawstate();
                    self.vertex_properties[hv] = vp;
                }
                if let Some(he) = self.hovered_edge {
                    let mut ep = self.edge_properties[he];
                    ep.cycle_drawstate();
                    self.edge_properties[he] = ep;
                }
            }
        }
    }

    /// The common integrator: adds one force vector to each vertex position
    /// and clamps the result into the canvas rectangle. The currently
    /// dragged vertex is exempt — the drag keeps exclusive control of its
    /// position. A length mismatch makes the whole pass a no-op (a
    /// consistency warning in spirit, never a failure).
    pub fn apply_forces(&mut self, forces: &Vec<Point>)
        requires
            old(self).wf(),
            forall|k: int|
                0 <= k < forces@.len() ==> -FORCE_LIMIT <= (#[trigger] forces@[k]).x <= FORCE_LIMIT
                    && -FORCE_LIMIT <= forces@[k].y <= FORCE_LIMIT,
        ensures
            final(self).wf(),
            forces@.len() != old(self).vertex_properties@.len() ==> *final(self) == *old(self),
            forces@.len() == old(self).vertex_properties@.len() ==> {
                &&& final(self).vertex_properties@.len() == old(self).vertex_properties@.len()
                &&& forall|i: int|
                    0 <= i < old(self).vertex_properties@.len() ==> #[trigger] final(self).vertex_properties@[i] == (VertexProperties {
                        position: if old(self).dragged_vertex matches Some(d) && d == i {
                            old(self).vertex_properties@[i].position
                        } else {
                            Point {
                                x: spec_clamp(
                                    old(self).vertex_properties@[i].position.x + forces@[i].x,
                                    0,
                                    old(self).canvas_width as int,
                                ) as i64,
                                y: spec_clamp(
                                    old(self).vertex_properties@[i].position.y + forces@[i].y,
                                    0,
                                    old(self).canvas_height as int,
                                ) as i64,
                            }
                        },
                        ..old(self).vertex_properties@[i]
                    })
                &&& final(self).edge_properties@ == old(self).edge_properties@
                &&& final(self).dragged_vertex == old(self).dragged_vertex
                &&& final(self).hovered_vertex == old(self).hovered_vertex
                &&& final(self).hovered_edge == old(self).hovered_edge
                &&& final(self).drag_state_view() == old(self).drag_state_view()
                &&& final(self).gesture() == old(self).gesture()
                &&& final(self).history() == old(self).history()
                &&& final(self).current_highlight_graph == old(self).current_highlight_graph
                &&& final(self).canvas_width == old(self).canvas_width
                &&& final(self).canvas_height == old(self).canvas_height
            },
    {
        if forces.len() != self.vertex_properties.len() {
            return ;
        }
        let mut vertex: usize = 0;
        while vertex < self.vertex_properties.len()
            invariant
                old(self).wf(),
                forall|k: int|
                    0 <= k < forces@.len() ==> -FORCE_LIMIT <= (#[trigger] forces@[k]).x
                        <= FORCE_LIMIT && -FORCE_LIMIT <= forces@[k].y <= FORCE_LIMIT,
                forces@.len() == old(self).vertex_properties@.len(),
                vertex <= self.vertex_properties@.len(),
                self.vertex_properties@.len() == old(self).vertex_properties@.len(),
                forall|i: int|
                    vertex <= i < old(self).vertex_properties@.len() ==> #[trigger] self
                        .vertex_properties@[i] == old(self).vertex_properties@[i],
                forall|i: int|
                    0 <= i < vertex ==> #[trigger] self.vertex_properties@[i]
                        == (VertexProperties {
                        position: if old(self).dragged_vertex matches Some(d) && d == i {
                            old(self).vertex_properties@[i].position
                        } else {
                            Point {
                                x: spec_clamp(
                                    old(self).vertex_properties@[i].position.x + forces@[i].x,
                                    0,
                                    old(self).canvas_width as int,
                                ) as i64,
                                y: spec_clamp(
                                    old(self).vertex_properties@[i].position.y + forces@[i].y,
                                    0,
                                    old(self).canvas_height as int,
                                ) as i64,
                            }
                        },
                        ..old(self).vertex_properties@[i]
                    }),
                self.edge_properties@ == old(self).edge_properties@,
                self.dragged_vertex == old(self).dragged_vertex,
                self.hovered_vertex == old(self).hovered_vertex,
                self.hovered_edge == old(self).hovered_edge,
                self.drag_state_view() == old(self).drag_state_view(),
                self.gesture() == old(self).gesture(),
                self.history() == old(self).history(),
                self.current_highlight_graph == old(self).current_highlight_graph,
                self.canvas_width == old(self).canvas_width,
                self.canvas_height == old(self).canvas_height,
            decreases self.vertex_properties@.len() - vertex,
        {
            let is_dragged = match self.dragged_vertex {
                Some(d) => d == vertex,
                None => false,
            };
            if !is_dragged {
                let f = forces[vertex];
                let p = self.vertex_properties[vertex].position;
                let nx = clamp_i64(p.x + f.x, 0, self.canvas_width);
                let ny = clamp_i64(p.y + f.y, 0, self.canvas_height);
                let mut vp = self.vertex_properties[vertex];
                vp.position = Point { x: nx, y: ny };
                self.vertex_properties[vertex] = vp;
            }
            vertex += 1;
        }
    }

    /// Resets every edge to the default draw state and unsets the history
    /// cursor (history entries are retained).
    pub fn clear_edge_highlighting(&mut self)
        requires
            old(self).wf(),
        ensures
            final(self).wf(),
            final(self).edge_properties@.len() == old(self).edge_properties@.len(),
            forall|j: int|
                0 <= j < old(self).edge_properties@.len() ==> #[trigger] final(self).edge_properties@[j] == (EdgeProperties {
                    draw_state: DrawState::Default,
                    ..old(self).edge_properties@[j]
                }),
            final(self).current_highlight_graph is None,
            final(self).vertex_properties@ == old(self).vertex_properties@,
            final(self).dragged_vertex == old(self).dragged_vertex,
            final(self).hovered_vertex == old(self).hovered_vertex,
            final(self).hovered_edge == old(self).hovered_edge,
            final(self).drag_state_view() == old(self).drag_state_view(),
            final(self).gesture() == old(self).gesture(),
            final(self).history() == old(self).history(),
            final(self).canvas_width == old(self).canvas_width,
            final(self).canvas_height == old(self).canvas_height,
    {
        let mut j: usize = 0;
        while j < self.edge_properties.len()
            invariant
                old(self).wf(),
                j <= self.edge_properties@.len(),
                self.edge_properties@.len() == old(self).edge_properties@.len(),
                forall|t: int|
                    j <= t < old(self).edge_properties@.len() ==> #[trigger] self
                        .edge_properties@[t] == old(self).edge_properties@[t],
                forall|t: int|
                    0 <= t < j ==> #[trigger] self.edge_properties@[t] == (EdgeProperties {
                        draw_state: DrawState::Default,
                        ..old(self).edge_properties@[t]
                    }),
                self.vertex_properties@ == old(self).vertex_properties@,
                self.dragged_vertex == old(self).dragged_vertex,
                self.hovered_vertex == old(self).hovered_vertex,
                self.hovered_edge == old(self).hovered_edge,
                self.drag_state_view() == old(self).drag_state_view(),
                self.gesture() == old(self).gesture(),
                self.history() == old(self).history(),
                self.current_highlight_graph == old(self).current_highlight_graph,
                self.canvas_width == old(self).canvas_width,
                self.canvas_height == old(self).canvas_height,
            decreases self.edge_properties@.len() - j,
        {
            let mut ep = self.edge_properties[j];
            ep.draw_state = DrawState::Default;
            self.edge_properties[j] = ep;
            j += 1;
        }
        self.current_highlight_graph = None;
    }

    /// Sets every edge whose endpoint pair appears in `edges` to the
    /// highlighted draw state; other edges keep theirs.
    pub fn add_edge_highlighting(&mut self, edges: &Vec<(usize, usize)>)
        requires
            old(self).wf(),
        ensures
            final(self).wf(),
            final(self).edge_properties@.len() == old(self).edge_properties@.len(),
            forall|j: int|
                0 <= j < old(self).edge_properties@.len() ==> #[trigger] final(self).edge_properties@[j] == (EdgeProperties {
                    draw_state: if edges@.contains(old(self).edge_properties@[j].vertices) {
                        DrawState::Highlighted
                    } else {
                        old(self).edge_properties@[j].draw_state
                    },
                    ..old(self).edge_properties@[j]
                }),
            final(self).vertex_properties@ == old(self).vertex_properties@,
            final(self).dragged_vertex == old(self).dragged_vertex,
            final(self).hovered_vertex == old(self).hovered_vertex,
            final(self).hovered_edge == old(self).hovered_edge,
            final(self).drag_state_view() == old(self).drag_state_view(),
            final(self).gesture() == old(self).gesture(),
            final(self).history() == old(self).history(),
            final(self).current_highlight_graph == old(self).current_highlight_graph,
            final(self).canvas_width == old(self).canvas_width,
            final(self).canvas_height == old(self).canvas_height,
    {
        let mut j: usize = 0;
        while j < self.edge_properties.len()
            invariant
                old(self).wf(),
                j <= self.edge_properties@.len(),
                self.edge_properties@.len() == old(self).edge_properties@.len(),
                forall|t: int|
                    j <= t < old(self).edge_properties@.len() ==> #[trigger] self
                        .edge_properties@[t] == old(self).edge_properties@[t],
                forall|t: int|
                    0 <= t < j ==> #[trigger] self.edge_properties@[t] == (EdgeProperties {
                        draw_state: if edges@.contains(old(self).edge_properties@[t].vertices) {
                            DrawState::Highlighted
                        } else {
                            old(self).edge_properties@[t].draw_state
                        },
                        ..old(self).edge_properties@[t]
                    }),
                self.vertex_properties@ == old(self).vertex_properties@,
                self.dragged_vertex == old(self).dragged_vertex,
                self.hovered_vertex == old(self).hovered_vertex,
                self.hovered_edge == old(self).hovered_edge,
                self.drag_state_view() == old(self).drag_state_view(),
                self.gesture() == old(self).gesture(),
                self.history() == old(self).history(),
                self.current_highlight_graph == old(self).current_highlight_graph,
                self.canvas_width == old(self).canvas_width,
                self.canvas_height == old(self).canvas_height,
            decreases self.edge_properties@.len() - j,
        {
            if edge_list_contains(edges, self.edge_properties[j].vertices) {
                let mut ep = self.edge_properties[j];
                ep.draw_state = DrawState::Highlighted;
                self.edge_properties[j] = ep;
            }
            j += 1;
        }
    }

    /// Full-overwrite highlighting: every edge in `edges` becomes
    /// highlighted, every other edge returns to the default draw state, and
    /// the history cursor is unset.
    pub fn set_edge_highlighting(&mut self, edges: &Vec<(usize, usize)>)
        requires
            old(self).wf(),
        ensures
            final(self).wf(),
            final(self).edge_properties@.len() == old(self).edge_properties@.len(),
            forall|j: int|
                0 <= j < old(self).edge_properties@.len() ==> #[trigger] final(self).edge_properties@[j] == (EdgeProperties {
                    draw_state: if edges@.contains(old(self).edge_properties@[j].vertices) {
                        DrawState::Highlighted
                    } else {
                        DrawState::Default
                    },
                    ..old(self).edge_properties@[j]
                }),
            final(self).current_highlight_graph is None,
            final(self).vertex_properties@ == old(self).vertex_properties@,
            final(self).dragged_vertex == old(self).dragged_vertex,
            final(self).hovered_vertex == old(self).hovered_vertex,
            final(self).hovered_edge == old(self).hovered_edge,
            final(self).drag_state_view() == old(self).drag_state_view(),
            final(self).gesture() == old(self).gesture(),
            final(self).history() == old(self).history(),
            final(self).canvas_width == old(self).canvas_width,
            final(self).canvas_height == old(self).canvas_height,
    {
        self.clear_edge_highlighting();
        self.add_edge_highlighting(edges);
    }

    /// Empties the history and resets all edge highlighting.
    pub fn clear_highlight_history(&mut self)
        requires
            old(self).wf(),
        ensures
            final(self).wf(),
            final(self).history() == Seq::<Graph>::empty(),
            final(self).current_highlight_graph is None,
            final(self).edge_properties@.len() == old(self).edge_properties@.len(),
            forall|j: int|
                0 <= j < old(self).edge_properties@.len() ==> #[trigger] final(self).edge_properties@[j] == (EdgeProperties {
                    draw_state: DrawState::Default,
                    ..old(self).edge_properties@[j]
                }),
            final(self).vertex_properties@ == old(self).vertex_properties@,
            final(self).dragged_vertex == old(self).dragged_vertex,
            final(self).hovered_vertex == old(self).hovered_vertex,
            final(self).hovered_edge == old(self).hovered_edge,
            final(self).drag_state_view() == old(self).drag_state_view(),
            final(self).gesture() == old(self).gesture(),
            final(self).canvas_width == old(self).canvas_width,
            final(self).canvas_height == old(self).canvas_height,
    {
        self.clear_edge_highlighting();
        self.highlight_graph_history.clear();
    }

    /// Appends a highlight set (carried as a graph) to the history.
    pub fn add_graph_to_history(&mut self, graph: Graph)
        requires
            old(self).wf(),
        ensures
            final(self).wf(),
            final(self).history() == old(self).history().push(graph),
            final(self).vertex_properties@ == old(self).vertex_properties@,
            final(self).edge_properties@ == old(self).edge_properties@,
            final(self).dragged_vertex == old(self).dragged_vertex,
            final(self).hovered_vertex == old(self).hovered_vertex,
            final(self).hovered_edge == old(self).hovered_edge,
            final(self).drag_state_view() == old(self).drag_state_view(),
            final(self).gesture() == old(self).gesture(),
            final(self).current_highlight_graph == old(self).current_highlight_graph,
            final(self).canvas_width == old(self).canvas_width,
            final(self).canvas_height == old(self).canvas_height,
    {
        self.highlight_graph_history.push(graph);
    }

    /// Number of recorded highlight sets.
    pub fn get_history_size(&self) -> (n: usize)
        ensures
            n == self.history().len(),
    {
        self.highlight_graph_history.len()
    }

    /// Applies the highlight set, records it, and moves the cursor to the
    /// new last entry.
    pub fn set_edge_highlighting_and_add_to_history(&mut self, graph: Graph)
        requires
            old(self).wf(),
        ensures
            final(self).wf(),
            final(self).history() == old(self).history().push(graph),
            final(self).current_highlight_graph == Some(
                (old(self).history().len()) as usize,
            ),
            final(self).edge_properties@.len() == old(self).edge_properties@.len(),
            forall|j: int|
                0 <= j < old(self).edge_properties@.len() ==> #[trigger] final(self).edge_properties@[j] == (EdgeProperties {
                    draw_state: if graph.edges@.contains(old(self).edge_properties@[j].vertices) {
                        DrawState::Highlighted
                    } else {
                        DrawState::Default
                    },
                    ..old(self).edge_properties@[j]
                }),
            final(self).vertex_properties@ == old(self).vertex_properties@,
            final(self).dragged_vertex == old(self).dragged_vertex,
            final(self).hovered_vertex == old(self).hovered_vertex,
            final(self).hovered_edge == old(self).hovered_edge,
            final(self).drag_state_view() == old(self).drag_state_view(),
            final(self).gesture() == old(self).gesture(),
            final(self).canvas_width == old(self).canvas_width,
            final(self).canvas_height == old(self).canvas_height,
    {
        self.set_edge_highlighting(&graph.edges);
        self.add_graph_to_history(graph);
        self.current_highlight_graph = Some(self.highlight_graph_history.len() - 1);
    }

    /// Steps the history cursor forward (an unset cursor targets the first
    /// entry) and applies that entry's highlight set; stepping past the end
    /// is a no-op.
    pub fn set_next_highlighting(&mut self)
        requires
            old(self).wf(),
        ensures
            final(self).wf(),
            final(self).current_highlight_graph == spec_next_cursor(
                old(self).current_highlight_graph,
                old(self).history().len(),
            ),
            spec_next_cursor(old(self).current_highlight_graph, old(self).history().len()) == old(self).current_highlight_graph ==> *final(self) == *old(self),
            ({
                let cur = spec_next_cursor(
                    old(self).current_highlight_graph,
                    old(self).history().len(),
                );
                cur != old(self).current_highlight_graph ==> {
                    &&& cur matches Some(t)
                    &&& final(self).edge_properties@.len() == old(self).edge_properties@.len()
                    &&& forall|j: int|
                        0 <= j < old(self).edge_properties@.len() ==> #[trigger] final(self).edge_properties@[j] == (EdgeProperties {
                            draw_state: if old(self).history()[cur->Some_0 as int].edges@.contains(
                                old(self).edge_properties@[j].vertices,
                            ) {
                                DrawState::Highlighted
                            } else {
                                DrawState::Default
                            },
                            ..old(self).edge_properties@[j]
                        })
                }
            }),
            final(self).vertex_properties@ == old(self).vertex_properties@,
            final(self).dragged_vertex == old(self).dragged_vertex,
            final(self).hovered_vertex == old(self).hovered_vertex,
            final(self).hovered_edge == old(self).hovered_edge,
            final(self).drag_state_view() == old(self).drag_state_view(),
            final(self).gesture() == old(self).gesture(),
            final(self).history() == old(self).history(),
            final(self).canvas_width == old(self).canvas_width,
            final(self).canvas_height == old(self).canvas_height,
    {
        let history_len = self.highlight_graph_history.len();
        let target_index = match self.current_highlight_graph {
            Some(index) => {
                assert(index < history_len);
                index + 1
            },
            None => 0,
        };

        if target_index < history_len {
            self.current_highlight_graph = Some(target_index);
            highlight_exactly(
                &mut self.edge_properties,
                &self.highlight_graph_history[target_index].edges,
            );
        }
    }

    /// Steps the history cursor backward (an unset cursor targets the last
    /// entry) and applies that entry's highlight set; stepping below the
    /// first entry, or with an empty history, is a no-op.
    pub fn set_previous_highlighting(&mut self)
        requires
            old(self).wf(),
        ensures
            final(self).wf(),
            final(self).current_highlight_graph == spec_previous_cursor(
                old(self).current_highlight_graph,
                old(self).history().len(),
            ),
            spec_previous_cursor(old(self).current_highlight_graph, old(self).history().len())
                == old(self).current_highlight_graph ==> *final(self) == *old(self),
            ({
                let cur = spec_previous_cursor(
                    old(self).current_highlight_graph,
                    old(self).history().len(),
                );
                cur != old(self).current_highlight_graph ==> {
                    &&& cur matches Some(t)
                    &&& final(self).edge_properties@.len() == old(self).edge_properties@.len()
                    &&& forall|j: int|
                        0 <= j < old(self).edge_properties@.len() ==> #[trigger] final(self).edge_properties@[j] == (EdgeProperties {
                            draw_state: if old(self).history()[cur->Some_0 as int].edges@.contains(
                                old(self).edge_properties@[j].vertices,
                            ) {
                                DrawState::Highlighted
                            } else {
                                DrawState::Default
                            },
                            ..old(self).edge_properties@[j]
                        })
                }
            }),
            final(self).vertex_properties@ == old(self).vertex_properties@,
            final(self).dragged_vertex == old(self).dragged_vertex,
            final(self).hovered_vertex == old(self).hovered_vertex,
            final(self).hovered_edge == old(self).hovered_edge,
            final(self).drag_state_view() == old(self).drag_state_view(),
            final(self).gesture() == old(self).gesture(),
            final(self).history() == old(self).history(),
            final(self).canvas_width == old(self).canvas_width,
            final(self).canvas_height == old(self).canvas_height,
    {
        let target_index = match self.current_highlight_graph {
            Some(index) => {
                if index == 0 {
                    return ;
                }
                index - 1
            },
            None => {
                if self.highlight_graph_history.len() == 0 {
                    return ;
                }
                self.highlight_graph_history.len() - 1
            },
        };

        if target_index < self.highlight_graph_history.len() {
            self.current_highlight_graph = Some(target_index);
            highlight_exactly(
                &mut self.edge_properties,
                &self.highlight_graph_history[target_index].edges,
            );
        }
    }
}

/// One ordered vertex pair of the force pass: the main vertex, one other
/// vertex, the displacement from main to other, and whether the graph joins
/// the two.
#[derive(Clone, Copy, Debug)]
pub struct PairSample {
    pub main: usize,
    pub secondary: usize,
    pub delta: Point,
    pub connected: bool,
}

/// The `k`-th pair the force pass visits: main vertex `k / (n-1)`, and as
/// its secondary the `k % (n-1)`-th other vertex in ascending order. The
/// connectivity test canonicalizes the pair (smaller endpoint first).
pub open spec fn spec_pair_sample(
    props: Seq<VertexProperties>,
    edges: Seq<(usize, usize)>,
    n: int,
    k: int,
) -> PairSample {
    let a = k / (n - 1);
    let j = k % (n - 1);
    let b = if j < a {
        j
    } else {
        j + 1
    };
    let pa = spec_position_in(props, a);
    let pb = spec_position_in(props, b);
    PairSample {
        main: a as usize,
        secondary: b as usize,
        delta: Point { x: (pb.x - pa.x) as i64, y: (pb.y - pa.y) as i64 },
        connected: edges.contains(
            if a < b {
                (a as usize, b as usize)
            } else {
                (b as usize, a as usize)
            },
        ),
    }
}

/// Componentwise sum of `cnt` pair forces starting at `base`.
pub open spec fn spec_pair_block_sum(pf: Seq<Point>, base: int, cnt: nat) -> (int, int)
    decreases cnt,
{
    if cnt == 0 {
        (0int, 0int)
    } else {
        let p = spec_pair_block_sum(pf, base, (cnt - 1) as nat);
        (p.0 + pf[base + cnt - 1].x, p.1 + pf[base + cnt - 1].y)
    }
}

/// The total force on vertex `a` out of the per-pair forces: the sum of its
/// block of `n - 1` entries.
pub open spec fn spec_pair_force(pf: Seq<Point>, n: int, a: int) -> Point {
    let s = spec_pair_block_sum(pf, a * (n - 1), (n - 1) as nat);
    Point { x: s.0 as i64, y: s.1 as i64 }
}

/// A block sum of in-range entries is bounded by the block length times the
/// coordinate limit.
proof fn lemma_block_sum_bound(pf: Seq<Point>, base: int, cnt: nat)
    requires
        0 <= base,
        base + cnt <= pf.len(),
        forall|k: int| 0 <= k < pf.len() ==> (#[trigger] pf[k]).in_range(),
    ensures
        -(cnt * COORD_LIMIT) <= spec_pair_block_sum(pf, base, cnt).0 <= cnt * COORD_LIMIT,
        -(cnt * COORD_LIMIT) <= spec_pair_block_sum(pf, base, cnt).1 <= cnt * COORD_LIMIT,
    decreases cnt,
{
    if cnt > 0 {
        lemma_block_sum_bound(pf, base, (cnt - 1) as nat);
    }
}

impl GraphInterface {
    /// Enumerates the ordered vertex pairs of one force pass, in the order
    /// the pass visits them: for each main vertex, every other vertex
    /// ascending. The caller turns each sample into a force vector (the
    /// floating-point magnitude model, and the random jitter for coincident
    /// pairs, live there) and hands them back to `apply_force`.
    pub fn force_pairs(&self, graph: &Graph) -> (r: Vec<PairSample>)
        requires
            self.wf(),
            graph.vertices <= 65536,
        ensures
            r@.len() == graph.vertices * (graph.vertices - 1),
            forall|k: int|
                0 <= k < r@.len() ==> #[trigger] r@[k] == spec_pair_sample(
                    self.vertex_properties@,
                    graph.edges@,
                    graph.vertices as int,
                    k,
                ),
    {
        let n = graph.vertices;
        let mut r: Vec<PairSample> = Vec::new();
        if n == 0 {
            return r;
        }
        let mut a: usize = 0;
        while a < n
            invariant
                self.wf(),
                1 <= n <= 65536,
                n == graph.vertices,
                a <= n,
                r@.len() == a * (n - 1),
                forall|k: int|
                    0 <= k < r@.len() ==> #[trigger] r@[k] == spec_pair_sample(
                        self.vertex_properties@,
                        graph.edges@,
                        n as int,
                        k,
                    ),
            decreases n - a,
        {
            proof {
                assert((a + 1) * (n - 1) <= n * (n - 1)) by (nonlinear_arith)
                    requires 0 <= a < n;
                assert(a * (n - 1) + (n - 1) == (a + 1) * (n - 1)) by (nonlinear_arith);
            }
            let pa = self.get_position(a);
            let mut b: usize = 0;
            let ghost mut j: int = 0;
            while b < n
                invariant
                    self.wf(),
                    1 <= n <= 65536,
                    n == graph.vertices,
                    a < n,
                    b <= n,
                    j == (if b <= a { b as int } else { b - 1 }),
                    pa == spec_position_in(self.vertex_properties@, a as int),
                    r@.len() == a * (n - 1) + j,
                    a * (n - 1) + (n - 1) <= n * (n - 1),
                    forall|k: int|
                        0 <= k < r@.len() ==> #[trigger] r@[k] == spec_pair_sample(
                            self.vertex_properties@,
                            graph.edges@,
                            n as int,
                            k,
                        ),
                decreases n - b,
            {
                if b != a {
                    let pb = self.get_position(b);
                    let canonical = if a < b {
                        (a, b)
                    } else {
                        (b, a)
                    };
                    let connected = edge_list_contains(&graph.edges, canonical);
                    let sample = PairSample {
                        main: a,
                        secondary: b,
                        delta: Point { x: pb.x - pa.x, y: pb.y - pa.y },
                        connected,
                    };
                    proof {
                        vstd::arithmetic::div_mod::lemma_fundamental_div_mod_converse(
                            r@.len() as int,
                            n - 1,
                            a as int,
                            j,
                        );
                    }
                    r.push(sample);
                    proof {
                        j = j + 1;
                    }
                }
                b += 1;
            }
            a += 1;
        }
        r
    }

    /// One full force pass: sums, per vertex, the force vectors the caller
    /// computed for the pairs `force_pairs` enumerated, and applies the
    /// totals through the common integrator (dragged vertex exempt, results
    /// clamped to the canvas). As in the integrator, a vertex-count mismatch
    /// makes the pass a no-op.
    pub fn apply_force(&mut self, graph: &Graph, pair_forces: &Vec<Point>)
        requires
            old(self).wf(),
            graph.vertices <= 65536,
            pair_forces@.len() == graph.vertices * (graph.vertices - 1),
            forall|k: int|
                0 <= k < pair_forces@.len() ==> (#[trigger] pair_forces@[k]).in_range(),
        ensures
            final(self).wf(),
            graph.vertices != old(self).vertex_properties@.len() ==> *final(self) == *old(self),
            graph.vertices == old(self).vertex_properties@.len() ==> {
                &&& final(self).vertex_properties@.len() == old(self).vertex_properties@.len()
                &&& forall|i: int|
                    0 <= i < old(self).vertex_properties@.len() ==> #[trigger] final(self).vertex_properties@[i]
                        == (VertexProperties {
                        position: if old(self).dragged_vertex matches Some(d) && d == i {
                            old(self).vertex_properties@[i].position
                        } else {
                            Point {
                                x: spec_clamp(
                                    old(self).vertex_properties@[i].position.x + spec_pair_force(
                                        pair_forces@,
                                        graph.vertices as int,
                                        i,
                                    ).x,
                                    0,
                                    old(self).canvas_width as int,
                                ) as i64,
                                y: spec_clamp(
                                    old(self).vertex_properties@[i].position.y + spec_pair_force(
                                        pair_forces@,
                                        graph.vertices as int,
                                        i,
                                    ).y,
                                    0,
                                    old(self).canvas_height as int,
                                ) as i64,
                            }
                        },
                        ..old(self).vertex_properties@[i]
                    })
                &&& final(self).edge_properties@ == old(self).edge_properties@
                &&& final(self).dragged_vertex == old(self).dragged_vertex
                &&& final(self).hovered_vertex == old(self).hovered_vertex
                &&& final(self).hovered_edge == old(self).hovered_edge
                &&& final(self).drag_state_view() == old(self).drag_state_view()
                &&& final(self).gesture() == old(self).gesture()
                &&& final(self).history() == old(self).history()
                &&& final(self).current_highlight_graph == old(self).current_highlight_graph
                &&& final(self).canvas_width == old(self).canvas_width
                &&& final(self).canvas_height == old(self).canvas_height
            },
    {
        let n = graph.vertices;
        let mut forces: Vec<Point> = Vec::new();
        let mut a: usize = 0;
        while a < n
            invariant
                n <= 65536,
                a <= n,
                pair_forces@.len() == n * (n - 1),
                forall|k: int|
                    0 <= k < pair_forces@.len() ==> (#[trigger] pair_forces@[k]).in_range(),
                forces@.len() == a,
                forall|t: int|
                    0 <= t < a ==> #[trigger] forces@[t] == spec_pair_force(
                        pair_forces@,
                        n as int,
                        t,
                    ),
                forall|t: int|
                    0 <= t < a ==> -FORCE_LIMIT <= (#[trigger] forces@[t]).x <= FORCE_LIMIT
                        && -FORCE_LIMIT <= forces@[t].y <= FORCE_LIMIT,
            decreases n - a,
        {
            proof {
                assert((a + 1) * (n - 1) <= n * (n - 1)) by (nonlinear_arith)
                    requires 0 <= a < n;
                assert(a * (n - 1) + (n - 1) == (a + 1) * (n - 1)) by (nonlinear_arith);
                assert(a * (n - 1) <= (a + 1) * (n - 1)) by (nonlinear_arith)
                    requires 0 <= a && 1 <= n;
            }
            let total = pair_forces.len();
            let base = a * (n - 1);
            let mut fx: i64 = 0;
            let mut fy: i64 = 0;
            let mut j: usize = 0;
            while j < n - 1
                invariant
                    n <= 65536,
                    a < n,
                    j <= n - 1,
                    pair_forces@.len() == n * (n - 1),
                    pair_forces@.len() <= usize::MAX,
                    base == a * (n - 1),
                    base + (n - 1) <= n * (n - 1),
                    forall|k: int|
                        0 <= k < pair_forces@.len() ==> (#[trigger] pair_forces@[k]).in_range(),
                    (fx as int, fy as int) == spec_pair_block_sum(
                        pair_forces@,
                        base as int,
                        j as nat,
                    ),
                    -(j * COORD_LIMIT) <= fx <= j * COORD_LIMIT,
                    -(j * COORD_LIMIT) <= fy <= j * COORD_LIMIT,
                decreases n - 1 - j,
            {
                let f = pair_forces[base + j];
                fx = fx + f.x;
                fy = fy + f.y;
                j += 1;
            }
            forces.push(Point { x: fx, y: fy });
            a += 1;
        }
        self.apply_forces(&forces);
    }
}

/// A hit at or after `i` and at or before `v` makes the scan from `i`
/// return a hit no later than `v`.
proof fn lemma_vertex_at_finds(props: Seq<VertexProperties>, p: Point, i: int, v: int)
    requires
        props.len() <= usize::MAX,
        0 <= i <= v < props.len(),
        spec_vertex_hit(props, v, p),
    ensures
        spec_vertex_at_from(props, p, i) matches Some(w) && i <= w <= v && spec_vertex_hit(
            props,
            w as int,
            p,
        ),
    decreases v - i,
{
    if !spec_vertex_hit(props, i, p) {
        lemma_vertex_at_finds(props, p, i + 1, v);
    }
}

/// Hit-test containment law: a pointer exactly at a vertex's stored
/// position is always reported as a hit, for any positive hit radius — the
/// lookup returns the lowest-index hit, which is this vertex unless an
/// earlier vertex also covers the point.
pub proof fn lemma_vertex_hit_containment(props: Seq<VertexProperties>, v: int)
    requires
        props.len() <= usize::MAX,
        0 <= v < props.len(),
        props[v].radius > 0,
    ensures
        spec_vertex_at(props, props[v].position) matches Some(w) && w <= v && spec_vertex_hit(
            props,
            w as int,
            props[v].position,
        ),
{
    let p = props[v].position;
    assert(spec_dist_sq(p, props[v].position) == 0);
    assert(sq(props[v].radius as int) > 0) by (nonlinear_arith)
        requires props[v].radius > 0;
    assert(spec_vertex_hit(props, v, p));
    lemma_vertex_at_finds(props, p, 0, v);
}

/// The cursor after `k` forward steps through a history of length `len`.
pub open spec fn spec_next_steps(cur: Option<usize>, len: nat, k: nat) -> Option<usize>
    decreases k,
{
    if k == 0 {
        cur
    } else {
        spec_next_steps(spec_next_cursor(cur, len), len, (k - 1) as nat)
    }
}

/// Forward steps inside the history advance the cursor one entry at a time.
proof fn lemma_next_steps_within(i: nat, len: nat, u: nat)
    requires
        len <= usize::MAX,
        i + u < len,
    ensures
        spec_next_steps(Some(i as usize), len, u) == Some((i + u) as usize),
    decreases u,
{
    if u > 0 {
        lemma_next_steps_within(i + 1, len, (u - 1) as nat);
    }
}

/// History bounds law, stepping side: from an unset cursor, exactly `k`
/// forward steps through a history of `k` recorded entries land on the last
/// entry.
pub proof fn lemma_history_forward_replay(k: nat)
    requires
        1 <= k <= usize::MAX,
    ensures
        spec_next_steps(None, k, k) == Some((k - 1) as usize),
{
    assert(spec_next_cursor(None, k) == Some(0usize));
    lemma_next_steps_within(0, k, (k - 1) as nat);
}

/// History bounds law, no-op side: stepping backward from the first entry
/// or in an empty history, and stepping forward at the last entry, leave
/// the cursor unchanged.
pub proof fn lemma_history_bounds(cur: Option<usize>, len: nat)
    ensures
        cur == Some(0usize) ==> spec_previous_cursor(cur, len) == cur,
        cur is None && len == 0 ==> spec_previous_cursor(cur, len) == cur && spec_next_cursor(
            cur,
            len,
        ) == cur,
        cur matches Some(i) && i + 1 >= len ==> spec_next_cursor(cur, len) == cur,
{
}

/// Builds the default edge states for a graph's edge list, in order.
fn derive_edge_properties(graph: &Graph) -> (r: Vec<EdgeProperties>)
    ensures
        r@.len() == graph.edges@.len(),
        forall|j: int|
            0 <= j < graph.edges@.len() ==> #[trigger] r@[j] == default_edge_properties(
                graph.edges@[j],
            ),
        forall|j: int| 0 <= j < r@.len() ==> (#[trigger] r@[j]).wf(),
{
    let mut edge_properties: Vec<EdgeProperties> = Vec::new();
    let mut j: usize = 0;
    while j < graph.edges.len()
        invariant
            j <= graph.edges@.len(),
            edge_properties@.len() == j,
            forall|t: int|
                0 <= t < j ==> #[trigger] edge_properties@[t] == default_edge_properties(
                    graph.edges@[t],
                ),
        decreases graph.edges@.len() - j,
    {
        edge_properties.push(
            EdgeProperties {
                vertices: graph.edges[j],
                width: DEFAULT_EDGE_WIDTH,
                draw_state: DrawState::Default,
            },
        );
        j += 1;
    }
    edge_properties
}

/// Whether an edge list holds exactly this (ordered) endpoint pair.
pub(crate) fn edge_list_contains(edges: &Vec<(usize, usize)>, e: (usize, usize)) -> (r: bool)
    ensures
        r == edges@.contains(e),
{
    let mut j: usize = 0;
    while j < edges.len()
        invariant
            j <= edges@.len(),
            forall|t: int| 0 <= t < j ==> #[trigger] edges@[t] != e,
        decreases edges@.len() - j,
    {
        if edges[j].0 == e.0 && edges[j].1 == e.1 {
            assert(edges@[j as int] == e);
            return true;
        }
        j += 1;
    }
    false
}

/// Rewrites every edge's draw state: highlighted exactly when its endpoint
/// pair appears in `edges`, default otherwise.
fn highlight_exactly(edge_properties: &mut Vec<EdgeProperties>, edges: &Vec<(usize, usize)>)
    ensures
        final(edge_properties)@.len() == old(edge_properties)@.len(),
        forall|j: int|
            0 <= j < old(edge_properties)@.len() ==> #[trigger] final(edge_properties)@[j]
                == (EdgeProperties {
                draw_state: if edges@.contains(old(edge_properties)@[j].vertices) {
                    DrawState::Highlighted
                } else {
                    DrawState::Default
                },
                ..old(edge_properties)@[j]
            }),
{
    let mut j: usize = 0;
    while j < edge_properties.len()
        invariant
            j <= edge_properties@.len(),
            edge_properties@.len() == old(edge_properties)@.len(),
            forall|t: int|
                j <= t < old(edge_properties)@.len() ==> #[trigger] edge_properties@[t] == old(
                    edge_properties,
                )@[t],
            forall|t: int|
                0 <= t < j ==> #[trigger] edge_properties@[t] == (EdgeProperties {
                    draw_state: if edges@.contains(old(edge_properties)@[t].vertices) {
                        DrawState::Highlighted
                    } else {
                        DrawState::Default
                    },
                    ..old(edge_properties)@[t]
                }),
        decreases edge_properties@.len() - j,
    {
        let mut ep = edge_properties[j];
        if edge_list_contains(edges, ep.vertices) {
            ep.draw_state = DrawState::Highlighted;
        } else {
            ep.draw_state = DrawState::Default;
        }
        edge_properties[j] = ep;
        j += 1;
    }
}

} // verus!
