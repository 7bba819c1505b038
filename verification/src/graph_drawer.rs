//! Pure composition of the embedding into renderer-agnostic draw
//! primitives.
//!
//! Vertices are emitted in reverse index order (vertex 0 paints on top);
//! hidden vertices are skipped unless hovered or dragged, so the user never
//! loses what they are manipulating. Edges are emitted in forward order.
//! Hover and drag apply radius and color overrides on top of the base
//! draw-state color mapping. Optional labels carry decimal indices; an edge
//! label carries the canonical pairing index of its endpoints and is offset
//! to the side of the segment picked by a fixed-slope quadrant rule.

use crate::geometry::{div_trunc, lemma_mul_bound, spec_div_trunc, Point, COORD_LIMIT};
use crate::graph_interface::{
    spec_position_in, DrawState, GraphInterface, VertexProperties, EdgeProperties,
};
use crate::text::{chars_to_string, push_u64_decimal, spec_dec_digits};
use vstd::prelude::*;

verus! {

/// An RGBA color with eight-bit channels.
#[derive(Clone, Copy, PartialEq, Eq, Structural, Debug)]
pub struct Color {
    pub r: u8,
    pub g: u8,
    pub b: u8,
    pub a: u8,
}

impl Color {
    pub fn new(r: u8, g: u8, b: u8, a: u8) -> (c: Color)
        ensures
            c == (Color { r, g, b, a }),
    {
        Color { r, g, b, a }
    }
}

/// A fully transparent color (used for hidden items).
pub open spec fn spec_transparent() -> Color {
    Color { r: 0, g: 0, b: 0, a: 0 }
}

/// A text label at a position.
#[derive(Clone, PartialEq, Eq, Debug)]
pub struct DrawableLabel {
    pub content: String,
    pub position: Point,
    pub size: i64,
    pub color: Color,
}

/// A drawn vertex: a border circle under a main circle, same center.
#[derive(Clone, PartialEq, Eq, Debug)]
pub struct DrawableVertex {
    pub position: Point,
    pub main_radius: i64,
    pub border_radius: i64,
    pub main_color: Color,
    pub border_color: Color,
    pub label: Option<DrawableLabel>,
}

/// A drawn edge: a straight segment of a width and color.
#[derive(Clone, PartialEq, Eq, Debug)]
pub struct DrawableEdge {
    pub start: Point,
    pub end: Point,
    pub width: i64,
    pub color: Color,
    pub label: Option<DrawableLabel>,
}

/// The composed drawing: edges then vertices.
#[derive(Clone, PartialEq, Eq, Debug)]
pub struct DrawableGraph {
    pub vertices: Vec<DrawableVertex>,
    pub edges: Vec<DrawableEdge>,
}

/// Style configuration for vertices.
#[derive(Clone, Copy, PartialEq, Eq, Structural, Debug)]
pub struct VertexDrawConfig {
    pub main_color: Color,
    pub border_color: Color,
    pub main_size: i64,
    pub border_size: i64,
    pub highlight_color: Color,
    pub unhighlight_color: Color,
    pub drag_color: Color,
    pub draw_index: bool,
    pub zero_indexed: bool,
    pub label_color: Color,
    pub label_size: i64,
}

impl VertexDrawConfig {
    pub open spec fn wf(&self) -> bool {
        &&& 0 <= self.main_size <= COORD_LIMIT
        &&& 0 <= self.border_size <= COORD_LIMIT
        &&& 0 <= self.label_size <= COORD_LIMIT
    }
}

/// The vertex style the editor starts with.
pub open spec fn spec_default_vertex_draw_config() -> VertexDrawConfig {
    VertexDrawConfig {
        main_color: Color { r: 135, g: 206, b: 234, a: 255 },
        border_color: Color { r: 0, g: 81, b: 170, a: 255 },
        main_size: 12,
        border_size: 5,
        highlight_color: Color { r: 0, g: 226, b: 48, a: 255 },
        unhighlight_color: Color { r: 193, g: 48, b: 48, a: 255 },
        drag_color: Color { r: 0, g: 81, b: 170, a: 255 },
        draw_index: true,
        zero_indexed: false,
        label_color: Color { r: 0, g: 0, b: 0, a: 255 },
        label_size: 35,
    }
}

impl Default for VertexDrawConfig {
    fn default() -> (r: Self)
        ensures
            r == spec_default_vertex_draw_config(),
            r.wf(),
    {
        VertexDrawConfig {
            main_color: Color { r: 135, g: 206, b: 234, a: 255 },
            border_color: Color { r: 0, g: 81, b: 170, a: 255 },
            main_size: 12,
            border_size: 5,
            highlight_color: Color { r: 0, g: 226, b: 48, a: 255 },
            unhighlight_color: Color { r: 193, g: 48, b: 48, a: 255 },
            drag_color: Color { r: 0, g: 81, b: 170, a: 255 },
            draw_index: true,
            zero_indexed: false,
            label_color: Color { r: 0, g: 0, b: 0, a: 255 },
            label_size: 35,
        }
    }
}

/// Style configuration for edges.
#[derive(Clone, Copy, PartialEq, Eq, Structural, Debug)]
pub struct EdgeDrawConfig {
    pub width: i64,
    pub color: Color,
    pub highlight_color: Color,
    pub unhighlight_color: Color,
    pub draw_index: bool,
    pub zero_indexed: bool,
    pub label_color: Color,
    pub label_size: i64,
}

impl EdgeDrawConfig {
    pub open spec fn wf(&self) -> bool {
        &&& 0 <= self.width <= COORD_LIMIT
        &&& 0 <= self.label_size <= COORD_LIMIT
    }
}

/// The edge style the editor starts with.
pub open spec fn spec_default_edge_draw_config() -> EdgeDrawConfig {
    EdgeDrawConfig {
        width: 5,
        color: Color { r: 0, g: 0, b: 0, a: 255 },
        highlight_color: Color { r: 193, g: 48, b: 48, a: 255 },
        unhighlight_color: Color { r: 198, g: 198, b: 198, a: 255 },
        draw_index: false,
        zero_indexed: false,
        label_color: Color { r: 0, g: 119, b: 242, a: 255 },
        label_size: 40,
    }
}

impl Default for EdgeDrawConfig {
    fn default() -> (r: Self)
        ensures
            r == spec_default_edge_draw_config(),
            r.wf(),
    {
        EdgeDrawConfig {
            width: 5,
            color: Color { r: 0, g: 0, b: 0, a: 255 },
            highlight_color: Color { r: 193, g: 48, b: 48, a: 255 },
            unhighlight_color: Color { r: 198, g: 198, b: 198, a: 255 },
            draw_index: false,
            zero_indexed: false,
            label_color: Color { r: 0, g: 119, b: 242, a: 255 },
            label_size: 40,
        }
    }
}

/// The whole drawing style: vertex style, edge style, background.
#[derive(Clone, Copy, PartialEq, Eq, Structural, Debug)]
pub struct DrawConfig {
    pub vertex_config: VertexDrawConfig,
    pub edge_config: EdgeDrawConfig,
    pub background_color: Color,
}

impl DrawConfig {
    pub open spec fn wf(&self) -> bool {
        self.vertex_config.wf() && self.edge_config.wf()
    }
}

impl Default for DrawConfig {
    fn default() -> (r: Self)
        ensures
            r.vertex_config == spec_default_vertex_draw_config(),
            r.edge_config == spec_default_edge_draw_config(),
            r.background_color == (Color { r: 232, g: 232, b: 232, a: 255 }),
            r.wf(),
    {
        DrawConfig {
            vertex_config: VertexDrawConfig::default(),
            edge_config: EdgeDrawConfig::default(),
            background_color: Color { r: 232, g: 232, b: 232, a: 255 },
        }
    }
}

/// Base (main, border) colors of a vertex in a draw state.
pub open spec fn spec_vertex_state_colors(s: DrawState, cfg: &VertexDrawConfig) -> (Color, Color) {
    match s {
        DrawState::Default => (cfg.main_color, cfg.border_color),
        DrawState::Highlighted => (cfg.highlight_color, cfg.highlight_color),
        DrawState::Unhighlighted => (cfg.unhighlight_color, cfg.unhighlight_color),
        DrawState::Hidden => (spec_transparent(), spec_transparent()),
    }
}

/// Base color of an edge in a draw state.
pub open spec fn spec_edge_state_color(s: DrawState, cfg: &EdgeDrawConfig) -> Color {
    match s {
        DrawState::Default => cfg.color,
        DrawState::Highlighted => cfg.highlight_color,
        DrawState::Unhighlighted => cfg.unhighlight_color,
        DrawState::Hidden => spec_transparent(),
    }
}

/// Whether vertex `i` appears in the composed output: it is not hidden, or
/// it is currently hovered or dragged.
pub open spec fn spec_vertex_emitted(
    props: Seq<VertexProperties>,
    hovered: Option<usize>,
    dragged: Option<usize>,
    i: int,
) -> bool {
    ||| props[i].draw_state != DrawState::Hidden
    ||| hovered == Some(i as usize)
    ||| dragged == Some(i as usize)
}

/// Number of emitted vertices with index in `[from, to)`.
pub open spec fn spec_vertices_emitted_between(
    props: Seq<VertexProperties>,
    hovered: Option<usize>,
    dragged: Option<usize>,
    from: int,
    to: int,
) -> nat
    decreases to - from,
{
    if from >= to {
        0nat
    } else {
        (if spec_vertex_emitted(props, hovered, dragged, from) {
            1nat
        } else {
            0nat
        }) + spec_vertices_emitted_between(props, hovered, dragged, from + 1, to)
    }
}

/// The digits a one- or zero-indexed label shows for item `i`.
pub open spec fn spec_index_label_chars(i: int, zero_indexed: bool) -> Seq<char> {
    if zero_indexed {
        spec_dec_digits(i as nat)
    } else {
        spec_dec_digits((i + 1) as nat)
    }
}

/// Where a vertex label sits: horizontally centered by a fixed
/// per-character width heuristic (two digits from index ten up).
pub open spec fn spec_vertex_label_position(pos: Point, i: int, cfg: &VertexDrawConfig) -> Point {
    let character_width = cfg.label_size as int;
    let string_width: int = if i >= 10 {
        2 * character_width
    } else {
        character_width
    };
    Point {
        x: (pos.x + spec_div_trunc(-string_width, 2) + 9) as i64,
        y: (pos.y + spec_div_trunc(character_width, 2) - 10) as i64,
    }
}

/// What the drawable of vertex `i` must hold, when it is emitted.
pub open spec fn spec_vertex_drawable_ok(
    d: DrawableVertex,
    props: Seq<VertexProperties>,
    hovered: Option<usize>,
    dragged: Option<usize>,
    cfg: &VertexDrawConfig,
    i: int,
) -> bool {
    let vp = props[i];
    let hovered_here = hovered == Some(i as usize);
    let dragged_here = dragged == Some(i as usize);
    let base = spec_vertex_state_colors(vp.draw_state, cfg);
    let after_hover: (Color, Color) = if hovered_here {
        (cfg.highlight_color, cfg.highlight_color)
    } else {
        base
    };
    let colors: (Color, Color) = if dragged_here {
        (cfg.drag_color, cfg.drag_color)
    } else {
        after_hover
    };
    let bump: int = if hovered_here {
        2int
    } else {
        0int
    };
    &&& d.position == vp.position
    &&& d.main_radius == cfg.main_size + bump
    &&& d.border_radius == cfg.border_size + cfg.main_size + bump
    &&& d.main_color == colors.0
    &&& d.border_color == colors.1
    &&& if cfg.draw_index {
        &&& d.label matches Some(l)
        &&& l.content@ == spec_index_label_chars(i, cfg.zero_indexed)
        &&& l.position == spec_vertex_label_position(vp.position, i, cfg)
        &&& l.size == cfg.label_size
        &&& l.color == cfg.label_color
    } else {
        d.label is None
    }
}

/// Whether edge `j` appears in the composed output: it is not hidden, or it
/// is currently hovered.
pub open spec fn spec_edge_emitted(
    eprops: Seq<EdgeProperties>,
    hovered_edge: Option<usize>,
    j: int,
) -> bool {
    ||| eprops[j].draw_state != DrawState::Hidden
    ||| hovered_edge == Some(j as usize)
}

/// Number of emitted edges with index in `[from, to)`.
pub open spec fn spec_edges_emitted_between(
    eprops: Seq<EdgeProperties>,
    hovered_edge: Option<usize>,
    from: int,
    to: int,
) -> nat
    decreases to - from,
{
    if from >= to {
        0nat
    } else {
        (if spec_edge_emitted(eprops, hovered_edge, from) {
            1nat
        } else {
            0nat
        }) + spec_edges_emitted_between(eprops, hovered_edge, from + 1, to)
    }
}

/// The canonical pairing index of an edge's endpoints:
/// `max * (max - 1) / 2 + min`.
pub open spec fn spec_edge_label_index(e: (usize, usize)) -> int {
    let mn: int = if e.0 <= e.1 { e.0 as int } else { e.1 as int };
    let mx: int = if e.0 <= e.1 { e.1 as int } else { e.0 as int };
    mx * (mx - 1) / 2 + mn
}

/// Which side of the segment an edge label sits on: a fixed-slope quadrant
/// rule standing for the source angle test (direction angle modulo a half
/// turn, shifted, compared against the quarter boundaries).
pub open spec fn spec_edge_label_offset(dx0: int, dy0: int) -> (int, int) {
    let dx: int = if dy0 < 0 || (dy0 == 0 && dx0 < 0) { -dx0 } else { dx0 };
    let dy: int = if dy0 < 0 || (dy0 == 0 && dx0 < 0) { -dy0 } else { dy0 };
    if dx == 0 && dy == 0 {
        (-10int, -10int)
    } else if dx > 0 && 1000000 * dy < 1895756 * dx {
        (-10int, -10int)
    } else if dx >= 0 {
        (10int, -10int)
    } else if 1000000 * dy > 3232728 * (-dx) {
        (10int, -10int)
    } else if 1000000 * dy > 527493 * (-dx) {
        (-10int, -10int)
    } else {
        (10int, -10int)
    }
}

/// Where an edge label sits: the segment midpoint plus the quadrant offset.
pub open spec fn spec_edge_label_position(s: Point, t: Point) -> Point {
    let off = spec_edge_label_offset(t.x - s.x, t.y - s.y);
    Point {
        x: (spec_div_trunc(s.x + t.x, 2) + off.0) as i64,
        y: (spec_div_trunc(s.y + t.y, 2) + off.1) as i64,
    }
}

/// What the drawable of edge `j` must hold, when it is emitted.
pub open spec fn spec_edge_drawable_ok(
    d: DrawableEdge,
    eprops: Seq<EdgeProperties>,
    vprops: Seq<VertexProperties>,
    hovered_edge: Option<usize>,
    cfg: &EdgeDrawConfig,
    j: int,
) -> bool {
    let ep = eprops[j];
    let s = spec_position_in(vprops, ep.vertices.0 as int);
    let t = spec_position_in(vprops, ep.vertices.1 as int);
    let hovered_here = hovered_edge == Some(j as usize);
    let color: Color = if hovered_here {
        cfg.highlight_color
    } else {
        spec_edge_state_color(ep.draw_state, cfg)
    };
    let bump: int = if hovered_here {
        2int
    } else {
        0int
    };
    &&& d.start == s
    &&& d.end == t
    &&& d.width == cfg.width + bump
    &&& d.color == color
    &&& if cfg.draw_index {
        &&& d.label matches Some(l)
        &&& l.content@ == (if cfg.zero_indexed {
            spec_dec_digits(spec_edge_label_index(ep.vertices) as nat)
        } else {
            spec_dec_digits((spec_edge_label_index(ep.vertices) + 1) as nat)
        })
        &&& l.position == spec_edge_label_position(s, t)
        &&& l.size == cfg.label_size
        &&& l.color == cfg.label_color
    } else {
        d.label is None
    }
}

/// Builds the drawable of vertex `i`, or nothing when it is hidden and not
/// interacted with.
fn compose_vertex(
    vp: VertexProperties,
    i: usize,
    hovered: Option<usize>,
    dragged: Option<usize>,
    cfg: &VertexDrawConfig,
    Ghost(props): Ghost<Seq<VertexProperties>>,
) -> (r: Option<DrawableVertex>)
    requires
        cfg.wf(),
        vp.wf(),
        0 <= i < props.len(),
        props[i as int] == vp,
        i < 4294967296,
    ensures
        r is Some == spec_vertex_emitted(props, hovered, dragged, i as int),
        r matches Some(d) ==> spec_vertex_drawable_ok(d, props, hovered, dragged, cfg, i as int),
{
    let position = vp.position;

    let mut main_radius = cfg.main_size;
    let mut border_radius = cfg.border_size + main_radius;

    let (mut main_color, mut border_color) = match vp.draw_state {
        DrawState::Default => (cfg.main_color, cfg.border_color),
        DrawState::Highlighted => (cfg.highlight_color, cfg.highlight_color),
        DrawState::Unhighlighted => (cfg.unhighlight_color, cfg.unhighlight_color),
        DrawState::Hidden => (Color { r: 0, g: 0, b: 0, a: 0 }, Color { r: 0, g: 0, b: 0, a: 0 }),
    };

    let mut is_interacted = false;

    if let Some(hovered_index) = hovered {
        if hovered_index == i {
            main_radius += 2;
            border_radius += 2;
            main_color = cfg.highlight_color;
            border_color = cfg.highlight_color;
            is_interacted = true;
        }
    }

    if let Some(dragged_index) = dragged {
        if dragged_index == i {
            main_color = cfg.drag_color;
            border_color = cfg.drag_color;
            is_interacted = true;
        }
    }

    if matches!(vp.draw_state, DrawState::Hidden) && !is_interacted {
        return None;
    }

    let label = if cfg.draw_index {
        let character_width = cfg.label_size;
        let mut string_width = character_width;
        if i >= 10 {
            string_width += character_width;
        }
        let x_offset = div_trunc(-string_width, 2) + 9;
        let y_offset = div_trunc(character_width, 2) - 10;

        let mut content_chars: Vec<char> = Vec::new();
        if cfg.zero_indexed {
            push_u64_decimal(&mut content_chars, i as u64);
        } else {
            push_u64_decimal(&mut content_chars, (i as u64) + 1);
        }
        proof {
            assert(content_chars@ =~= spec_index_label_chars(i as int, cfg.zero_indexed));
        }
        Some(
            DrawableLabel {
                content: chars_to_string(&content_chars),
                position: Point { x: position.x + x_offset, y: position.y + y_offset },
                size: cfg.label_size,
                color: cfg.label_color,
            },
        )
    } else {
        None
    };

    Some(
        DrawableVertex { position, main_radius, border_radius, main_color, border_color, label },
    )
}

/// Builds the drawable of edge `j`, or nothing when it is hidden and not
/// hovered.
fn compose_edge(
    embedding: &GraphInterface,
    j: usize,
    cfg: &EdgeDrawConfig,
) -> (r: Option<DrawableEdge>)
    requires
        embedding.wf(),
        cfg.wf(),
        j < embedding.edge_properties@.len(),
        embedding.edge_properties@[j as int].vertices.0 < 4294967296,
        embedding.edge_properties@[j as int].vertices.1 < 4294967296,
    ensures
        r is Some == spec_edge_emitted(embedding.edge_properties@, embedding.hovered_edge, j as int),
        r matches Some(d) ==> spec_edge_drawable_ok(
            d,
            embedding.edge_properties@,
            embedding.vertex_properties@,
            embedding.hovered_edge,
            cfg,
            j as int,
        ),
{
    let edge = embedding.edge_properties[j];
    let start = embedding.get_position(edge.vertices.0);
    let end = embedding.get_position(edge.vertices.1);

    let mut width = cfg.width;

    let mut color = match edge.draw_state {
        DrawState::Default => cfg.color,
        DrawState::Highlighted => cfg.highlight_color,
        DrawState::Unhighlighted => cfg.unhighlight_color,
        DrawState::Hidden => Color { r: 0, g: 0, b: 0, a: 0 },
    };

    let mut is_hovered = false;

    if let Some(hovered_index) = embedding.hovered_edge {
        if hovered_index == j {
            width += 2;
            color = cfg.highlight_color;
            is_hovered = true;
        }
    }

    if matches!(edge.draw_state, DrawState::Hidden) && !is_hovered {
        return None;
    }

    let label = if cfg.draw_index {
        let min_vertex = if edge.vertices.0 <= edge.vertices.1 {
            edge.vertices.0
        } else {
            edge.vertices.1
        };
        let max_vertex = if edge.vertices.0 <= edge.vertices.1 {
            edge.vertices.1
        } else {
            edge.vertices.0
        };
        let label_index: u64 = if max_vertex == 0 {
            proof {
                assert(spec_edge_label_index(edge.vertices) == 0);
            }
            0
        } else {
            proof {
                lemma_mul_bound(
                    max_vertex as int,
                    max_vertex as int - 1,
                    4294967295int,
                    4294967295int,
                );
                assert((max_vertex as int) * (max_vertex as int - 1) == (max_vertex as u64)
                    * ((max_vertex as u64) - 1)) by (nonlinear_arith)
                    requires 1 <= max_vertex < 4294967296;
            }
            (max_vertex as u64) * ((max_vertex as u64) - 1) / 2 + (min_vertex as u64)
        };
        proof {
            assert(label_index as int == spec_edge_label_index(edge.vertices));
        }

        let off = edge_label_offset(end.x - start.x, end.y - start.y);

        let mut content_chars: Vec<char> = Vec::new();
        if cfg.zero_indexed {
            push_u64_decimal(&mut content_chars, label_index);
            proof {
                assert(content_chars@ =~= spec_dec_digits(
                    spec_edge_label_index(edge.vertices) as nat,
                ));
            }
        } else {
            push_u64_decimal(&mut content_chars, label_index + 1);
            proof {
                assert(content_chars@ =~= spec_dec_digits(
                    (spec_edge_label_index(edge.vertices) + 1) as nat,
                ));
            }
        }
        Some(
            DrawableLabel {
                content: chars_to_string(&content_chars),
                position: Point {
                    x: div_trunc(start.x + end.x, 2) + off.x,
                    y: div_trunc(start.y + end.y, 2) + off.y,
                },
                size: cfg.label_size,
                color: cfg.label_color,
            },
        )
    } else {
        None
    };

    Some(DrawableEdge { start, end, width, color, label })
}

/// The quadrant offset of an edge label for a segment direction.
fn edge_label_offset(dx0: i64, dy0: i64) -> (r: Point)
    requires
        -2 * COORD_LIMIT <= dx0 <= 2 * COORD_LIMIT,
        -2 * COORD_LIMIT <= dy0 <= 2 * COORD_LIMIT,
    ensures
        (r.x as int, r.y as int) == spec_edge_label_offset(dx0 as int, dy0 as int),
{
    let flip = dy0 < 0 || (dy0 == 0 && dx0 < 0);
    let dx = if flip { -dx0 } else { dx0 };
    let dy = if flip { -dy0 } else { dy0 };
    if dx == 0 && dy == 0 {
        Point { x: -10, y: -10 }
    } else if dx > 0 && 1000000 * dy < 1895756 * dx {
        Point { x: -10, y: -10 }
    } else if dx >= 0 {
        Point { x: 10, y: -10 }
    } else if 1000000 * dy > 3232728 * (-dx) {
        Point { x: 10, y: -10 }
    } else if 1000000 * dy > 527493 * (-dx) {
        Point { x: -10, y: -10 }
    } else {
        Point { x: 10, y: -10 }
    }
}

impl DrawableGraph {
    /// Composes the embedding into draw primitives: vertices in reverse
    /// index order (so vertex 0 paints last, on top), edges in forward
    /// order; hidden items are skipped unless hovered or dragged.
    pub fn compose(embedding: &GraphInterface, config: &DrawConfig) -> (r: DrawableGraph)
        requires
            embedding.wf(),
            config.wf(),
            embedding.vertex_properties@.len() <= 4294967296,
            forall|j: int|
                0 <= j < embedding.edge_properties@.len() ==> (
                #[trigger] embedding.edge_properties@[j]).vertices.0 < 4294967296
                    && embedding.edge_properties@[j].vertices.1 < 4294967296,
        ensures
            r.vertices@.len() == spec_vertices_emitted_between(
                embedding.vertex_properties@,
                embedding.hovered_vertex,
                embedding.dragged_vertex,
                0,
                embedding.vertex_properties@.len() as int,
            ),
            forall|i: int|
                0 <= i < embedding.vertex_properties@.len() && spec_vertex_emitted(
                    embedding.vertex_properties@,
                    embedding.hovered_vertex,
                    embedding.dragged_vertex,
                    i,
                ) ==> spec_vertex_drawable_ok(
                    #[trigger] r.vertices@[spec_vertices_emitted_between(
                        embedding.vertex_properties@,
                        embedding.hovered_vertex,
                        embedding.dragged_vertex,
                        i + 1,
                        embedding.vertex_properties@.len() as int,
                    ) as int],
                    embedding.vertex_properties@,
                    embedding.hovered_vertex,
                    embedding.dragged_vertex,
                    &config.vertex_config,
                    i,
                ),
            r.edges@.len() == spec_edges_emitted_between(
                embedding.edge_properties@,
                embedding.hovered_edge,
                0,
                embedding.edge_properties@.len() as int,
            ),
            forall|j: int|
                0 <= j < embedding.edge_properties@.len() && spec_edge_emitted(
                    embedding.edge_properties@,
                    embedding.hovered_edge,
                    j,
                ) ==> spec_edge_drawable_ok(
                    #[trigger] r.edges@[spec_edges_emitted_between(
                        embedding.edge_properties@,
                        embedding.hovered_edge,
                        0,
                        j,
                    ) as int],
                    embedding.edge_properties@,
                    embedding.vertex_properties@,
                    embedding.hovered_edge,
                    &config.edge_config,
                    j,
                ),
    {
        let ghost props = embedding.vertex_properties@;
        let ghost hovered = embedding.hovered_vertex;
        let ghost dragged = embedding.dragged_vertex;
        let n = embedding.vertex_properties.len();

        let mut vertices: Vec<DrawableVertex> = Vec::new();
        let mut index = n;
        while index > 0
            invariant
                embedding.wf(),
                config.wf(),
                props == embedding.vertex_properties@,
                hovered == embedding.hovered_vertex,
                dragged == embedding.dragged_vertex,
                n == props.len(),
                n <= 4294967296,
                index <= n,
                vertices@.len() == spec_vertices_emitted_between(
                    props,
                    hovered,
                    dragged,
                    index as int,
                    n as int,
                ),
                forall|i: int|
                    index <= i < n && spec_vertex_emitted(props, hovered, dragged, i)
                        ==> spec_vertex_drawable_ok(
                        #[trigger] vertices@[spec_vertices_emitted_between(
                            props,
                            hovered,
                            dragged,
                            i + 1,
                            n as int,
                        ) as int],
                        props,
                        hovered,
                        dragged,
                        &config.vertex_config,
                        i,
                    ),
            decreases index,
        {
            index -= 1;
            let vp = embedding.vertex_properties[index];
            let composed = compose_vertex(
                vp,
                index,
                embedding.hovered_vertex,
                embedding.dragged_vertex,
                &config.vertex_config,
                Ghost(props),
            );
            if let Some(d) = composed {
                vertices.push(d);
            }
            proof {
                lemma_vertices_emitted_bound(props, hovered, dragged, index as int, n as int);
                assert forall|i: int|
                    index <= i < n && spec_vertex_emitted(props, hovered, dragged, i)
                        implies spec_vertex_drawable_ok(
                        vertices@[spec_vertices_emitted_between(
                            props,
                            hovered,
                            dragged,
                            i + 1,
                            n as int,
                        ) as int],
                        props,
                        hovered,
                        dragged,
                        &config.vertex_config,
                        i,
                    ) by {
                    if i > index {
                        lemma_vertices_emitted_split(
                            props,
                            hovered,
                            dragged,
                            index as int + 1,
                            i,
                            n as int,
                        );
                        lemma_vertices_emitted_bound(props, hovered, dragged, i, n as int);
                    }
                }
            }
        }

        let ghost eprops = embedding.edge_properties@;
        let ghost hovered_edge = embedding.hovered_edge;
        let m = embedding.edge_properties.len();

        let mut edges: Vec<DrawableEdge> = Vec::new();
        let mut j: usize = 0;
        while j < m
            invariant
                embedding.wf(),
                config.wf(),
                eprops == embedding.edge_properties@,
                hovered_edge == embedding.hovered_edge,
                m == eprops.len(),
                forall|t: int|
                    0 <= t < m ==> (#[trigger] eprops[t]).vertices.0 < 4294967296
                        && eprops[t].vertices.1 < 4294967296,
                j <= m,
                edges@.len() == spec_edges_emitted_between(eprops, hovered_edge, 0, j as int),
                forall|t: int|
                    0 <= t < j && spec_edge_emitted(eprops, hovered_edge, t)
                        ==> spec_edge_drawable_ok(
                        #[trigger] edges@[spec_edges_emitted_between(
                            eprops,
                            hovered_edge,
                            0,
                            t,
                        ) as int],
                        eprops,
                        embedding.vertex_properties@,
                        hovered_edge,
                        &config.edge_config,
                        t,
                    ),
            decreases m - j,
        {
            let composed = compose_edge(embedding, j, &config.edge_config);
            if let Some(d) = composed {
                edges.push(d);
            }
            proof {
                lemma_edges_emitted_split(eprops, hovered_edge, 0, j as int, j + 1);
                assert(spec_edges_emitted_between(eprops, hovered_edge, j + 1, j + 1) == 0);
                assert(spec_edges_emitted_between(eprops, hovered_edge, j as int, j + 1)
                    == (if spec_edge_emitted(eprops, hovered_edge, j as int) {
                    1nat
                } else {
                    0nat
                }));
                assert forall|t: int|
                    0 <= t < j + 1 && spec_edge_emitted(eprops, hovered_edge, t)
                        implies spec_edge_drawable_ok(
                        edges@[spec_edges_emitted_between(eprops, hovered_edge, 0, t) as int],
                        eprops,
                        embedding.vertex_properties@,
                        hovered_edge,
                        &config.edge_config,
                        t,
                    ) by {
                    if t < j {
                        lemma_edges_emitted_split(eprops, hovered_edge, 0, t, j as int);
                        assert(spec_edges_emitted_between(eprops, hovered_edge, t, j as int) == 1
                            + spec_edges_emitted_between(eprops, hovered_edge, t + 1, j as int));
                    }
                }
            }
            j += 1;
        }

        DrawableGraph { vertices, edges }
    }
}

/// Splitting the emitted-vertex count at the first index.
proof fn lemma_vertices_emitted_bound(
    props: Seq<VertexProperties>,
    hovered: Option<usize>,
    dragged: Option<usize>,
    from: int,
    to: int,
)
    requires
        from <= to,
    ensures
        spec_vertices_emitted_between(props, hovered, dragged, from, to)
            == (if from < to && spec_vertex_emitted(props, hovered, dragged, from) {
            1nat
        } else {
            0nat
        }) + spec_vertices_emitted_between(props, hovered, dragged, from + 1, to),
        spec_vertices_emitted_between(props, hovered, dragged, from + 1, to) <= to - from - 1
            || from == to,
    decreases to - from,
{
    if from < to {
        lemma_vertices_emitted_bound(props, hovered, dragged, from + 1, to);
    } else {
        assert(spec_vertices_emitted_between(props, hovered, dragged, from + 1, to) == 0);
    }
}

/// A range of edges none of which is hidden is emitted in full.
proof fn lemma_all_edges_emitted(
    eprops: Seq<EdgeProperties>,
    hovered_edge: Option<usize>,
    from: int,
    to: int,
)
    requires
        0 <= from <= to <= eprops.len(),
        forall|j: int| from <= j < to ==> (#[trigger] eprops[j]).draw_state != DrawState::Hidden,
    ensures
        spec_edges_emitted_between(eprops, hovered_edge, from, to) == to - from,
    decreases to - from,
{
    if from < to {
        lemma_all_edges_emitted(eprops, hovered_edge, from + 1, to);
    }
}

/// Edge-only update law: an embedding whose edge states were just rebuilt
/// from a graph's edge list (as `update_edges` leaves them — one default,
/// never-hidden state per edge) composes into exactly as many drawable
/// edges as the graph has edges; `update_edges` itself guarantees that the
/// vertex positions are untouched.
pub proof fn lemma_edge_only_update(e: &GraphInterface, g: &crate::graph::Graph)
    requires
        e.edge_properties@.len() == g.edges@.len(),
        forall|j: int|
            0 <= j < g.edges@.len() ==> #[trigger] e.edge_properties@[j]
                == crate::graph_interface::default_edge_properties(g.edges@[j]),
    ensures
        spec_edges_emitted_between(
            e.edge_properties@,
            e.hovered_edge,
            0,
            e.edge_properties@.len() as int,
        ) == g.edges@.len(),
{
    assert forall|j: int|
        0 <= j < e.edge_properties@.len() implies (#[trigger] e.edge_properties@[j]).draw_state
        != DrawState::Hidden by {
        assert(e.edge_properties@[j] == crate::graph_interface::default_edge_properties(
            g.edges@[j],
        ));
    }
    lemma_all_edges_emitted(
        e.edge_properties@,
        e.hovered_edge,
        0,
        e.edge_properties@.len() as int,
    );
}

/// An emitted-vertex count splits at any midpoint of its range.
proof fn lemma_vertices_emitted_split(
    props: Seq<VertexProperties>,
    hovered: Option<usize>,
    dragged: Option<usize>,
    a: int,
    b: int,
    c: int,
)
    requires
        a <= b <= c,
    ensures
        spec_vertices_emitted_between(props, hovered, dragged, a, c)
            == spec_vertices_emitted_between(props, hovered, dragged, a, b)
            + spec_vertices_emitted_between(props, hovered, dragged, b, c),
    decreases b - a,
{
    if a < b {
        lemma_vertices_emitted_split(props, hovered, dragged, a + 1, b, c);
    } else {
        assert(spec_vertices_emitted_between(props, hovered, dragged, a, b) == 0);
    }
}

/// An emitted-edge count splits at any midpoint of its range.
proof fn lemma_edges_emitted_split(
    eprops: Seq<EdgeProperties>,
    hovered_edge: Option<usize>,
    a: int,
    b: int,
    c: int,
)
    requires
        a <= b <= c,
    ensures
        spec_edges_emitted_between(eprops, hovered_edge, a, c) == spec_edges_emitted_between(
            eprops,
            hovered_edge,
            a,
            b,
        ) + spec_edges_emitted_between(eprops, hovered_edge, b, c),
    decreases b - a,
{
    if a < b {
        lemma_edges_emitted_split(eprops, hovered_edge, a + 1, b, c);
    } else {
        assert(spec_edges_emitted_between(eprops, hovered_edge, a, b) == 0);
    }
}

} // verus!
