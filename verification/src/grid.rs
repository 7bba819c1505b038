//! Square and circular reference grids and the alignment passes that pull
//! vertices toward them.
//!
//! Each pass computes, per vertex, the nearest grid feature (a grid-line
//! intersection, or a concentric ring) and a force toward it whose magnitude
//! follows the parabolic profile `4*x*(1-x)` of the distance, scaled by a
//! fixed gain of five; the circular pass signs the force toward whichever
//! side of the half-ring boundary the vertex sits on. All arithmetic is
//! integer: divisions truncate toward zero and each force component is
//! finally confined to the integrator's force range.

use crate::geometry::{
    div_trunc_i128, isqrt, lemma_div_trunc_abs, lemma_mul_bound, lemma_round_mul_bound,
    lemma_sq_bound, round_div, spec_clamp, spec_div_trunc, spec_isqrt, spec_round_div, sq, Point,
    COORD_LIMIT,
};
use crate::graph_interface::{GraphInterface, VertexProperties, FORCE_LIMIT};
use vstd::prelude::*;

verus! {

/// A rectangular grid: line spacing and offset per axis.
pub struct SquareGrid {
    pub x_delta: i64,
    pub y_delta: i64,
    pub x_offset: i64,
    pub y_offset: i64,
}

impl SquareGrid {
    /// Spacings are positive and everything is in coordinate range.
    pub open spec fn wf(&self) -> bool {
        &&& 1 <= self.x_delta <= COORD_LIMIT
        &&& 1 <= self.y_delta <= COORD_LIMIT
        &&& 0 <= self.x_offset <= COORD_LIMIT
        &&& 0 <= self.y_offset <= COORD_LIMIT
    }

    pub fn new(x_delta: i64, y_delta: i64) -> (g: SquareGrid)
        requires
            1 <= x_delta <= COORD_LIMIT,
            1 <= y_delta <= COORD_LIMIT,
        ensures
            g == (SquareGrid { x_delta, y_delta, x_offset: 0i64, y_offset: 0i64 }),
            g.wf(),
    {
        SquareGrid { x_delta, y_delta, x_offset: 0, y_offset: 0 }
    }

    /// Makes both spacings the smaller of the two.
    pub fn make_square(&mut self)
        requires
            old(self).wf(),
        ensures
            final(self).wf(),
            final(self).x_delta == final(self).y_delta,
            final(self).x_delta == (if old(self).x_delta <= old(self).y_delta {
                old(self).x_delta
            } else {
                old(self).y_delta
            }),
            final(self).x_offset == old(self).x_offset,
            final(self).y_offset == old(self).y_offset,
    {
        let min = if self.x_delta <= self.y_delta {
            self.x_delta
        } else {
            self.y_delta
        };
        self.x_delta = min;
        self.y_delta = min;
    }

    pub fn set_deltas(&mut self, x_delta: i64, y_delta: i64)
        requires
            old(self).wf(),
            1 <= x_delta <= COORD_LIMIT,
            1 <= y_delta <= COORD_LIMIT,
        ensures
            final(self).wf(),
            final(self).x_delta == x_delta,
            final(self).y_delta == y_delta,
            final(self).x_offset == old(self).x_offset,
            final(self).y_offset == old(self).y_offset,
    {
        self.x_delta = x_delta;
        self.y_delta = y_delta;
    }

    pub fn set_deltas_square(&mut self, delta: i64)
        requires
            old(self).wf(),
            1 <= delta <= COORD_LIMIT,
        ensures
            final(self).wf(),
            final(self).x_delta == delta,
            final(self).y_delta == delta,
            final(self).x_offset == old(self).x_offset,
            final(self).y_offset == old(self).y_offset,
    {
        self.set_deltas(delta, delta);
    }

    /// Centers the grid on the window: each offset is the window midpoint
    /// reduced modulo the spacing.
    pub fn set_offsets_from_window(&mut self, window_dimensions: Point)
        requires
            old(self).wf(),
            0 <= window_dimensions.x <= COORD_LIMIT,
            0 <= window_dimensions.y <= COORD_LIMIT,
        ensures
            final(self).wf(),
            final(self).x_delta == old(self).x_delta,
            final(self).y_delta == old(self).y_delta,
            final(self).x_offset == (window_dimensions.x as int / 2) % (old(self).x_delta as int),
            final(self).y_offset == (window_dimensions.y as int / 2) % (old(self).y_delta as int),
    {
        self.x_offset = (((window_dimensions.x as u64) / 2) % (self.x_delta as u64)) as i64;
        self.y_offset = (((window_dimensions.y as u64) / 2) % (self.y_delta as u64)) as i64;
    }

    /// Mean of the two spacings.
    pub fn delta_avg(&self) -> (a: i64)
        requires
            self.wf(),
        ensures
            a == (self.x_delta + self.y_delta) as int / 2,
            1 <= a <= COORD_LIMIT,
    {
        (((self.x_delta as u64) + (self.y_delta as u64)) / 2) as i64
    }
}

/// A circular grid: concentric rings around a center, `r_delta` apart,
/// drawn out to radius `max`.
pub struct CircleGrid {
    pub r_delta: i64,
    pub center: Point,
    pub max: i64,
}

impl CircleGrid {
    pub open spec fn wf(&self) -> bool {
        &&& 1 <= self.r_delta <= COORD_LIMIT
        &&& self.center.in_range()
        &&& 0 <= self.max <= COORD_LIMIT
    }

    /// Builds the grid centered on the window; the rings reach out to the
    /// larger window dimension.
    pub fn new(r_delta: i64, window_dimensions: Point) -> (g: CircleGrid)
        requires
            1 <= r_delta <= COORD_LIMIT,
            0 <= window_dimensions.x <= COORD_LIMIT,
            0 <= window_dimensions.y <= COORD_LIMIT,
        ensures
            g.wf(),
            g.r_delta == r_delta,
            g.max == (if window_dimensions.x >= window_dimensions.y {
                window_dimensions.x
            } else {
                window_dimensions.y
            }),
            g.center.x == window_dimensions.x as int / 2,
            g.center.y == window_dimensions.y as int / 2,
    {
        let max = if window_dimensions.x >= window_dimensions.y {
            window_dimensions.x
        } else {
            window_dimensions.y
        };
        let center = Point {
            x: ((window_dimensions.x as u64) / 2) as i64,
            y: ((window_dimensions.y as u64) / 2) as i64,
        };
        CircleGrid { r_delta, center, max }
    }

    pub fn set_r_delta(&mut self, r_delta: i64)
        requires
            old(self).wf(),
            1 <= r_delta <= COORD_LIMIT,
        ensures
            final(self).wf(),
            final(self).r_delta == r_delta,
            final(self).center == old(self).center,
            final(self).max == old(self).max,
    {
        self.r_delta = r_delta;
    }

    pub fn set_from_window(&mut self, window_dimensions: Point)
        requires
            old(self).wf(),
            0 <= window_dimensions.x <= COORD_LIMIT,
            0 <= window_dimensions.y <= COORD_LIMIT,
        ensures
            final(self).wf(),
            final(self).r_delta == old(self).r_delta,
            final(self).max == (if window_dimensions.x >= window_dimensions.y {
                window_dimensions.x
            } else {
                window_dimensions.y
            }),
            final(self).center.x == window_dimensions.x as int / 2,
            final(self).center.y == window_dimensions.y as int / 2,
    {
        self.max = if window_dimensions.x >= window_dimensions.y {
            window_dimensions.x
        } else {
            window_dimensions.y
        };
        self.center = Point {
            x: ((window_dimensions.x as u64) / 2) as i64,
            y: ((window_dimensions.y as u64) / 2) as i64,
        };
    }
}

/// The force pulling a displaced vertex back toward a grid feature `d` away
/// along displacement `(ddx, ddy)`: gain five times the parabolic profile of
/// the distance against the half-period `avg`, directed along the
/// displacement, each component confined to the integrator's force range.
/// A zero displacement contributes no force.
pub open spec fn spec_parabolic_force(ddx: int, ddy: int, avg: int) -> (int, int) {
    let d = spec_isqrt((sq(ddx) + sq(ddy)) as nat) as int;
    if d == 0 {
        (0int, 0int)
    } else {
        let m = spec_div_trunc(5 * d * (2 * avg - d), avg * avg);
        (
            spec_clamp(
                spec_div_trunc(m * ddx, d),
                -FORCE_LIMIT as int,
                FORCE_LIMIT as int,
            ),
            spec_clamp(
                spec_div_trunc(m * ddy, d),
                -FORCE_LIMIT as int,
                FORCE_LIMIT as int,
            ),
        )
    }
}

/// The grid-line intersection nearest to `pos` (rounding half away from
/// zero on each axis).
pub open spec fn spec_square_closest(pos: Point, grid: &SquareGrid) -> (int, int) {
    (
        spec_round_div(pos.x - grid.x_offset, grid.x_delta as int) * grid.x_delta + grid.x_offset,
        spec_round_div(pos.y - grid.y_offset, grid.y_delta as int) * grid.y_delta + grid.y_offset,
    )
}

/// The square-grid alignment force on a vertex at `pos`.
pub open spec fn spec_square_align_force(pos: Point, grid: &SquareGrid) -> Point {
    let c = spec_square_closest(pos, grid);
    let f = spec_parabolic_force(
        c.0 - pos.x,
        c.1 - pos.y,
        (grid.x_delta + grid.y_delta) / 2,
    );
    Point { x: f.0 as i64, y: f.1 as i64 }
}

/// The circular-grid alignment force on a vertex at `pos`: the parabolic
/// profile of the center distance reduced modulo the ring spacing, signed
/// toward whichever side of the half-ring boundary the vertex sits, along
/// the radial direction. A vertex exactly at the center is skipped.
pub open spec fn spec_circular_align_force(pos: Point, grid: &CircleGrid) -> Point {
    let ddx = pos.x - grid.center.x;
    let ddy = pos.y - grid.center.y;
    if ddx == 0 && ddy == 0 {
        Point { x: 0i64, y: 0i64 }
    } else {
        let c = spec_isqrt((sq(ddx) + sq(ddy)) as nat) as int;
        let dmod = c % (grid.r_delta as int);
        let sign: int = if 2 * dmod - grid.r_delta >= 0 {
            1int
        } else {
            -1int
        };
        let m = spec_div_trunc(
            20 * dmod * (grid.r_delta - dmod),
            grid.r_delta * grid.r_delta,
        );
        Point {
            x: spec_clamp(
                sign * spec_div_trunc(m * ddx, c),
                -FORCE_LIMIT as int,
                FORCE_LIMIT as int,
            ) as i64,
            y: spec_clamp(
                sign * spec_div_trunc(m * ddy, c),
                -FORCE_LIMIT as int,
                FORCE_LIMIT as int,
            ) as i64,
        }
    }
}

/// Computes the parabolic alignment force for displacement `(ddx, ddy)`
/// against half-period `avg`.
fn parabolic_force(ddx: i64, ddy: i64, avg: i64) -> (f: Point)
    requires
        -134217728 <= ddx <= 134217728,
        -134217728 <= ddy <= 134217728,
        1 <= avg <= COORD_LIMIT,
    ensures
        (f.x as int, f.y as int) == spec_parabolic_force(ddx as int, ddy as int, avg as int),
        -FORCE_LIMIT <= f.x <= FORCE_LIMIT,
        -FORCE_LIMIT <= f.y <= FORCE_LIMIT,
{
    proof {
        lemma_sq_bound(ddx as int, 134217728int);
        lemma_sq_bound(ddy as int, 134217728int);
    }
    let d2 = ddx * ddx + ddy * ddy;
    let d = isqrt(d2 as u64);
    if d == 0 {
        return Point { x: 0, y: 0 };
    }
    proof {
        assert(d <= 268435456) by {
            if d > 268435456 {
                assert(sq(d as int) > sq(268435456int)) by (nonlinear_arith)
                    requires d > 268435456;
            }
        }
    }
    let di = d as i128;
    let t1 = 5i128 * di;
    proof {
        lemma_mul_bound(t1 as int, 2 * (avg as int) - (d as int), 2147483648int, 536870912int);
    }
    let num = t1 * (2 * (avg as i128) - di);
    proof {
        lemma_sq_bound(avg as int, COORD_LIMIT as int);
        assert(sq(avg as int) >= 1) by (nonlinear_arith)
            requires avg >= 1;
    }
    let den = (avg as i128) * (avg as i128);
    let m = div_trunc_i128(num, den);
    proof {
        lemma_div_trunc_abs(num as int, den as int);
        lemma_mul_bound(m as int, ddx as int, 1152921504606846976int, 134217728int);
        lemma_mul_bound(m as int, ddy as int, 1152921504606846976int, 134217728int);
    }
    let fx = div_trunc_i128(m * (ddx as i128), di);
    let fy = div_trunc_i128(m * (ddy as i128), di);
    proof {
        lemma_div_trunc_abs((m * (ddx as i128)) as int, d as int);
        lemma_div_trunc_abs((m * (ddy as i128)) as int, d as int);
    }
    Point { x: clamp_force(fx), y: clamp_force(fy) }
}

/// Confines an intermediate force component to the integrator's range.
fn clamp_force(v: i128) -> (r: i64)
    ensures
        r == spec_clamp(v as int, -FORCE_LIMIT as int, FORCE_LIMIT as int),
{
    if v > FORCE_LIMIT as i128 {
        FORCE_LIMIT
    } else if v < -FORCE_LIMIT as i128 {
        -FORCE_LIMIT
    } else {
        v as i64
    }
}

impl GraphInterface {
    /// One square-grid alignment pass: pulls every vertex toward its nearest
    /// grid-line intersection through the common integrator (the dragged
    /// vertex stays exempt, results stay clamped to the canvas).
    pub fn align_to_square_grid(&mut self, grid: &SquareGrid)
        requires
            old(self).wf(),
            grid.wf(),
        ensures
            final(self).wf(),
            final(self).vertex_properties@.len() == old(self).vertex_properties@.len(),
            forall|i: int|
                0 <= i < old(self).vertex_properties@.len() ==> #[trigger] final(self).vertex_properties@[i]
                    == (VertexProperties {
                    position: if old(self).dragged_vertex matches Some(d) && d == i {
                        old(self).vertex_properties@[i].position
                    } else {
                        Point {
                            x: spec_clamp(
                                old(self).vertex_properties@[i].position.x
                                    + spec_square_align_force(
                                    old(self).vertex_properties@[i].position,
                                    grid,
                                ).x,
                                0,
                                old(self).canvas_width as int,
                            ) as i64,
                            y: spec_clamp(
                                old(self).vertex_properties@[i].position.y
                                    + spec_square_align_force(
                                    old(self).vertex_properties@[i].position,
                                    grid,
                                ).y,
                                0,
                                old(self).canvas_height as int,
                            ) as i64,
                        }
                    },
                    ..old(self).vertex_properties@[i]
                }),
            final(self).edge_properties@ == old(self).edge_properties@,
            final(self).dragged_vertex == old(self).dragged_vertex,
            final(self).hovered_vertex == old(self).hovered_vertex,
            final(self).hovered_edge == old(self).hovered_edge,
            final(self).drag_state_view() == old(self).drag_state_view(),
            final(self).gesture() == old(self).gesture(),
            final(self).history() == old(self).history(),
            final(self).current_highlight_graph == old(self).current_highlight_graph,
            final(self).canvas_width == old(self).canvas_width,
            final(self).canvas_height == old(self).canvas_height,
    {
        let mut forces: Vec<Point> = Vec::new();
        let delta_avg = grid.delta_avg();

        let mut i: usize = 0;
        while i < self.vertex_properties.len()
            invariant
                self.wf(),
                grid.wf(),
                i <= self.vertex_properties@.len(),
                1 <= delta_avg <= COORD_LIMIT,
                delta_avg == (grid.x_delta + grid.y_delta) as int / 2,
                forces@.len() == i,
                forall|t: int|
                    0 <= t < i ==> #[trigger] forces@[t] == spec_square_align_force(
                        self.vertex_properties@[t].position,
                        grid,
                    ),
                forall|t: int|
                    0 <= t < i ==> -FORCE_LIMIT <= (#[trigger] forces@[t]).x <= FORCE_LIMIT
                        && -FORCE_LIMIT <= forces@[t].y <= FORCE_LIMIT,
            decreases self.vertex_properties@.len() - i,
        {
            let p = self.vertex_properties[i].position;
            let rx = round_div(p.x - grid.x_offset, grid.x_delta);
            let ry = round_div(p.y - grid.y_offset, grid.y_delta);
            proof {
                lemma_round_mul_bound(
                    p.x - grid.x_offset as int,
                    grid.x_delta as int,
                    2 * COORD_LIMIT as int,
                );
                lemma_round_mul_bound(
                    p.y - grid.y_offset as int,
                    grid.y_delta as int,
                    2 * COORD_LIMIT as int,
                );
            }
            let cx = rx * grid.x_delta + grid.x_offset;
            let cy = ry * grid.y_delta + grid.y_offset;
            let f = parabolic_force(cx - p.x, cy - p.y, delta_avg);
            forces.push(f);
            i += 1;
        }

        self.apply_forces(&forces);
    }

    /// One circular-grid alignment pass: pulls every vertex radially toward
    /// its nearest ring through the common integrator (the dragged vertex
    /// stays exempt, results stay clamped to the canvas).
    pub fn align_to_circular_grid(&mut self, grid: &CircleGrid)
        requires
            old(self).wf(),
            grid.wf(),
        ensures
            final(self).wf(),
            final(self).vertex_properties@.len() == old(self).vertex_properties@.len(),
            forall|i: int|
                0 <= i < old(self).vertex_properties@.len() ==> #[trigger] final(self).vertex_properties@[i]
                    == (VertexProperties {
                    position: if old(self).dragged_vertex matches Some(d) && d == i {
                        old(self).vertex_properties@[i].position
                    } else {
                        Point {
                            x: spec_clamp(
                                old(self).vertex_properties@[i].position.x
                                    + spec_circular_align_force(
                                    old(self).vertex_properties@[i].position,
                                    grid,
                                ).x,
                                0,
                                old(self).canvas_width as int,
                            ) as i64,
                            y: spec_clamp(
                                old(self).vertex_properties@[i].position.y
                                    + spec_circular_align_force(
                                    old(self).vertex_properties@[i].position,
                                    grid,
                                ).y,
                                0,
                                old(self).canvas_height as int,
                            ) as i64,
                        }
                    },
                    ..old(self).vertex_properties@[i]
                }),
            final(self).edge_properties@ == old(self).edge_properties@,
            final(self).dragged_vertex == old(self).dragged_vertex,
            final(self).hovered_vertex == old(self).hovered_vertex,
            final(self).hovered_edge == old(self).hovered_edge,
            final(self).drag_state_view() == old(self).drag_state_view(),
            final(self).gesture() == old(self).gesture(),
            final(self).history() == old(self).history(),
            final(self).current_highlight_graph == old(self).current_highlight_graph,
            final(self).canvas_width == old(self).canvas_width,
            final(self).canvas_height == old(self).canvas_height,
    {
        let mut forces: Vec<Point> = Vec::new();

        let mut i: usize = 0;
        while i < self.vertex_properties.len()
            invariant
                self.wf(),
                grid.wf(),
                i <= self.vertex_properties@.len(),
                forces@.len() == i,
                forall|t: int|
                    0 <= t < i ==> #[trigger] forces@[t] == spec_circular_align_force(
                        self.vertex_properties@[t].position,
                        grid,
                    ),
                forall|t: int|
                    0 <= t < i ==> -FORCE_LIMIT <= (#[trigger] forces@[t]).x <= FORCE_LIMIT
                        && -FORCE_LIMIT <= forces@[t].y <= FORCE_LIMIT,
            decreases self.vertex_properties@.len() - i,
        {
            let p = self.vertex_properties[i].position;
            let f = circular_force(p, grid);
            forces.push(f);
            i += 1;
        }

        self.apply_forces(&forces);
    }
}

/// Computes the circular-grid alignment force for one vertex position.
fn circular_force(p: Point, grid: &CircleGrid) -> (f: Point)
    requires
        p.in_range(),
        grid.wf(),
    ensures
        f == spec_circular_align_force(p, grid),
        -FORCE_LIMIT <= f.x <= FORCE_LIMIT,
        -FORCE_LIMIT <= f.y <= FORCE_LIMIT,
{
    let ddx = p.x - grid.center.x;
    let ddy = p.y - grid.center.y;
    if ddx == 0 && ddy == 0 {
        return Point { x: 0, y: 0 };
    }
    proof {
        lemma_sq_bound(ddx as int, 2 * COORD_LIMIT as int);
        lemma_sq_bound(ddy as int, 2 * COORD_LIMIT as int);
    }
    let d2 = ddx * ddx + ddy * ddy;
    let c = isqrt(d2 as u64);
    proof {
        assert((ddx as int) * (ddx as int) + (ddy as int) * (ddy as int) >= 1)
            by (nonlinear_arith)
            requires ddx != 0 || ddy != 0;
        assert(sq(1int) == 1);
        assert(d2 as u64 >= 1);
        assert(sq(c as int) <= (d2 as u64) && (d2 as u64) < sq(c as int + 1));
        assert(c >= 1) by {
            if c == 0 {
                assert(sq(c as int + 1) == 1);
            }
        }
        assert(c <= 268435456) by {
            if c > 268435456 {
                assert(sq(c as int) > sq(268435456int)) by (nonlinear_arith)
                    requires c > 268435456;
            }
        }
    }
    let dmod = (c % (grid.r_delta as u64)) as i64;
    let sign_positive = 2 * dmod - grid.r_delta >= 0;
    proof {
        lemma_mul_bound(
            20 * dmod as int,
            grid.r_delta as int - dmod as int,
            1342177280int,
            33554432int,
        );
        lemma_sq_bound(grid.r_delta as int, COORD_LIMIT as int);
        assert(sq(grid.r_delta as int) >= 1) by (nonlinear_arith)
            requires grid.r_delta >= 1;
    }
    let num = 20i128 * (dmod as i128) * ((grid.r_delta as i128) - (dmod as i128));
    let den = (grid.r_delta as i128) * (grid.r_delta as i128);
    let m = div_trunc_i128(num, den);
    proof {
        lemma_div_trunc_abs(num as int, den as int);
        lemma_mul_bound(m as int, ddx as int, 72057594037927936int, 33554432int);
        lemma_mul_bound(m as int, ddy as int, 72057594037927936int, 33554432int);
    }
    let tx = div_trunc_i128(m * (ddx as i128), c as i128);
    let ty = div_trunc_i128(m * (ddy as i128), c as i128);
    proof {
        lemma_div_trunc_abs((m * (ddx as i128)) as int, c as int);
        lemma_div_trunc_abs((m * (ddy as i128)) as int, c as int);
    }
    proof {
        let ddxi = ddx as int;
        let ddyi = ddy as int;
        let ci = spec_isqrt((sq(ddxi) + sq(ddyi)) as nat) as int;
        assert(c as int == ci);
        let dmodi = ci % (grid.r_delta as int);
        assert(dmod as int == dmodi);
        let mi = spec_div_trunc(
            20 * dmodi * (grid.r_delta - dmodi),
            grid.r_delta * grid.r_delta,
        );
        assert(num as int == 20 * dmodi * (grid.r_delta - dmodi));
        assert(den as int == grid.r_delta * grid.r_delta);
        assert(m as int == mi);
        assert(tx as int == spec_div_trunc(mi * ddxi, ci));
        assert(ty as int == spec_div_trunc(mi * ddyi, ci));
        let txs = spec_div_trunc(mi * ddxi, ci);
        let tys = spec_div_trunc(mi * ddyi, ci);
        let signi: int = if 2 * dmodi - grid.r_delta >= 0 {
            1int
        } else {
            -1int
        };
        if 2 * dmodi - grid.r_delta >= 0 {
            assert(signi * txs == txs) by (nonlinear_arith)
                requires signi == 1;
            assert(signi * tys == tys) by (nonlinear_arith)
                requires signi == 1;
        } else {
            assert(signi * txs == -txs) by (nonlinear_arith)
                requires signi == -1;
            assert(signi * tys == -tys) by (nonlinear_arith)
                requires signi == -1;
        }
    }
    if sign_positive {
        Point { x: clamp_force(tx), y: clamp_force(ty) }
    } else {
        Point { x: clamp_force(-tx), y: clamp_force(-ty) }
    }
}

} // verus!
