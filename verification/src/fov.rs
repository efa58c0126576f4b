//! Field of view: which tiles an entity at a given position with a given
//! sight radius can see.
//!
//! A tile is visible when it lies within the sight radius (Euclidean) and the
//! straight line from the viewer to it crosses no opaque tile strictly
//! between the two. The line is walked in `steps` equal steps (the Chebyshev
//! distance), each coordinate interpolated with rounding to nearest. Only ice
//! is opaque; an opaque tile itself is visible, like a wall face.

use vstd::prelude::*;
use vstd::arithmetic::div_mod::{lemma_fundamental_div_mod, lemma_mod_bound};
use crate::components::Position;
use crate::map::WorldMap;

verus! {

pub open spec fn abs_val(a: int) -> int {
    if a < 0 {
        -a
    } else {
        a
    }
}

pub open spec fn sign(a: int) -> int {
    if a < 0 {
        -1
    } else if a > 0 {
        1
    } else {
        0
    }
}

/// Number of steps of the line walk from (ox, oy) to (tx, ty): the Chebyshev
/// distance between the two points.
pub open spec fn steps(ox: int, oy: int, tx: int, ty: int) -> int {
    if abs_val(tx - ox) >= abs_val(ty - oy) {
        abs_val(tx - ox)
    } else {
        abs_val(ty - oy)
    }
}

/// One coordinate of the line walk at step `t` of `n`: the interpolated value
/// `o + d * t / n`, rounded to the nearest integer (half away from zero).
pub open spec fn axis_point(o: int, d: int, t: int, n: int) -> int
    recommends
        n >= 1,
{
    o + sign(d) * ((2 * abs_val(d) * t + n) / (2 * n))
}

pub open spec fn line_point_x(ox: int, oy: int, tx: int, ty: int, t: int) -> int {
    axis_point(ox, tx - ox, t, steps(ox, oy, tx, ty))
}

pub open spec fn line_point_y(ox: int, oy: int, tx: int, ty: int, t: int) -> int {
    axis_point(oy, ty - oy, t, steps(ox, oy, tx, ty))
}

/// Whether the tile at (x, y) blocks sight: it is on the map and is ice.
pub open spec fn opaque_at(m: WorldMap, x: int, y: int) -> bool {
    m.spec_in_bounds(x, y) && m.tiles@[m.spec_idx(x, y)] is Ice
}

/// Whether step `t` of the line walk from (ox, oy) to (tx, ty) is blocked.
pub open spec fn lp_blocked(m: WorldMap, ox: int, oy: int, tx: int, ty: int, t: int) -> bool {
    opaque_at(m, line_point_x(ox, oy, tx, ty, t), line_point_y(ox, oy, tx, ty, t))
}

/// Line of sight from (ox, oy) to (tx, ty) is clear: no step strictly between
/// the endpoints is blocked.
pub open spec fn los_clear(m: WorldMap, ox: int, oy: int, tx: int, ty: int) -> bool {
    forall|t: int| 1 <= t < steps(ox, oy, tx, ty) ==> !(#[trigger] lp_blocked(m, ox, oy, tx, ty, t))
}

/// The field-of-view relation: the tile (tx, ty) is visible from (ox, oy)
/// with sight radius `range`.
pub open spec fn in_fov(m: WorldMap, ox: int, oy: int, range: int, tx: int, ty: int) -> bool {
    &&& m.spec_in_bounds(tx, ty)
    &&& (tx - ox) * (tx - ox) + (ty - oy) * (ty - oy) <= range * range
    &&& los_clear(m, ox, oy, tx, ty)
}

/// The field-of-view relation reads only the terrain and the dimensions of
/// the map: two maps that agree on those agree on every field of view.
pub proof fn lemma_fov_depends_on_terrain(
    m1: WorldMap,
    m2: WorldMap,
    ox: int,
    oy: int,
    range: int,
    tx: int,
    ty: int,
)
    requires
        m1.tiles == m2.tiles,
        m1.width == m2.width,
        m1.height == m2.height,
    ensures
        in_fov(m1, ox, oy, range, tx, ty) == in_fov(m2, ox, oy, range, tx, ty),
{
    assert forall|t: int| 1 <= t < steps(ox, oy, tx, ty) implies (lp_blocked(m1, ox, oy, tx, ty, t)
        == lp_blocked(m2, ox, oy, tx, ty, t)) by {}
    if los_clear(m1, ox, oy, tx, ty) {
        assert forall|t: int| 1 <= t < steps(ox, oy, tx, ty) implies !(#[trigger] lp_blocked(
            m2,
            ox,
            oy,
            tx,
            ty,
            t,
        )) by {
            assert(!lp_blocked(m1, ox, oy, tx, ty, t));
        }
    }
    if los_clear(m2, ox, oy, tx, ty) {
        assert forall|t: int| 1 <= t < steps(ox, oy, tx, ty) implies !(#[trigger] lp_blocked(
            m1,
            ox,
            oy,
            tx,
            ty,
            t,
        )) by {
            assert(!lp_blocked(m2, ox, oy, tx, ty, t));
        }
    }
}

/// The interpolation quotient stays between 0 and `a`.
proof fn lemma_axis_quotient(a: int, t: int, n: int)
    requires
        0 <= a <= n,
        0 <= t <= n,
        n >= 1,
    ensures
        0 <= (2 * a * t + n) / (2 * n) <= a,
{
    let num = 2 * a * t + n;
    let den = 2 * n;
    let q = num / den;
    let r = num % den;
    lemma_fundamental_div_mod(num, den);
    lemma_mod_bound(num, den);
    assert(q >= 0) by (nonlinear_arith)
        requires
            num == den * q + r,
            0 <= r < den,
            num >= n,
            n >= 1,
            den == 2 * n,
    ;
    assert(q <= a) by (nonlinear_arith)
        requires
            num == den * q + r,
            0 <= r,
            num == 2 * a * t + n,
            t <= n,
            a >= 0,
            n >= 1,
            den == 2 * n,
    ;
    assert(num >= n) by (nonlinear_arith)
        requires
            num == 2 * a * t + n,
            a >= 0,
            t >= 0,
    ;
}

/// A bound on a sum of squares bounds each coordinate.
proof fn lemma_dist_bound(ax: int, ay: int, r: int)
    requires
        ax * ax + ay * ay <= r * r,
        r >= 0,
    ensures
        -r <= ax <= r,
        -r <= ay <= r,
{
    assert(-r <= ax <= r && -r <= ay <= r) by (nonlinear_arith)
        requires
            ax * ax + ay * ay <= r * r,
            r >= 0,
    ;
}

fn abs_i32(a: i32) -> (r: i32)
    requires
        -10000 <= a <= 10000,
    ensures
        r == abs_val(a as int),
{
    if a < 0 {
        -a
    } else {
        a
    }
}

fn within_radius(dx: i32, dy: i32, range: i32) -> (b: bool)
    requires
        -4000 <= dx <= 4000,
        -4000 <= dy <= 4000,
        0 <= range <= 4000,
    ensures
        b == (dx * dx + dy * dy <= range * range),
{
    proof {
        assert(0 <= dx * dx <= 16_000_000 && 0 <= dy * dy <= 16_000_000 && 0 <= range * range
            <= 16_000_000) by (nonlinear_arith)
            requires
                -4000 <= dx <= 4000,
                -4000 <= dy <= 4000,
                0 <= range <= 4000,
        ;
    }
    dx * dx + dy * dy <= range * range
}

/// Whether the straight line from (ox, oy) to (tx, ty) crosses an opaque tile
/// strictly between the endpoints.
fn line_blocked(m: &WorldMap, ox: i32, oy: i32, tx: i32, ty: i32) -> (b: bool)
    requires
        m.well_formed(),
        m.spec_in_bounds(ox as int, oy as int),
        m.spec_in_bounds(tx as int, ty as int),
    ensures
        b == !los_clear(*m, ox as int, oy as int, tx as int, ty as int),
{
    let dx: i32 = tx - ox;
    let dy: i32 = ty - oy;
    let adx: i32 = abs_i32(dx);
    let ady: i32 = abs_i32(dy);
    let n: i32 = if adx >= ady {
        adx
    } else {
        ady
    };
    assert(n == steps(ox as int, oy as int, tx as int, ty as int));
    if n <= 1 {
        return false;
    }
    let mut t: i32 = 1;
    let mut found = false;
    while t < n
        invariant
            m.well_formed(),
            m.spec_in_bounds(ox as int, oy as int),
            m.spec_in_bounds(tx as int, ty as int),
            dx == tx - ox,
            dy == ty - oy,
            adx == abs_val(dx as int),
            ady == abs_val(dy as int),
            n == steps(ox as int, oy as int, tx as int, ty as int),
            2 <= n <= 4000,
            adx <= n,
            ady <= n,
            1 <= t <= n,
            !found ==> forall|t2: int|
                1 <= t2 < t ==> !(#[trigger] lp_blocked(
                    *m,
                    ox as int,
                    oy as int,
                    tx as int,
                    ty as int,
                    t2,
                )),
            found ==> exists|t2: int|
                1 <= t2 < n && #[trigger] lp_blocked(*m, ox as int, oy as int, tx as int, ty as int, t2),
        decreases n - t,
    {
        proof {
            assert(0 <= 2 * (adx as int) * (t as int) + n <= 32_004_000) by (nonlinear_arith)
                requires
                    0 <= adx <= 4000,
                    0 <= t <= 4000,
                    0 <= n <= 4000,
            ;
            assert(0 <= 2 * (ady as int) * (t as int) + n <= 32_004_000) by (nonlinear_arith)
                requires
                    0 <= ady <= 4000,
                    0 <= t <= 4000,
                    0 <= n <= 4000,
            ;
            lemma_axis_quotient(adx as int, t as int, n as int);
            lemma_axis_quotient(ady as int, t as int, n as int);
        }
        let qx: i32 = (((2 * adx * t + n) as u32) / ((2 * n) as u32)) as i32;
        let qy: i32 = (((2 * ady * t + n) as u32) / ((2 * n) as u32)) as i32;
        let px: i32 = if dx < 0 {
            ox - qx
        } else {
            ox + qx
        };
        let py: i32 = if dy < 0 {
            oy - qy
        } else {
            oy + qy
        };
        proof {
            assert(px == line_point_x(ox as int, oy as int, tx as int, ty as int, t as int));
            assert(py == line_point_y(ox as int, oy as int, tx as int, ty as int, t as int));
            assert(m.spec_in_bounds(px as int, py as int));
        }
        let idx = m.idx(px, py);
        if m.is_opaque(idx) {
            proof {
                assert(lp_blocked(*m, ox as int, oy as int, tx as int, ty as int, t as int));
            }
            found = true;
        }
        t = t + 1;
    }
    found
}

/// Compute the set of tiles visible from (ox, oy) with the given sight
/// radius. The result holds exactly the tiles of the field-of-view relation;
/// a radius of zero sees only the viewer's own tile.
pub fn field_of_view(m: &WorldMap, ox: i32, oy: i32, range: i32) -> (vt: Vec<Position>)
    requires
        m.well_formed(),
        m.spec_in_bounds(ox as int, oy as int),
        0 <= range <= 4000,
    ensures
        forall|p: Position|
            #[trigger] vt@.contains(p) <==> in_fov(*m, ox as int, oy as int, range as int, p.x as int, p.y as int),
{
    let mut vt: Vec<Position> = Vec::new();
    let y0: i32 = if oy - range < 0 {
        0
    } else {
        oy - range
    };
    let y1: i32 = if oy + range > m.height - 1 {
        m.height - 1
    } else {
        oy + range
    };
    let x0: i32 = if ox - range < 0 {
        0
    } else {
        ox - range
    };
    let x1: i32 = if ox + range > m.width - 1 {
        m.width - 1
    } else {
        ox + range
    };
    proof {
        assert forall|p: Position|
            in_fov(*m, ox as int, oy as int, range as int, p.x as int, p.y as int) && p.y < y0
                implies #[trigger] vt@.contains(p) by {
            lemma_dist_bound(p.x - ox, p.y - oy, range as int);
        }
    }
    let mut ty: i32 = y0;
    while ty <= y1
        invariant
            m.well_formed(),
            m.spec_in_bounds(ox as int, oy as int),
            0 <= range <= 4000,
            y0 == if oy - range < 0 { 0int } else { oy - range },
            y1 == if oy + range > m.height - 1 { m.height - 1 } else { oy + range as int },
            x0 == if ox - range < 0 { 0int } else { ox - range },
            x1 == if ox + range > m.width - 1 { m.width - 1 } else { ox + range as int },
            y0 <= ty <= y1 + 1,
            forall|k: int|
                0 <= k < vt@.len() ==> in_fov(
                    *m,
                    ox as int,
                    oy as int,
                    range as int,
                    #[trigger] vt@[k].x as int,
                    vt@[k].y as int,
                ),
            forall|p: Position|
                in_fov(*m, ox as int, oy as int, range as int, p.x as int, p.y as int) && p.y < ty
                    ==> #[trigger] vt@.contains(p),
        decreases y1 + 1 - ty,
    {
        proof {
            assert forall|p: Position|
                in_fov(*m, ox as int, oy as int, range as int, p.x as int, p.y as int) && (p.y < ty
                    || (p.y == ty && p.x < x0)) implies #[trigger] vt@.contains(p) by {
                if p.y == ty as int {
                    lemma_dist_bound(p.x - ox, p.y - oy, range as int);
                }
            }
        }
        let mut tx: i32 = x0;
        while tx <= x1
            invariant
                m.well_formed(),
                m.spec_in_bounds(ox as int, oy as int),
                0 <= range <= 4000,
                x0 == if ox - range < 0 { 0int } else { ox - range },
                x1 == if ox + range > m.width - 1 { m.width - 1 } else { ox + range as int },
                y0 <= ty <= y1,
                0 <= ty < m.height,
                x0 <= tx <= x1 + 1,
                forall|k: int|
                    0 <= k < vt@.len() ==> in_fov(
                        *m,
                        ox as int,
                        oy as int,
                        range as int,
                        #[trigger] vt@[k].x as int,
                        vt@[k].y as int,
                    ),
                forall|p: Position|
                    in_fov(*m, ox as int, oy as int, range as int, p.x as int, p.y as int) && (p.y
                        < ty || (p.y == ty && p.x < tx)) ==> #[trigger] vt@.contains(p),
            decreases x1 + 1 - tx,
        {
            let ghost prev = vt@;
            if within_radius(tx - ox, ty - oy, range) {
                if !line_blocked(m, ox, oy, tx, ty) {
                    vt.push(Position { x: tx, y: ty });
                    proof {
                        assert(vt@[vt@.len() - 1] == (Position { x: tx, y: ty }));
                        assert(vt@.contains(Position { x: tx, y: ty }));
                    }
                }
            }
            proof {
                assert forall|p: Position|
                    in_fov(*m, ox as int, oy as int, range as int, p.x as int, p.y as int) && (p.y
                        < ty || (p.y == ty && p.x < tx + 1)) implies #[trigger] vt@.contains(p) by {
                    if p.y == ty as int && p.x == tx as int {
                        assert(in_fov(*m, ox as int, oy as int, range as int, p.x as int, p.y as int));
                        assert(vt@.last() == p);
                    } else {
                        assert(prev.contains(p));
                        let j = choose|j: int| 0 <= j < prev.len() && prev[j] == p;
                        assert(vt@[j] == p);
                    }
                }
            }
            tx = tx + 1;
        }
        proof {
            assert forall|p: Position|
                in_fov(*m, ox as int, oy as int, range as int, p.x as int, p.y as int) && p.y < ty
                    + 1 implies #[trigger] vt@.contains(p) by {
                if p.y == ty as int {
                    lemma_dist_bound(p.x - ox, p.y - oy, range as int);
                    assert(p.x <= x1);
                }
            }
        }
        ty = ty + 1;
    }
    proof {
        assert forall|p: Position|
            #[trigger] vt@.contains(p) implies in_fov(
            *m,
            ox as int,
            oy as int,
            range as int,
            p.x as int,
            p.y as int,
        ) by {
            let k = choose|k: int| 0 <= k < vt@.len() && vt@[k] == p;
            assert(in_fov(*m, ox as int, oy as int, range as int, vt@[k].x as int, vt@[k].y as int));
        }
        assert forall|p: Position|
            in_fov(*m, ox as int, oy as int, range as int, p.x as int, p.y as int) implies #[trigger] vt@.contains(
            p,
        ) by {
            lemma_dist_bound(p.x - ox, p.y - oy, range as int);
            assert(p.y <= y1);
        }
    }
    vt
}

} // verus!
