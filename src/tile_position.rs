use vstd::prelude::*;
use crate::fixed::{
    abs, abs_i64, div_trunc, round_half_away, round_units, HALF, SCALE,
};
use crate::vector::{Vec2, Vec3};

verus! {

/// Bound on the axial coordinates that can be taken to world space.
pub const TILE_LIMIT: i64 = 0x200_0000_0000;

/// Bound on the world coordinates that can be taken to axial coordinates.
pub const WORLD_LIMIT: i64 = 0x100_0000_0000;

/// Bound on the axial coordinates that can be rounded.
pub const ROUND_LIMIT: i64 = 0x0800_0000_0000_0000;

/// An axial coordinate on a flat-top hex grid, in fixed point: `SCALE` steps
/// make one tile. The third cube coordinate is `s = -q - r`.
///
/// World space is measured on the grid's own lattice: a world `x` step is
/// `1 / SCALE` of half a circumradius, a world `y` step is `1 / SCALE` of an
/// inradius. In these units the tile basis vectors are `(3, 1)` for `q` and
/// `(0, 2)` for `r`, so the maps to and from world space are exact.
#[derive(Clone, Copy, Debug, PartialEq, Eq, Structural)]
pub struct TilePosition {
    pub q: i64,
    pub r: i64,
}

/// The six neighbour directions of a tile.
#[derive(Clone, Copy, Debug, PartialEq, Eq, Structural)]
pub enum Direction {
    N,
    NE,
    SE,
    S,
    SW,
    NW,
}

/// Axial offset of a direction, in tiles.
pub open spec fn direction_axial(d: Direction) -> (int, int) {
    match d {
        Direction::N => (0, -1),
        Direction::NE => (1, -1),
        Direction::SE => (1, 0),
        Direction::S => (0, 1),
        Direction::SW => (-1, 1),
        Direction::NW => (-1, 0),
    }
}

/// World offset of a direction as used for drawing, in lattice units.
pub open spec fn direction_world(d: Direction) -> (int, int) {
    match d {
        Direction::N => (0, 2),
        Direction::NE => (2, 1),
        Direction::SE => (2, -1),
        Direction::S => (0, -2),
        Direction::SW => (-2, -1),
        Direction::NW => (-2, 1),
    }
}

/// World position of the axial point `(q, r)`.
pub open spec fn to_world_spec(q: int, r: int) -> (int, int) {
    (3 * q, q + 2 * r)
}

/// Axial point of the world position `(x, y)`, truncated to fixed point.
pub open spec fn from_world_spec(x: int, y: int) -> (int, int) {
    (div_trunc(x, 3), div_trunc(3 * y - x, 6))
}

/// Cube rounding, in whole tiles: each of `q`, `r`, `s` is rounded on its own,
/// and the axis whose rounding moved it furthest is recomputed from the other
/// two, so that the three still sum to zero. Ties keep `q`, then `r`.
pub open spec fn round_spec(q: int, r: int) -> (int, int) {
    let s = -q - r;
    let rq = round_half_away(q);
    let rr = round_half_away(r);
    let rs = round_half_away(s);
    let dq = abs(rq * SCALE - q);
    let dr = abs(rr * SCALE - r);
    let ds = abs(rs * SCALE - s);
    if dq > dr && dq > ds {
        (-rr - rs, rr)
    } else if dr > ds {
        (rq, -rq - rs)
    } else {
        (rq, rr)
    }
}

/// Offset of the `i`th corner of a hexagon from its centre, in lattice units:
/// the corners lie at angles `i * 60` degrees, one circumradius out.
pub open spec fn corner_offset(i: int) -> (int, int) {
    if i == 0 {
        (2, 0)
    } else if i == 1 {
        (1, 1)
    } else if i == 2 {
        (-1, 1)
    } else if i == 3 {
        (-2, 0)
    } else if i == 4 {
        (-1, -1)
    } else {
        (1, -1)
    }
}

impl TilePosition {
    pub open spec fn s_spec(self) -> int {
        -self.q - self.r
    }

    /// The tile holds whole-tile coordinates.
    pub open spec fn is_whole(self) -> bool {
        (self.q as int) % (SCALE as int) == 0 && (self.r as int) % (SCALE as int) == 0
    }

    pub open spec fn rounded(self) -> TilePosition {
        let t = round_spec(self.q as int, self.r as int);
        TilePosition { q: (t.0 * SCALE) as i64, r: (t.1 * SCALE) as i64 }
    }

    pub open spec fn world(self) -> Vec2 {
        let w = to_world_spec(self.q as int, self.r as int);
        Vec2 { x: w.0 as i64, y: w.1 as i64 }
    }

    /// World position of this point at height `y`.
    pub open spec fn world3(self, y: i64) -> Vec3 {
        Vec3 { x: self.world().x, y, z: -self.world().y as i64 }
    }

    pub open spec fn in_limits(self) -> bool {
        -TILE_LIMIT <= self.q <= TILE_LIMIT && -TILE_LIMIT <= self.r <= TILE_LIMIT
    }

    pub fn new(q: i64, r: i64) -> (p: TilePosition)
        ensures
            p.q == q && p.r == r,
    {
        TilePosition { q, r }
    }

    /// The tile `(q, r)` given in whole tiles.
    pub fn from_tiles(q: i64, r: i64) -> (p: TilePosition)
        requires
            -TILE_LIMIT <= q <= TILE_LIMIT,
            -TILE_LIMIT <= r <= TILE_LIMIT,
        ensures
            p.q == q * SCALE && p.r == r * SCALE,
    {
        TilePosition { q: q * SCALE, r: r * SCALE }
    }

    /// The derived third cube coordinate.
    pub fn s(&self) -> (r: i64)
        requires
            self.in_limits(),
        ensures
            r == self.s_spec(),
            self.q + self.r + r == 0,
    {
        -self.q - self.r
    }

    /// Cube rounding to the nearest tile centre.
    pub fn round(&self) -> (p: TilePosition)
        requires
            -ROUND_LIMIT <= self.q <= ROUND_LIMIT,
            -ROUND_LIMIT <= self.r <= ROUND_LIMIT,
        ensures
            p == self.rounded(),
            abs(p.q - self.q) <= SCALE,
            abs(p.r - self.r) <= SCALE,
    {
        let s = -self.q - self.r;
        let mut q = round_units(self.q);
        let mut r = round_units(self.r);
        let rs = round_units(s);
        let q_diff = abs_i64(q * SCALE - self.q);
        let r_diff = abs_i64(r * SCALE - self.r);
        let s_diff = abs_i64(rs * SCALE - s);
        if q_diff > r_diff && q_diff > s_diff {
            q = -r - rs;
        } else if r_diff > s_diff {
            r = -q - rs;
        }
        assert(abs(q * SCALE - self.q) <= SCALE && abs(r * SCALE - self.r) <= SCALE);
        TilePosition { q: q * SCALE, r: r * SCALE }
    }

    /// World position of this point on the ground plane.
    pub fn to_vec2(&self) -> (w: Vec2)
        requires
            self.in_limits(),
        ensures
            w == self.world(),
    {
        Vec2 { x: 3 * self.q, y: self.q + 2 * self.r }
    }

    /// World position of this point at height `y`; the plane's `y` axis
    /// becomes `-z`.
    pub fn to_vec3_with_y(&self, y: i64) -> (w: Vec3)
        requires
            self.in_limits(),
        ensures
            w == self.world3(y),
            abs(w.x as int) <= 3 * TILE_LIMIT,
            abs(w.z as int) <= 3 * TILE_LIMIT,
    {
        let p = self.to_vec2();
        Vec3 { x: p.x, y, z: -p.y }
    }

    /// The axial point under a world position on the ground plane.
    pub fn from_vec2(w: &Vec2) -> (p: TilePosition)
        requires
            -WORLD_LIMIT <= w.x <= WORLD_LIMIT,
            -WORLD_LIMIT <= w.y <= WORLD_LIMIT,
        ensures
            p.q == from_world_spec(w.x as int, w.y as int).0,
            p.r == from_world_spec(w.x as int, w.y as int).1,
            abs(p.q as int) <= WORLD_LIMIT,
            abs(p.r as int) <= WORLD_LIMIT,
    {
        let q = div_trunc_i64(w.x, 3);
        let r = div_trunc_i64(3 * w.y - w.x, 6);
        TilePosition { q, r }
    }

    /// The axial point under a world position in space, read from its `x`
    /// and `-z`.
    pub fn from_vec3(w: &Vec3) -> (p: TilePosition)
        requires
            -WORLD_LIMIT <= w.x <= WORLD_LIMIT,
            -WORLD_LIMIT <= w.z <= WORLD_LIMIT,
        ensures
            p.q == from_world_spec(w.x as int, -w.z).0,
            p.r == from_world_spec(w.x as int, -w.z).1,
            abs(p.q as int) <= WORLD_LIMIT,
            abs(p.r as int) <= WORLD_LIMIT,
    {
        TilePosition::from_vec2(&Vec2 { x: w.x, y: -w.z })
    }

    /// The six corners of the hexagon of the tile this point rounds to.
    pub fn corners(&self) -> (c: Vec<Vec2>)
        requires
            -TILE_LIMIT + SCALE <= self.q <= TILE_LIMIT - SCALE,
            -TILE_LIMIT + SCALE <= self.r <= TILE_LIMIT - SCALE,
        ensures
            c@.len() == 6,
            forall|i: int|
                0 <= i < 6 ==> c@[i].x == self.rounded().world().x + corner_offset(i).0 * SCALE
                    && c@[i].y == self.rounded().world().y + corner_offset(i).1 * SCALE,
    {
        let center = self.round().to_vec2();
        let mut c: Vec<Vec2> = Vec::new();
        let mut i: usize = 0;
        while i < 6
            invariant
                0 <= i <= 6,
                center == self.rounded().world(),
                -4 * TILE_LIMIT <= center.x <= 4 * TILE_LIMIT,
                -4 * TILE_LIMIT <= center.y <= 4 * TILE_LIMIT,
                c@.len() == i,
                forall|j: int|
                    0 <= j < i ==> c@[j].x == center.x + corner_offset(j).0 * SCALE
                        && c@[j].y == center.y + corner_offset(j).1 * SCALE,
            decreases 6 - i,
        {
            let (dx, dy): (i64, i64) = if i == 0 {
                (2, 0)
            } else if i == 1 {
                (1, 1)
            } else if i == 2 {
                (-1, 1)
            } else if i == 3 {
                (-2, 0)
            } else if i == 4 {
                (-1, -1)
            } else {
                (1, -1)
            };
            c.push(Vec2 { x: center.x + dx * SCALE, y: center.y + dy * SCALE });
            i = i + 1;
        }
        c
    }
}

impl Direction {
    /// The axial offset of one step in this direction.
    pub fn axial(self) -> (p: TilePosition)
        ensures
            p.q == direction_axial(self).0 * SCALE,
            p.r == direction_axial(self).1 * SCALE,
    {
        match self {
            Direction::N => TilePosition { q: 0, r: -SCALE },
            Direction::NE => TilePosition { q: SCALE, r: -SCALE },
            Direction::SE => TilePosition { q: SCALE, r: 0 },
            Direction::S => TilePosition { q: 0, r: SCALE },
            Direction::SW => TilePosition { q: -SCALE, r: SCALE },
            Direction::NW => TilePosition { q: -SCALE, r: 0 },
        }
    }

    /// The world offset of this direction as drawn on the grid.
    pub fn world(self) -> (w: Vec2)
        ensures
            w.x == direction_world(self).0 * SCALE,
            w.y == direction_world(self).1 * SCALE,
    {
        match self {
            Direction::N => Vec2 { x: 0, y: 2 * SCALE },
            Direction::NE => Vec2 { x: 2 * SCALE, y: SCALE },
            Direction::SE => Vec2 { x: 2 * SCALE, y: -SCALE },
            Direction::S => Vec2 { x: 0, y: -2 * SCALE },
            Direction::SW => Vec2 { x: -2 * SCALE, y: -SCALE },
            Direction::NW => Vec2 { x: -2 * SCALE, y: SCALE },
        }
    }
}

/// Taking an axial point to world space and back gives the point again.
pub proof fn lemma_world_round_trip(p: TilePosition)
    requires
        p.in_limits(),
    ensures
        from_world_spec(p.world().x as int, p.world().y as int) == (p.q as int, p.r as int),
{
    let q = p.q as int;
    let r = p.r as int;
    assert(p.world().x == 3 * q);
    assert(p.world().y == q + 2 * r);
    assert(3 * (q + 2 * r) - 3 * q == 6 * r);
    assert(div_trunc(3 * q, 3) == q) by (nonlinear_arith);
    assert(div_trunc(6 * r, 6) == r) by (nonlinear_arith);
}

/// Rounding gives a tile centre: whole `q`, `r` and `s`, summing to zero, each
/// within one tile of the point rounded.
pub proof fn lemma_round_is_tile_centre(p: TilePosition)
    requires
        -ROUND_LIMIT <= p.q <= ROUND_LIMIT,
        -ROUND_LIMIT <= p.r <= ROUND_LIMIT,
    ensures
        p.rounded().is_whole(),
        p.rounded().q + p.rounded().r + p.rounded().s_spec() == 0,
        abs(p.rounded().q - p.q) <= SCALE,
        abs(p.rounded().r - p.r) <= SCALE,
        abs(p.rounded().s_spec() - p.s_spec()) <= SCALE,
{
    let q = p.q as int;
    let r = p.r as int;
    let s = -q - r;
    let rq = round_half_away(q);
    let rr = round_half_away(r);
    let rs = round_half_away(s);
    lemma_round_half_away_close(q);
    lemma_round_half_away_close(r);
    lemma_round_half_away_close(s);
    let t = round_spec(q, r);
    assert(abs(t.0 * SCALE - q) <= SCALE && abs(t.1 * SCALE - r) <= SCALE
        && abs(-t.0 * SCALE - t.1 * SCALE - s) <= SCALE);
    assert((t.0 * SCALE) % (SCALE as int) == 0) by (nonlinear_arith);
    assert((t.1 * SCALE) % (SCALE as int) == 0) by (nonlinear_arith);
}

proof fn lemma_round_half_away_close(v: int)
    ensures
        abs(round_half_away(v) * SCALE - v) <= HALF,
{
    let r = round_half_away(v);
    if v >= 0 {
        assert(abs(r * SCALE - v) <= HALF) by (nonlinear_arith)
            requires r == (v + HALF) / (SCALE as int), v >= 0;
    } else {
        assert(abs(r * SCALE - v) <= HALF) by (nonlinear_arith)
            requires r == -((-v + HALF) / (SCALE as int)), v < 0;
    }
}

fn div_trunc_i64(a: i64, b: i64) -> (r: i64)
    requires
        b > 0,
        a > i64::MIN,
    ensures
        r == div_trunc(a as int, b as int),
{
    if a >= 0 { a / b } else { -((-a) / b) }
}

} // verus!
