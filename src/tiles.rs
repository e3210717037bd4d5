use vstd::prelude::*;
use crate::fixed::{abs, SCALE};
use crate::tile_position::{TilePosition, ROUND_LIMIT};

verus! {

/// Bound on a grid's radius, in tiles.
pub const MAX_RADIUS: i64 = 100_000;

/// One cell of the grid and whether the pointer is over it.
#[derive(Clone, Copy, Debug, PartialEq, Eq, Structural)]
pub struct Tile {
    pub position: TilePosition,
    pub highlighted: bool,
}

/// The hexagonal region of tiles on which structures can be placed.
#[derive(Debug)]
pub struct TileGrid {
    pub radius: i64,
    pub tiles: Vec<Tile>,
}

/// The tile `(q, r)`, in whole tiles, lies in the hexagon of the given
/// radius around the origin.
pub open spec fn in_hex_region(q: int, r: int, radius: int) -> bool {
    abs(q) <= radius && abs(r) <= radius && abs(q + r) <= radius
}

/// `p` is the centre of a tile of the hexagon of the given radius.
pub open spec fn grid_tile(p: TilePosition, radius: int) -> bool {
    p.is_whole() && in_hex_region((p.q as int) / (SCALE as int), (p.r as int) / (SCALE as int), radius)
}

/// Least `r` of row `q` of the hexagon.
pub open spec fn row_lo(q: int, radius: int) -> int {
    if -radius - q > -radius { -radius - q } else { -radius }
}

/// Greatest `r` of row `q` of the hexagon.
pub open spec fn row_hi(q: int, radius: int) -> int {
    if radius - q < radius { radius - q } else { radius }
}

/// Lexicographic order on `(q, r)`.
pub open spec fn before(a: TilePosition, b: TilePosition) -> bool {
    a.q < b.q || (a.q == b.q && a.r < b.r)
}

impl TileGrid {
    pub open spec fn view_tiles(self) -> Seq<Tile> {
        self.tiles@
    }

    /// The grid holds each tile of its hexagon once, in `(q, r)` order, and
    /// nothing else.
    pub open spec fn well_formed(self) -> bool {
        &&& 0 <= self.radius <= MAX_RADIUS
        &&& forall|i: int|
            0 <= i < self.tiles@.len() ==> #[trigger] grid_tile(
                self.tiles@[i].position,
                self.radius as int,
            )
        &&& forall|i: int, j: int|
            0 <= i < j < self.tiles@.len() ==> before(
                self.tiles@[i].position,
                self.tiles@[j].position,
            )
        &&& forall|p: TilePosition|
            #[trigger] grid_tile(p, self.radius as int) ==> exists|i: int|
                0 <= i < self.tiles@.len() && self.tiles@[i].position == p
    }

    /// Whether some tile of the grid sits at `p`.
    pub open spec fn has_tile(self, p: TilePosition) -> bool {
        exists|i: int| 0 <= i < self.tiles@.len() && self.tiles@[i].position == p
    }

    /// Builds the grid of the given radius, with no tile highlighted.
    pub fn spawn_tiles(radius: i64) -> (g: TileGrid)
        requires
            0 <= radius <= MAX_RADIUS,
        ensures
            g.radius == radius,
            g.well_formed(),
            forall|i: int| 0 <= i < g.tiles@.len() ==> !g.tiles@[i].highlighted,
    {
        let mut tiles: Vec<Tile> = Vec::new();
        let mut q: i64 = -radius;
        while q <= radius
            invariant
                0 <= radius <= MAX_RADIUS,
                -radius <= q <= radius + 1,
                forall|i: int| 0 <= i < tiles@.len() ==> #[trigger] grid_tile(tiles@[i].position, radius as int),
                forall|i: int| 0 <= i < tiles@.len() ==> !tiles@[i].highlighted,
                forall|i: int| 0 <= i < tiles@.len() ==> tiles@[i].position.q < q * SCALE,
                forall|i: int, j: int|
                    0 <= i < j < tiles@.len() ==> before(tiles@[i].position, tiles@[j].position),
                forall|p: TilePosition|
                    #[trigger] grid_tile(p, radius as int) && p.q < q * SCALE ==> exists|i: int|
                        0 <= i < tiles@.len() && tiles@[i].position == p,
            decreases radius + 1 - q,
        {
            let lo: i64 = if -radius - q > -radius { -radius - q } else { -radius };
            let hi: i64 = if radius - q < radius { radius - q } else { radius };
            let mut r: i64 = lo;
            while r <= hi
                invariant
                    0 <= radius <= MAX_RADIUS,
                    -radius <= q <= radius,
                    lo == row_lo(q as int, radius as int),
                    hi == row_hi(q as int, radius as int),
                    lo <= r <= hi + 1,
                    forall|i: int| 0 <= i < tiles@.len() ==> #[trigger] grid_tile(tiles@[i].position, radius as int),
                    forall|i: int| 0 <= i < tiles@.len() ==> !tiles@[i].highlighted,
                    forall|i: int|
                        0 <= i < tiles@.len() ==> before(
                            tiles@[i].position,
                            TilePosition { q: (q * SCALE) as i64, r: (r * SCALE) as i64 },
                        ),
                    forall|i: int| 0 <= i < tiles@.len() ==> tiles@[i].position.q <= q * SCALE,
                    forall|i: int, j: int|
                        0 <= i < j < tiles@.len() ==> before(tiles@[i].position, tiles@[j].position),
                    forall|p: TilePosition|
                        #[trigger] grid_tile(p, radius as int) && (p.q < q * SCALE || (p.q == q * SCALE
                            && p.r < r * SCALE)) ==> exists|i: int|
                            0 <= i < tiles@.len() && tiles@[i].position == p,
                decreases hi + 1 - r,
            {
                let p = TilePosition { q: q * SCALE, r: r * SCALE };
                proof {
                    lemma_scaled_tile(q as int, r as int);
                }
                let ghost old_tiles = tiles@;
                tiles.push(Tile { position: p, highlighted: false });
                proof {
                    assert forall|t: TilePosition|
                        #[trigger] grid_tile(t, radius as int) && (t.q < q * SCALE || (t.q == q * SCALE
                            && t.r < (r + 1) * SCALE)) implies exists|i: int|
                            0 <= i < tiles@.len() && tiles@[i].position == t by {
                        if t.q < q * SCALE || (t.q == q * SCALE && t.r < r * SCALE) {
                            let i = choose|i: int| 0 <= i < old_tiles.len() && old_tiles[i].position == t;
                            assert(tiles@[i] == old_tiles[i]);
                        } else {
                            lemma_whole_between(t.r as int, r as int);
                            assert(t == p);
                            assert(tiles@[old_tiles.len() as int].position == t);
                        }
                    }
                }
                r = r + 1;
            }
            proof {
                assert forall|t: TilePosition|
                    #[trigger] grid_tile(t, radius as int) && t.q < (q + 1) * SCALE implies exists|i: int|
                        0 <= i < tiles@.len() && tiles@[i].position == t by {
                    if t.q >= q * SCALE {
                        lemma_whole_between(t.q as int, q as int);
                        lemma_row_bounds(t, q as int, radius as int);
                    }
                }
            }
            q = q + 1;
        }
        proof {
            assert forall|t: TilePosition| #[trigger] grid_tile(t, radius as int) implies t.q < (
            radius + 1) * SCALE by {
                let a = (t.q as int) / (SCALE as int);
                assert(t.q < (a + 1) * SCALE) by (nonlinear_arith)
                    requires a == (t.q as int) / (SCALE as int);
            }
            assert forall|t: TilePosition| #[trigger] grid_tile(t, radius as int) implies exists|i: int|
                0 <= i < tiles@.len() && tiles@[i].position == t by {
                assert(t.q < q * SCALE);
            }
        }
        let g = TileGrid { radius, tiles };
        assert(g.tiles@ == tiles@);
        g
    }

    /// Whether a tile of the grid sits exactly at `p`.
    pub fn contains(&self, p: &TilePosition) -> (r: bool)
        requires
            self.well_formed(),
        ensures
            r == self.has_tile(*p),
            r == grid_tile(*p, self.radius as int),
    {
        let mut i: usize = 0;
        while i < self.tiles.len()
            invariant
                self.well_formed(),
                0 <= i <= self.tiles@.len(),
                forall|j: int| 0 <= j < i ==> self.tiles@[j].position != *p,
            decreases self.tiles@.len() - i,
        {
            if self.tiles[i].position == *p {
                assert(grid_tile(self.tiles@[i as int].position, self.radius as int));
                return true;
            }
            i = i + 1;
        }
        proof {
            if grid_tile(*p, self.radius as int) {
                let j = choose|j: int| 0 <= j < self.tiles@.len() && self.tiles@[j].position == *p;
            }
        }
        false
    }

    /// Marks the tile under the pointer, and only that one: a tile is
    /// highlighted exactly when it sits at the pointer's rounded position.
    pub fn highlight_hovered_tile(&mut self, pointer: &TilePosition)
        requires
            -ROUND_LIMIT <= pointer.q <= ROUND_LIMIT,
            -ROUND_LIMIT <= pointer.r <= ROUND_LIMIT,
        ensures
            final(self).radius == old(self).radius,
            final(self).tiles@.len() == old(self).tiles@.len(),
            forall|i: int|
                0 <= i < final(self).tiles@.len() ==> final(self).tiles@[i].position == old(self).tiles@[i].position && final(self).tiles@[i].highlighted == (final(self).tiles@[i].position == pointer.rounded()),
    {
        let hovered = pointer.round();
        let mut i: usize = 0;
        while i < self.tiles.len()
            invariant
                0 <= i <= self.tiles@.len(),
                hovered == pointer.rounded(),
                self.radius == old(self).radius,
                self.tiles@.len() == old(self).tiles@.len(),
                forall|j: int|
                    0 <= j < self.tiles@.len() ==> self.tiles@[j].position == old(self).tiles@[j].position,
                forall|j: int|
                    0 <= j < i ==> self.tiles@[j].highlighted == (self.tiles@[j].position
                        == hovered),
            decreases self.tiles@.len() - i,
        {
            let position = self.tiles[i].position;
            self.tiles.set(i, Tile { position, highlighted: position == hovered });
            i = i + 1;
        }
    }

    /// Removes every tile.
    pub fn despawn_tiles(&mut self)
        ensures
            final(self).radius == old(self).radius,
            final(self).tiles@.len() == 0,
    {
        self.tiles.clear();
    }
}

/// With each tile highlighted exactly when it sits at `hovered`, at most one
/// tile is highlighted, it sits at `hovered`, and when `hovered` is a tile of
/// the grid that tile is highlighted.
pub proof fn lemma_highlight_exclusive(g: TileGrid, hovered: TilePosition)
    requires
        g.well_formed(),
        forall|i: int|
            0 <= i < g.tiles@.len() ==> #[trigger] g.tiles@[i].highlighted == (
            g.tiles@[i].position == hovered),
    ensures
        forall|i: int, j: int|
            0 <= i < g.tiles@.len() && 0 <= j < g.tiles@.len() && #[trigger] g.tiles@[i].highlighted
                && #[trigger] g.tiles@[j].highlighted ==> i == j,
        forall|i: int|
            0 <= i < g.tiles@.len() && #[trigger] g.tiles@[i].highlighted ==> g.tiles@[i].position
                == hovered,
        grid_tile(hovered, g.radius as int) ==> exists|i: int|
            0 <= i < g.tiles@.len() && #[trigger] g.tiles@[i].highlighted,
{
    assert forall|i: int, j: int|
        0 <= i < g.tiles@.len() && 0 <= j < g.tiles@.len() && #[trigger] g.tiles@[i].highlighted
            && #[trigger] g.tiles@[j].highlighted implies i == j by {
        if i < j {
            assert(before(g.tiles@[i].position, g.tiles@[j].position));
        } else if j < i {
            assert(before(g.tiles@[j].position, g.tiles@[i].position));
        }
    }
    if grid_tile(hovered, g.radius as int) {
        let i = choose|i: int| 0 <= i < g.tiles@.len() && g.tiles@[i].position == hovered;
        assert(g.tiles@[i].highlighted);
    }
}

proof fn lemma_scaled_tile(q: int, r: int)
    ensures
        (q * SCALE) % (SCALE as int) == 0,
        (r * SCALE) % (SCALE as int) == 0,
        (q * SCALE) / (SCALE as int) == q,
        (r * SCALE) / (SCALE as int) == r,
{
    assert((q * SCALE) % (SCALE as int) == 0 && (q * SCALE) / (SCALE as int) == q) by (nonlinear_arith);
    assert((r * SCALE) % (SCALE as int) == 0 && (r * SCALE) / (SCALE as int) == r) by (nonlinear_arith);
}

/// A whole value at or above `k * SCALE` and below `(k + 1) * SCALE` is
/// `k * SCALE`.
proof fn lemma_whole_between(v: int, k: int)
    requires
        v % (SCALE as int) == 0,
        k * SCALE <= v < (k + 1) * SCALE,
    ensures
        v == k * SCALE,
        v / (SCALE as int) == k,
{
    assert(v == k * SCALE && v / (SCALE as int) == k) by (nonlinear_arith)
        requires v % (SCALE as int) == 0, k * SCALE <= v < (k + 1) * SCALE;
}

/// A tile of the hexagon in row `q` has its `r` within the row's bounds.
proof fn lemma_row_bounds(t: TilePosition, q: int, radius: int)
    requires
        grid_tile(t, radius),
        t.q == q * SCALE,
    ensures
        (t.r as int) / (SCALE as int) >= row_lo(q, radius),
        (t.r as int) / (SCALE as int) <= row_hi(q, radius),
        t.r < (row_hi(q, radius) + 1) * SCALE,
{
    lemma_scaled_tile(q, 0);
    let b = (t.r as int) / (SCALE as int);
    assert(t.r == b * SCALE) by (nonlinear_arith)
        requires (t.r as int) % (SCALE as int) == 0, b == (t.r as int) / (SCALE as int);
}

} // verus!
