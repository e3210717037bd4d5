use vstd::prelude::*;
use crate::tile_position::{from_world_spec, TilePosition, WORLD_LIMIT};
use crate::vector::{Vec2, Vec3};

verus! {

/// Where the pointer was last seen: on the screen, on the ground plane, and
/// as an axial point, not yet rounded.
#[derive(Clone, Copy, Debug, PartialEq, Eq, Structural)]
pub struct MousePosition {
    pub viewport: Vec2,
    pub world: Vec3,
    pub tile: TilePosition,
}

/// One sighting of the pointer: its screen position and the point of the
/// ground plane under it.
#[derive(Clone, Copy, Debug, PartialEq, Eq, Structural)]
pub struct PointerSample {
    pub viewport: Vec2,
    pub world: Vec3,
}

/// The ground point can be taken to axial coordinates.
pub open spec fn world_in_limits(w: Vec3) -> bool {
    -WORLD_LIMIT <= w.x <= WORLD_LIMIT && -WORLD_LIMIT <= w.y <= WORLD_LIMIT && -WORLD_LIMIT
        <= w.z <= WORLD_LIMIT
}

/// The axial point under a ground point.
pub open spec fn tile_under(w: Vec3) -> TilePosition {
    let t = from_world_spec(w.x as int, -w.z);
    TilePosition { q: t.0 as i64, r: t.1 as i64 }
}

impl MousePosition {
    /// The axial point is the one under the ground point.
    pub open spec fn well_formed(self) -> bool {
        world_in_limits(self.world) && self.tile == tile_under(self.world)
    }

    /// The pointer at the origin, before it has been seen.
    pub fn origin() -> (m: MousePosition)
        ensures
            m.viewport == (Vec2 { x: 0, y: 0 }),
            m.world == (Vec3 { x: 0, y: 0, z: 0 }),
            m.tile == (TilePosition { q: 0, r: 0 }),
            m.well_formed(),
    {
        MousePosition {
            viewport: Vec2 { x: 0, y: 0 },
            world: Vec3 { x: 0, y: 0, z: 0 },
            tile: TilePosition { q: 0, r: 0 },
        }
    }

    /// Whether a sample's ground point can be taken to axial coordinates.
    pub fn accepts(sample: &PointerSample) -> (r: bool)
        ensures
            r == world_in_limits(sample.world),
    {
        -WORLD_LIMIT <= sample.world.x && sample.world.x <= WORLD_LIMIT && -WORLD_LIMIT
            <= sample.world.y && sample.world.y <= WORLD_LIMIT && -WORLD_LIMIT <= sample.world.z
            && sample.world.z <= WORLD_LIMIT
    }
}

impl Default for MousePosition {
    fn default() -> (m: MousePosition)
        ensures
            m == (MousePosition {
                viewport: Vec2 { x: 0, y: 0 },
                world: Vec3 { x: 0, y: 0, z: 0 },
                tile: TilePosition { q: 0, r: 0 },
            }),
    {
        MousePosition::origin()
    }
}

/// Records this frame's sighting of the pointer. With no sighting the last
/// position stays.
pub fn update_mouse_position(mouse: &mut MousePosition, sample: Option<PointerSample>)
    requires
        sample matches Some(s) ==> world_in_limits(s.world),
    ensures
        old(mouse).well_formed() ==> final(mouse).well_formed(),
        sample is None ==> *final(mouse) == *old(mouse),
        sample matches Some(s) ==> *final(mouse) == (MousePosition {
            viewport: s.viewport,
            world: s.world,
            tile: tile_under(s.world),
        }),
{
    if let Some(s) = sample {
        let tile = TilePosition::from_vec3(&s.world);
        *mouse = MousePosition { viewport: s.viewport, world: s.world, tile };
    }
}

} // verus!
