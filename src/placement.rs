use vstd::prelude::*;
use crate::fixed::{abs, div_trunc, SCALE};
use crate::mouse_position::{update_mouse_position, MousePosition, PointerSample, world_in_limits};
use crate::spring::{
    step_spec, vec_in_limits, zero_vec, Spring, MAX_TIME_FACTOR, SPRING_LIMIT,
    STRUCTURE_DAMPING, STRUCTURE_STIFFNESS,
};
use crate::tile_position::{lemma_round_is_tile_centre, TilePosition, ROUND_LIMIT, WORLD_LIMIT};
use crate::tiles::{grid_tile, TileGrid};
use crate::vector::Vec3;

verus! {

/// Height above the ground at which a planned structure floats (0.1).
pub const PLANNED_HEIGHT: i64 = 100_000;

/// Phase of a play session.
#[derive(Clone, Copy, Debug, PartialEq, Eq, Structural)]
pub enum GameState {
    /// Outside the play level.
    Inactive,
    /// In the level, no structure being placed.
    Playing,
    /// In the level, a planned structure follows the pointer.
    Building,
}

/// The kinds of structure that can be built.
#[derive(Clone, Copy, Debug, PartialEq, Eq, Structural)]
pub enum StructureType {
    House,
}

/// A structure on the grid, with its transform and the springs that drive it.
/// Its translation is in world space: `x` and `z` in the lattice units of
/// `TilePosition`, the height `y` in fixed-point world units.
#[derive(Clone, Copy, Debug, PartialEq, Eq, Structural)]
pub struct Structure {
    pub kind: StructureType,
    pub tile: TilePosition,
    pub translation: Vec3,
    pub scale: Vec3,
    pub translation_spring: Spring,
    pub scale_spring: Spring,
    /// Still following the pointer, not yet committed.
    pub planned: bool,
}

/// The placement state of one play session: its phase, the structure being
/// placed, and the structures committed so far.
#[derive(Debug)]
pub struct Session {
    pub state: GameState,
    pub planned: Option<Structure>,
    pub structures: Vec<Structure>,
}

/// The inputs of one frame.
#[derive(Clone, Copy, Debug, PartialEq, Eq, Structural)]
pub struct FrameInput {
    /// Where the pointer is, if it is over the view.
    pub pointer: Option<PointerSample>,
    /// A build button pressed this frame, with the kind it builds.
    pub build: Option<StructureType>,
    /// The primary button went down this frame.
    pub confirm: bool,
    /// Length of the frame in microseconds.
    pub delta: i64,
}

/// A session as plain values: phase, planned structure, committed ones.
pub type SessionView = (GameState, Option<Structure>, Seq<Structure>);

pub open spec fn unit_vec() -> Vec3 {
    Vec3 { x: SCALE, y: SCALE, z: SCALE }
}

/// The tile the pointer is over.
pub open spec fn hovered(m: MousePosition) -> TilePosition {
    m.tile.rounded()
}

/// A new planned structure on `tile`, drawn first at `start` and at zero
/// scale: it floats toward `PLANNED_HEIGHT` over the tile and grows to full
/// size.
pub open spec fn planned_spec(kind: StructureType, tile: TilePosition, start: Vec3) -> Structure {
    Structure {
        kind,
        tile,
        translation: start,
        scale: zero_vec(),
        translation_spring: Spring {
            target: tile.world3(PLANNED_HEIGHT),
            velocity: zero_vec(),
            stiffness: STRUCTURE_STIFFNESS,
            damping: STRUCTURE_DAMPING,
        },
        scale_spring: Spring {
            target: unit_vec(),
            velocity: zero_vec(),
            stiffness: STRUCTURE_STIFFNESS,
            damping: STRUCTURE_DAMPING,
        },
        planned: true,
    }
}

/// The structure with its translation target moved over its tile, at the
/// target's height.
pub open spec fn retargeted(s: Structure) -> Structure {
    Structure {
        translation_spring: Spring {
            target: s.tile.world3(s.translation_spring.target.y),
            ..s.translation_spring
        },
        ..s
    }
}

/// The planned structure moved to `tile`: full size where the tile is on the
/// grid, shrunk to nothing elsewhere.
pub open spec fn followed(s: Structure, tile: TilePosition, on_grid: bool) -> Structure {
    retargeted(
        Structure {
            tile,
            scale_spring: Spring {
                target: if on_grid { unit_vec() } else { zero_vec() },
                ..s.scale_spring
            },
            ..s
        },
    )
}

/// The planned structure committed on `tile`: no longer planned, settling
/// onto the ground over the tile.
pub open spec fn committed(s: Structure, tile: TilePosition) -> Structure {
    Structure {
        tile,
        translation_spring: Spring { target: tile.world3(0), ..s.translation_spring },
        planned: false,
        ..s
    }
}

pub open spec fn spawn_spec(v: SessionView, build: Option<StructureType>, m: MousePosition) -> SessionView {
    if v.0 == GameState::Playing && build is Some {
        (GameState::Building, Some(planned_spec(build->0, hovered(m), m.world)), v.2)
    } else {
        v
    }
}

pub open spec fn follow_spec(v: SessionView, m: MousePosition, radius: int) -> SessionView {
    if v.0 == GameState::Building && v.1 is Some {
        (v.0, Some(followed(v.1->0, hovered(m), grid_tile(hovered(m), radius))), v.2)
    } else {
        v
    }
}

pub open spec fn build_spec(v: SessionView, confirm: bool, m: MousePosition, radius: int) -> SessionView {
    if v.0 == GameState::Building && v.1 is Some && confirm && grid_tile(hovered(m), radius) {
        (GameState::Playing, None, v.2.push(committed(v.1->0, hovered(m))))
    } else {
        v
    }
}

/// The structure after one step of its translation spring.
pub open spec fn translation_stepped(s: Structure, time_factor: int) -> Structure {
    let (t, vel) = step_spec(s.translation_spring, s.translation, time_factor);
    Structure {
        translation: t,
        translation_spring: Spring { velocity: vel, ..s.translation_spring },
        ..s
    }
}

/// The structure after one step of its scale spring.
pub open spec fn scale_stepped(s: Structure, time_factor: int) -> Structure {
    let (sc, vel) = step_spec(s.scale_spring, s.scale, time_factor);
    Structure { scale: sc, scale_spring: Spring { velocity: vel, ..s.scale_spring }, ..s }
}

pub open spec fn translations_spec(v: SessionView, time_factor: int) -> SessionView {
    (
        v.0,
        if v.1 is Some { Some(translation_stepped(v.1->0, time_factor)) } else { None },
        v.2.map_values(|s: Structure| translation_stepped(s, time_factor)),
    )
}

pub open spec fn scales_spec(v: SessionView) -> SessionView {
    (
        v.0,
        if v.1 is Some { Some(scale_stepped(v.1->0, SCALE as int)) } else { None },
        v.2.map_values(|s: Structure| scale_stepped(s, SCALE as int)),
    )
}

/// The session after the frame's input: a confirm while building, or a
/// build press otherwise.
pub open spec fn transition_spec(v: SessionView, input: FrameInput, m: MousePosition, radius: int) -> SessionView {
    if v.0 == GameState::Building {
        build_spec(v, input.confirm, m, radius)
    } else {
        spawn_spec(v, input.build, m)
    }
}

/// The session after a whole frame, with `m` the pointer recorded in it.
pub open spec fn frame_spec(v: SessionView, input: FrameInput, m: MousePosition, radius: int) -> SessionView {
    scales_spec(
        translations_spec(
            follow_spec(transition_spec(v, input, m, radius), m, radius),
            input.delta * 60,
        ),
    )
}

impl Structure {
    /// The translation spring can take a step.
    pub open spec fn translation_ready(self) -> bool {
        self.translation_spring.well_formed() && vec_in_limits(self.translation)
    }

    /// The scale spring can take a step.
    pub open spec fn scale_ready(self) -> bool {
        self.scale_spring.well_formed() && vec_in_limits(self.scale)
    }

    /// Both springs can take a step.
    pub open spec fn can_step(self) -> bool {
        self.translation_ready() && self.scale_ready()
    }

    pub fn can_step_exec(&self) -> (r: bool)
        ensures
            r == self.can_step(),
    {
        self.translation_spring.can_step(&self.translation) && self.scale_spring.can_step(
            &self.scale,
        )
    }
}

/// Moves the structure's translation target over its tile, keeping the
/// target's height.
pub fn set_tile_position(s: &mut Structure)
    requires
        old(s).tile.in_limits(),
    ensures
        *final(s) == retargeted(*old(s)),
{
    let target = s.tile.to_vec3_with_y(s.translation_spring.target.y);
    s.translation_spring.target = target;
}

/// The tile under a well-formed pointer is within the limits of world
/// space, and so is its centre at any height within the springs' limits.
pub proof fn lemma_hovered_in_limits(m: MousePosition)
    requires
        m.well_formed(),
    ensures
        hovered(m).in_limits(),
        forall|h: i64| -SPRING_LIMIT <= h <= SPRING_LIMIT ==> vec_in_limits(#[trigger] hovered(m).world3(h)),
{
    let x = m.world.x as int;
    let y = -m.world.z as int;
    let wl = WORLD_LIMIT as int;
    assert(abs(div_trunc(x, 3)) <= wl) by (nonlinear_arith)
        requires -wl <= x <= wl, wl > 0;
    assert(abs(div_trunc(3 * y - x, 6)) <= wl) by (nonlinear_arith)
        requires -wl <= x <= wl, -wl <= y <= wl, wl > 0;
    lemma_round_is_tile_centre(m.tile);
}

impl Session {
    pub open spec fn view(self) -> SessionView {
        (self.state, self.planned, self.structures@)
    }

    /// A structure is being placed exactly while building; it is marked
    /// planned, the committed ones are not, and every tile is within limits.
    pub open spec fn well_formed(self) -> bool {
        &&& (self.state == GameState::Building) == (self.planned is Some)
        &&& self.planned matches Some(p) ==> p.planned && p.tile.in_limits()
        &&& forall|i: int|
            0 <= i < self.structures@.len() ==> !(#[trigger] self.structures@[i]).planned
                && self.structures@[i].tile.in_limits()
    }

    /// Every translation spring of the session can take a step.
    pub open spec fn translations_ready(self) -> bool {
        &&& self.planned matches Some(p) ==> p.translation_ready()
        &&& forall|i: int| 0 <= i < self.structures@.len() ==> (#[trigger] self.structures@[i]).translation_ready()
    }

    /// Every scale spring of the session can take a step.
    pub open spec fn scales_ready(self) -> bool {
        &&& self.planned matches Some(p) ==> p.scale_ready()
        &&& forall|i: int| 0 <= i < self.structures@.len() ==> (#[trigger] self.structures@[i]).scale_ready()
    }

    /// Every spring of the session can take a step.
    pub open spec fn springs_ready(self) -> bool {
        &&& self.planned matches Some(p) ==> p.can_step()
        &&& forall|i: int| 0 <= i < self.structures@.len() ==> (#[trigger] self.structures@[i]).can_step()
    }

    /// A session outside the play level.
    pub fn new() -> (s: Session)
        ensures
            s.view() == (GameState::Inactive, None::<Structure>, Seq::<Structure>::empty()),
            s.well_formed(),
            s.springs_ready(),
    {
        Session { state: GameState::Inactive, planned: None, structures: Vec::new() }
    }

    /// Starts a play session: playing, nothing placed.
    pub fn enter_level(&mut self)
        ensures
            final(self).view() == (GameState::Playing, None::<Structure>, Seq::<Structure>::empty()),
            final(self).well_formed(),
            final(self).springs_ready(),
    {
        self.state = GameState::Playing;
        self.planned = None;
        self.structures.clear();
    }

    /// Ends the play session, dropping every structure, planned or not.
    pub fn leave_level(&mut self)
        ensures
            final(self).view() == (GameState::Inactive, None::<Structure>, Seq::<Structure>::empty()),
            final(self).well_formed(),
            final(self).springs_ready(),
    {
        self.state = GameState::Inactive;
        self.planned = None;
        self.structures.clear();
    }

    /// Whether every spring of the session can take a step.
    pub fn can_advance(&self) -> (r: bool)
        ensures
            r == self.springs_ready(),
    {
        if let Some(p) = &self.planned {
            if !p.can_step_exec() {
                return false;
            }
        }
        let mut i: usize = 0;
        while i < self.structures.len()
            invariant
                0 <= i <= self.structures@.len(),
                self.planned matches Some(p) ==> p.can_step(),
                forall|j: int| 0 <= j < i ==> (#[trigger] self.structures@[j]).can_step(),
            decreases self.structures@.len() - i,
        {
            if !self.structures[i].can_step_exec() {
                return false;
            }
            i = i + 1;
        }
        true
    }

    /// On a build press while playing, spawns a planned structure of that
    /// kind on the hovered tile and starts building. Otherwise nothing
    /// changes: while building, further presses are ignored.
    pub fn spawn_planned_structure(&mut self, build: Option<StructureType>, mouse: &MousePosition)
        requires
            old(self).well_formed(),
            mouse.well_formed(),
        ensures
            final(self).view() == spawn_spec(old(self).view(), build, *mouse),
            final(self).well_formed(),
            old(self).springs_ready() ==> final(self).springs_ready(),
    {
        if self.state == GameState::Playing {
            if let Some(kind) = build {
                proof {
                    lemma_hovered_in_limits(*mouse);
                }
                let tile = mouse.tile.round();
                let target = tile.to_vec3_with_y(PLANNED_HEIGHT);
                let structure = Structure {
                    kind,
                    tile,
                    translation: mouse.world,
                    scale: Vec3 { x: 0, y: 0, z: 0 },
                    translation_spring: Spring::new(target, STRUCTURE_STIFFNESS, STRUCTURE_DAMPING),
                    scale_spring: Spring::new(
                        Vec3 { x: SCALE, y: SCALE, z: SCALE },
                        STRUCTURE_STIFFNESS,
                        STRUCTURE_DAMPING,
                    ),
                    planned: true,
                };
                self.planned = Some(structure);
                self.state = GameState::Building;
            }
        }
    }

    /// While building, moves the planned structure to the hovered tile and
    /// sets its scale target: full size on a tile of the grid, zero elsewhere.
    pub fn follow_mouse(&mut self, mouse: &MousePosition, grid: &TileGrid)
        requires
            old(self).well_formed(),
            mouse.well_formed(),
            grid.well_formed(),
        ensures
            final(self).view() == follow_spec(old(self).view(), *mouse, grid.radius as int),
            final(self).well_formed(),
            old(self).springs_ready() ==> final(self).springs_ready(),
    {
        if self.state == GameState::Building {
            if let Some(p) = self.planned {
                proof {
                    lemma_hovered_in_limits(*mouse);
                }
                let hovered_tile = mouse.tile.round();
                let on_grid = grid.contains(&hovered_tile);
                let mut s = p;
                s.tile = hovered_tile;
                s.scale_spring.target = if on_grid {
                    Vec3 { x: SCALE, y: SCALE, z: SCALE }
                } else {
                    Vec3 { x: 0, y: 0, z: 0 }
                };
                set_tile_position(&mut s);
                self.planned = Some(s);
            }
        }
    }

    /// On a fresh primary press while building over a tile of the grid,
    /// commits the planned structure there: it loses its planned mark, its
    /// translation target drops to the ground, and playing resumes.
    /// Otherwise nothing changes.
    pub fn build_structure(&mut self, confirm: bool, mouse: &MousePosition, grid: &TileGrid)
        requires
            old(self).well_formed(),
            mouse.well_formed(),
            grid.well_formed(),
        ensures
            final(self).view() == build_spec(old(self).view(), confirm, *mouse, grid.radius as int),
            final(self).well_formed(),
            old(self).springs_ready() ==> final(self).springs_ready(),
    {
        if self.state != GameState::Building || !confirm {
            return;
        }
        proof {
            lemma_hovered_in_limits(*mouse);
        }
        let hovered_tile = mouse.tile.round();
        if !grid.contains(&hovered_tile) {
            return;
        }
        if let Some(p) = self.planned {
            let mut s = p;
            s.tile = hovered_tile;
            s.translation_spring.target = hovered_tile.to_vec3_with_y(0);
            s.planned = false;
            self.structures.push(s);
            self.planned = None;
            self.state = GameState::Playing;
        }
    }

    /// Steps every translation spring by a frame of `delta` microseconds.
    pub fn apply_translation_springs(&mut self, delta: i64)
        requires
            old(self).translations_ready(),
            0 <= delta <= SCALE,
        ensures
            final(self).view() == translations_spec(old(self).view(), delta * 60),
            old(self).well_formed() ==> final(self).well_formed(),
            old(self).scales_ready() ==> final(self).scales_ready(),
    {
        let time_factor = delta * 60;
        if let Some(p) = self.planned {
            let mut s = p;
            s.translation_spring.step(&mut s.translation, time_factor);
            self.planned = Some(s);
        }
        let mut i: usize = 0;
        while i < self.structures.len()
            invariant
                0 <= i <= self.structures@.len(),
                0 <= time_factor <= MAX_TIME_FACTOR,
                time_factor == delta * 60,
                self.structures@.len() == old(self).structures@.len(),
                self.state == old(self).state,
                forall|j: int| 0 <= j < i ==> #[trigger] self.structures@[j] == translation_stepped(old(self).structures@[j], time_factor as int),
                forall|j: int| i <= j < self.structures@.len() ==> #[trigger] self.structures@[j] == old(self).structures@[j],
                forall|j: int| 0 <= j < old(self).structures@.len() ==> (#[trigger] old(self).structures@[j]).translation_ready(),
                self.planned == (if old(self).planned is Some { Some(translation_stepped(old(self).planned->0, time_factor as int)) } else { None }),
            decreases self.structures@.len() - i,
        {
            let mut s = self.structures[i];
            s.translation_spring.step(&mut s.translation, time_factor);
            self.structures.set(i, s);
            i = i + 1;
        }
        assert(self.structures@ =~= old(self).structures@.map_values(|s: Structure| translation_stepped(s, time_factor as int)));
    }

    /// Steps every scale spring by one fixed step, whatever the frame's
    /// length.
    pub fn apply_scale_springs(&mut self)
        requires
            old(self).scales_ready(),
        ensures
            final(self).view() == scales_spec(old(self).view()),
            old(self).well_formed() ==> final(self).well_formed(),
    {
        if let Some(p) = self.planned {
            let mut s = p;
            s.scale_spring.step(&mut s.scale, SCALE);
            self.planned = Some(s);
        }
        let mut i: usize = 0;
        while i < self.structures.len()
            invariant
                0 <= i <= self.structures@.len(),
                self.structures@.len() == old(self).structures@.len(),
                self.state == old(self).state,
                forall|j: int| 0 <= j < i ==> #[trigger] self.structures@[j] == scale_stepped(old(self).structures@[j], SCALE as int),
                forall|j: int| i <= j < self.structures@.len() ==> #[trigger] self.structures@[j] == old(self).structures@[j],
                forall|j: int| 0 <= j < old(self).structures@.len() ==> (#[trigger] old(self).structures@[j]).scale_ready(),
                self.planned == (if old(self).planned is Some { Some(scale_stepped(old(self).planned->0, SCALE as int)) } else { None }),
            decreases self.structures@.len() - i,
        {
            let mut s = self.structures[i];
            s.scale_spring.step(&mut s.scale, SCALE);
            self.structures.set(i, s);
            i = i + 1;
        }
        assert(self.structures@ =~= old(self).structures@.map_values(|s: Structure| scale_stepped(s, SCALE as int)));
    }

    /// One frame, in a fixed order: record the pointer; apply this frame's
    /// input (a build press while playing, a confirm while building); make
    /// the planned structure follow the hovered tile; step the translation
    /// and scale springs; highlight the hovered tile.
    pub fn frame(&mut self, grid: &mut TileGrid, mouse: &mut MousePosition, input: &FrameInput)
        requires
            old(self).well_formed(),
            old(self).springs_ready(),
            old(mouse).well_formed(),
            old(grid).well_formed(),
            input.pointer matches Some(p) ==> world_in_limits(p.world),
            0 <= input.delta <= SCALE,
        ensures
            final(mouse).well_formed(),
            input.pointer is None ==> *final(mouse) == *old(mouse),
            input.pointer matches Some(p) ==> final(mouse).world == p.world && final(mouse).viewport
                == p.viewport,
            final(self).well_formed(),
            final(self).view() == frame_spec(old(self).view(), *input, *final(mouse), old(grid).radius as int),
            final(grid).radius == old(grid).radius,
            final(grid).tiles@.len() == old(grid).tiles@.len(),
            final(grid).well_formed(),
            forall|i: int|
                0 <= i < final(grid).tiles@.len() ==> final(grid).tiles@[i].position == old(grid).tiles@[i].position
                    && final(grid).tiles@[i].highlighted == (final(grid).tiles@[i].position == hovered(*final(mouse))),
    {
        update_mouse_position(mouse, input.pointer);
        if self.state == GameState::Building {
            self.build_structure(input.confirm, mouse, grid);
        } else {
            self.spawn_planned_structure(input.build, mouse);
        }
        self.follow_mouse(mouse, grid);
        self.apply_translation_springs(input.delta);
        self.apply_scale_springs();
        proof {
            lemma_mouse_tile_roundable(*mouse);
        }
        grid.highlight_hovered_tile(&mouse.tile);
    }
}

proof fn lemma_mouse_tile_roundable(m: MousePosition)
    requires
        m.well_formed(),
    ensures
        -ROUND_LIMIT <= m.tile.q <= ROUND_LIMIT,
        -ROUND_LIMIT <= m.tile.r <= ROUND_LIMIT,
{
    lemma_hovered_in_limits(m);
}

} // verus!
