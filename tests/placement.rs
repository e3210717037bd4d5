use hex_placement::mouse_position::{update_mouse_position, MousePosition, PointerSample};
use hex_placement::placement::{FrameInput, GameState, Session, StructureType, PLANNED_HEIGHT};
use hex_placement::tile_position::TilePosition;
use hex_placement::tiles::TileGrid;
use hex_placement::vector::{Vec2, Vec3};

const S: i64 = 1_000_000;
const FRAME: i64 = 16_667;

fn over(q: i64, r: i64) -> Option<PointerSample> {
    let w = TilePosition::from_tiles(q, r).to_vec3_with_y(0);
    Some(PointerSample { viewport: Vec2::new(0, 0), world: w })
}

fn input(pointer: Option<PointerSample>, build: bool, confirm: bool) -> FrameInput {
    FrameInput {
        pointer,
        build: if build { Some(StructureType::House) } else { None },
        confirm,
        delta: FRAME,
    }
}

fn highlighted(g: &TileGrid) -> Vec<TilePosition> {
    g.tiles.iter().filter(|t| t.highlighted).map(|t| t.position).collect()
}

fn level() -> (Session, TileGrid, MousePosition) {
    let mut s = Session::new();
    assert_eq!(s.state, GameState::Inactive);
    s.enter_level();
    (s, TileGrid::spawn_tiles(3), MousePosition::default())
}

#[test]
fn placement_flow_on_a_grid_of_radius_three() {
    let (mut s, mut g, mut m) = level();
    assert_eq!(s.state, GameState::Playing);

    s.frame(&mut g, &mut m, &input(over(0, 0), true, false));
    assert_eq!(s.state, GameState::Building);
    let p = s.planned.unwrap();
    assert!(p.planned);
    assert_eq!(p.tile, TilePosition::from_tiles(0, 0));
    assert_eq!(p.scale_spring.target, Vec3::new(S, S, S));
    assert_eq!(p.translation_spring.target, Vec3::new(0, PLANNED_HEIGHT, 0));
    assert_eq!(highlighted(&g), vec![TilePosition::from_tiles(0, 0)]);

    s.frame(&mut g, &mut m, &input(over(10, 10), false, false));
    let p = s.planned.unwrap();
    assert_eq!(p.tile, TilePosition::from_tiles(10, 10));
    assert_eq!(p.scale_spring.target, Vec3::new(0, 0, 0));
    assert!(highlighted(&g).is_empty());

    s.frame(&mut g, &mut m, &input(over(1, 0), false, false));
    let p = s.planned.unwrap();
    assert_eq!(p.tile, TilePosition::from_tiles(1, 0));
    assert_eq!(p.scale_spring.target, Vec3::new(S, S, S));
    assert_eq!(p.translation_spring.target, Vec3::new(3 * S, PLANNED_HEIGHT, -S));
    assert_eq!(highlighted(&g), vec![TilePosition::from_tiles(1, 0)]);

    s.frame(&mut g, &mut m, &input(None, false, true));
    assert_eq!(s.state, GameState::Playing);
    assert!(s.planned.is_none());
    assert_eq!(s.structures.len(), 1);
    let c = s.structures[0];
    assert!(!c.planned);
    assert_eq!(c.tile, TilePosition::from_tiles(1, 0));
    assert_eq!(c.translation_spring.target.y, 0);
    assert_eq!(c.translation_spring.target, Vec3::new(3 * S, 0, -S));
    assert_eq!(c.scale_spring.target, Vec3::new(S, S, S));
}

#[test]
fn at_most_one_tile_is_highlighted_in_any_frame() {
    let (mut s, mut g, mut m) = level();
    let path = [(0, 0), (1, 0), (3, 0), (4, 0), (-3, 3), (10, 10), (0, -3)];
    for (q, r) in path {
        s.frame(&mut g, &mut m, &input(over(q, r), false, false));
        let h = highlighted(&g);
        assert!(h.len() <= 1);
        if g.contains(&TilePosition::from_tiles(q, r)) {
            assert_eq!(h, vec![TilePosition::from_tiles(q, r)]);
        } else {
            assert!(h.is_empty());
        }
    }
}

#[test]
fn second_build_press_is_ignored_while_building() {
    let (mut s, mut g, mut m) = level();
    s.frame(&mut g, &mut m, &input(over(0, 0), true, false));
    s.frame(&mut g, &mut m, &input(over(1, 0), true, false));
    assert_eq!(s.state, GameState::Building);
    assert_eq!(s.planned.unwrap().tile, TilePosition::from_tiles(1, 0));
    assert!(s.structures.is_empty());
}

#[test]
fn confirm_off_the_grid_is_ignored() {
    let (mut s, mut g, mut m) = level();
    s.frame(&mut g, &mut m, &input(over(0, 0), true, false));
    s.frame(&mut g, &mut m, &input(over(5, 0), false, true));
    assert_eq!(s.state, GameState::Building);
    assert!(s.planned.is_some());
    assert!(s.structures.is_empty());
}

#[test]
fn confirm_while_playing_is_ignored() {
    let (mut s, mut g, mut m) = level();
    s.frame(&mut g, &mut m, &input(over(0, 0), false, true));
    assert_eq!(s.state, GameState::Playing);
    assert!(s.planned.is_none());
    assert!(s.structures.is_empty());
}

#[test]
fn absent_pointer_keeps_the_last_position() {
    let mut m = MousePosition::default();
    update_mouse_position(&mut m, over(2, -1));
    let seen = m;
    assert_eq!(seen.tile, TilePosition::from_tiles(2, -1));
    update_mouse_position(&mut m, None);
    assert_eq!(m, seen);
}

#[test]
fn planned_structure_springs_move_it() {
    let (mut s, mut g, mut m) = level();
    s.frame(&mut g, &mut m, &input(over(1, 0), true, false));
    let p = s.planned.unwrap();
    // the structure appears at the pointer at zero scale, then one step of
    // each spring pulls it toward its targets
    assert_eq!(p.scale, Vec3::new(150_000, 150_000, 150_000));
    assert_ne!(p.translation, Vec3::new(3 * S, 0, -S));
    for _ in 0..400 {
        assert!(s.can_advance());
        s.frame(&mut g, &mut m, &input(None, false, false));
    }
    let p = s.planned.unwrap();
    assert_eq!(p.scale, Vec3::new(S, S, S));
    assert_eq!(p.translation, Vec3::new(3 * S, PLANNED_HEIGHT, -S));
}

#[test]
fn committed_structure_settles_on_the_ground() {
    let (mut s, mut g, mut m) = level();
    s.frame(&mut g, &mut m, &input(over(-1, 2), true, false));
    s.frame(&mut g, &mut m, &input(None, false, true));
    for _ in 0..400 {
        s.frame(&mut g, &mut m, &input(None, false, false));
    }
    let c = s.structures[0];
    assert_eq!(c.translation, TilePosition::from_tiles(-1, 2).to_vec3_with_y(0));
    assert_eq!(c.scale, Vec3::new(S, S, S));
}

#[test]
fn leaving_the_level_drops_every_structure() {
    let (mut s, mut g, mut m) = level();
    s.frame(&mut g, &mut m, &input(over(0, 0), true, false));
    s.frame(&mut g, &mut m, &input(None, false, true));
    s.frame(&mut g, &mut m, &input(over(1, 1), true, false));
    s.leave_level();
    assert_eq!(s.state, GameState::Inactive);
    assert!(s.planned.is_none());
    assert!(s.structures.is_empty());
}

#[test]
fn pointer_sample_outside_limits_is_refused() {
    let far = PointerSample { viewport: Vec2::new(0, 0), world: Vec3::new(i64::MAX, 0, 0) };
    assert!(!MousePosition::accepts(&far));
    assert!(MousePosition::accepts(&over(3, 3).unwrap()));
}
