use hex_placement::tile_position::{Direction, TilePosition};
use hex_placement::vector::{Vec2, Vec3};

const S: i64 = 1_000_000;

#[test]
fn world_round_trip_returns_the_point() {
    let p = TilePosition::new(2_500_000, -1_250_000);
    let w = p.to_vec2();
    assert_eq!(w, Vec2::new(7_500_000, 0));
    assert_eq!(TilePosition::from_vec2(&w), p);
}

#[test]
fn world_round_trip_on_many_points() {
    for q in -20..=20i64 {
        for r in -20..=20i64 {
            let p = TilePosition::new(q * 123_457, r * 98_765);
            assert_eq!(TilePosition::from_vec2(&p.to_vec2()), p);
            assert_eq!(TilePosition::from_vec3(&p.to_vec3_with_y(7)), p);
        }
    }
}

#[test]
fn to_world_uses_the_lattice_basis() {
    let p = TilePosition::from_tiles(1, 0);
    assert_eq!(p.to_vec3_with_y(100_000), Vec3::new(3 * S, 100_000, -S));
    let p = TilePosition::from_tiles(0, 1);
    assert_eq!(p.to_vec2(), Vec2::new(0, 2 * S));
}

#[test]
fn from_world_truncates_toward_zero() {
    assert_eq!(TilePosition::from_vec2(&Vec2::new(-1, 0)), TilePosition::new(0, 0));
    assert_eq!(TilePosition::from_vec2(&Vec2::new(-7, 0)), TilePosition::new(-2, 1));
    assert_eq!(TilePosition::from_vec3(&Vec3::new(3 * S, 0, -S)), TilePosition::new(S, 0));
}

#[test]
fn s_is_minus_q_minus_r() {
    let p = TilePosition::new(1_500_000, 2 * S);
    assert_eq!(p.s(), -3_500_000);
    assert_eq!(p.q + p.r + p.s(), 0);
}

#[test]
fn round_recomputes_q_when_its_error_is_largest() {
    assert_eq!(TilePosition::new(600_000, 100_000).round(), TilePosition::from_tiles(1, 0));
}

#[test]
fn round_recomputes_r_when_its_error_beats_s() {
    assert_eq!(TilePosition::new(1_200_000, -400_000).round(), TilePosition::from_tiles(1, 0));
    assert_eq!(TilePosition::new(400_000, 400_000).round(), TilePosition::from_tiles(0, 1));
}

#[test]
fn round_keeps_whole_points() {
    let p = TilePosition::from_tiles(-4, 7);
    assert_eq!(p.round(), p);
}

#[test]
fn round_results_are_tile_centres() {
    for q in -30..=30i64 {
        for r in -30..=30i64 {
            let p = TilePosition::new(q * 77_777, r * 55_555);
            let t = p.round();
            assert_eq!(t.q % S, 0);
            assert_eq!(t.r % S, 0);
            assert_eq!(t.s() % S, 0);
            assert_eq!(t.q + t.r + t.s(), 0);
            assert!((t.q - p.q).abs() <= S && (t.r - p.r).abs() <= S);
        }
    }
}

#[test]
fn round_tie_between_two_centres_is_deterministic() {
    // halfway between the centres (0, 0) and (1, 0)
    let p = TilePosition::new(500_000, 0);
    let first = p.round();
    assert_eq!(first, TilePosition::from_tiles(1, 0));
    for _ in 0..10 {
        assert_eq!(p.round(), first);
    }
    // halfway between (0, 0) and (0, 1)
    let p = TilePosition::new(0, 500_000);
    assert_eq!(p.round(), TilePosition::from_tiles(0, 1));
    assert_eq!(p.round(), p.round());
    // halfway between (0, 0) and (-1, 0)
    let p = TilePosition::new(-500_000, 0);
    assert_eq!(p.round(), TilePosition::from_tiles(-1, 0));
}

#[test]
fn corners_surround_the_rounded_centre() {
    let c = TilePosition::new(100_000, 100_000).corners();
    assert_eq!(
        c,
        vec![
            Vec2::new(2 * S, 0),
            Vec2::new(S, S),
            Vec2::new(-S, S),
            Vec2::new(-2 * S, 0),
            Vec2::new(-S, -S),
            Vec2::new(S, -S),
        ]
    );
    let c = TilePosition::from_tiles(1, 0).corners();
    assert_eq!(c[0], Vec2::new(5 * S, S));
    assert_eq!(c.len(), 6);
}

#[test]
fn directions_have_axial_and_world_offsets() {
    assert_eq!(Direction::N.axial(), TilePosition::from_tiles(0, -1));
    assert_eq!(Direction::NE.axial(), TilePosition::from_tiles(1, -1));
    assert_eq!(Direction::SE.axial(), TilePosition::from_tiles(1, 0));
    assert_eq!(Direction::S.axial(), TilePosition::from_tiles(0, 1));
    assert_eq!(Direction::SW.axial(), TilePosition::from_tiles(-1, 1));
    assert_eq!(Direction::NW.axial(), TilePosition::from_tiles(-1, 0));
    assert_eq!(Direction::N.world(), Vec2::new(0, 2 * S));
    assert_eq!(Direction::NE.world(), Vec2::new(2 * S, S));
    assert_eq!(Direction::SW.world(), Vec2::new(-2 * S, -S));
}
