use hex_placement::tile_position::TilePosition;
use hex_placement::tiles::TileGrid;

const S: i64 = 1_000_000;

fn count_highlighted(g: &TileGrid) -> usize {
    g.tiles.iter().filter(|t| t.highlighted).count()
}

#[test]
fn grid_of_radius_three_has_thirty_seven_tiles() {
    let g = TileGrid::spawn_tiles(3);
    assert_eq!(g.tiles.len(), 37);
    assert_eq!(count_highlighted(&g), 0);
    assert_eq!(g.tiles[0].position, TilePosition::from_tiles(-3, 0));
}

#[test]
fn grid_of_radius_zero_is_one_tile() {
    let g = TileGrid::spawn_tiles(0);
    assert_eq!(g.tiles.len(), 1);
    assert_eq!(g.tiles[0].position, TilePosition::new(0, 0));
}

#[test]
fn grid_is_a_hexagon_not_a_rectangle() {
    let g = TileGrid::spawn_tiles(3);
    assert!(g.contains(&TilePosition::from_tiles(3, 0)));
    assert!(g.contains(&TilePosition::from_tiles(-3, 3)));
    assert!(g.contains(&TilePosition::from_tiles(0, -3)));
    assert!(!g.contains(&TilePosition::from_tiles(3, 1)));
    assert!(!g.contains(&TilePosition::from_tiles(-3, -1)));
    assert!(!g.contains(&TilePosition::from_tiles(10, 10)));
    assert!(!g.contains(&TilePosition::new(S / 2, 0)));
}

#[test]
fn grid_tiles_are_distinct() {
    let g = TileGrid::spawn_tiles(4);
    assert_eq!(g.tiles.len(), 61);
    for i in 0..g.tiles.len() {
        for j in 0..i {
            assert_ne!(g.tiles[i].position, g.tiles[j].position);
        }
    }
}

#[test]
fn highlight_marks_only_the_hovered_tile() {
    let mut g = TileGrid::spawn_tiles(3);
    g.highlight_hovered_tile(&TilePosition::new(1_200_000, -400_000));
    assert_eq!(count_highlighted(&g), 1);
    let t = g.tiles.iter().find(|t| t.highlighted).unwrap();
    assert_eq!(t.position, TilePosition::from_tiles(1, 0));
    g.highlight_hovered_tile(&TilePosition::new(-2 * S, 100_000));
    assert_eq!(count_highlighted(&g), 1);
    let t = g.tiles.iter().find(|t| t.highlighted).unwrap();
    assert_eq!(t.position, TilePosition::from_tiles(-2, 0));
}

#[test]
fn highlight_off_the_grid_marks_nothing() {
    let mut g = TileGrid::spawn_tiles(3);
    g.highlight_hovered_tile(&TilePosition::new(S, 0));
    g.highlight_hovered_tile(&TilePosition::from_tiles(10, 10));
    assert_eq!(count_highlighted(&g), 0);
}

#[test]
fn despawn_removes_every_tile() {
    let mut g = TileGrid::spawn_tiles(2);
    g.despawn_tiles();
    assert!(g.tiles.is_empty());
}
