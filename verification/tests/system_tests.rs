//! The per-tick systems: spatial indexing (blocking and occupancy) and the
//! visibility engine (field of view, visible and revealed flags).

use civlike::map_indexing_system::MapIndexingSystem;
use civlike::{xy_idx, EntityRef, Name, Player, PlayerEntity, PlayerOrder, Position, State,
    TileType, Unit, UnitEntity, Viewshed, WorldMap};

fn forest_state(w: i32, h: i32) -> State {
    State::new(WorldMap::new_map(w, h, &vec![5; (w * h) as usize]))
}

fn test_unit(x: i32, y: i32, stamina: u8, range: i32) -> UnitEntity {
    UnitEntity {
        pos: Position { x, y },
        unit: Unit { owner: PlayerOrder::PlayerOne, health: 20, strength: 8, stamina },
        name: Name { name: "Unit1".to_string() },
        viewshed: Viewshed { visible_tiles: Vec::new(), range, dirty: true },
    }
}

#[test]
fn blocked_tracks_terrain_and_units() {
    let mut heights = vec![5; 64];
    heights[xy_idx(8, 4, 3)] = -20; // water
    let mut state = State::new(WorldMap::new_map(8, 8, &heights));
    state.units.push(test_unit(2, 2, 8, 8));
    MapIndexingSystem::run(&mut state);
    // Terrain-blocked tiles.
    assert!(state.map.blocked[xy_idx(8, 4, 3)]); // water
    assert!(state.map.blocked[xy_idx(8, 0, 0)]); // border ice
    assert!(state.map.blocked[xy_idx(8, 7, 4)]); // border ice
    // The unit blocks its tile.
    assert!(state.map.blocked[xy_idx(8, 2, 2)]);
    assert_eq!(state.map.tiles[xy_idx(8, 2, 2)], TileType::Forest);
    // A passable tile with no blocking occupant is not blocked.
    assert!(!state.map.blocked[xy_idx(8, 5, 5)]);
}

#[test]
fn occupancy_index_lists_entities_per_tile() {
    let mut state = forest_state(8, 8);
    state.players.push(PlayerEntity {
        pos: Position { x: 2, y: 2 },
        player: Player { order: PlayerOrder::PlayerOne, unit_count: 1, fort_count: 0 },
        name: Name { name: "Player1".to_string() },
    });
    state.units.push(test_unit(2, 2, 8, 8));
    MapIndexingSystem::run(&mut state);
    let here = &state.map.tile_content[xy_idx(8, 2, 2)];
    assert!(here.contains(&EntityRef::Player(0)));
    assert!(here.contains(&EntityRef::Unit(0)));
    assert_eq!(here.len(), 2);
    assert!(state.map.tile_content[xy_idx(8, 5, 5)].is_empty());
}

#[test]
fn reindexing_clears_stale_occupancy() {
    let mut state = forest_state(8, 8);
    state.units.push(test_unit(2, 2, 8, 8));
    MapIndexingSystem::run(&mut state);
    assert!(state.map.blocked[xy_idx(8, 2, 2)]);
    // Move the unit and reindex: nothing from the previous tick leaks.
    state.units[0].pos = Position { x: 5, y: 5 };
    MapIndexingSystem::run(&mut state);
    assert!(!state.map.blocked[xy_idx(8, 2, 2)]);
    assert!(state.map.tile_content[xy_idx(8, 2, 2)].is_empty());
    assert!(state.map.blocked[xy_idx(8, 5, 5)]);
    assert!(state.map.tile_content[xy_idx(8, 5, 5)].contains(&EntityRef::Unit(0)));
}

#[test]
fn reindexing_an_unchanged_world_is_idempotent() {
    // With the same entity positions and terrain, a second run reproduces
    // the blocked flags and the occupancy lists exactly.
    let mut state = forest_state(8, 8);
    state.players.push(PlayerEntity {
        pos: Position { x: 2, y: 2 },
        player: Player { order: PlayerOrder::PlayerOne, unit_count: 2, fort_count: 0 },
        name: Name { name: "Player1".to_string() },
    });
    state.units.push(test_unit(2, 2, 8, 8));
    state.units.push(test_unit(4, 4, 8, 8));
    MapIndexingSystem::run(&mut state);
    let blocked_first = state.map.blocked.clone();
    let content_first = state.map.tile_content.clone();
    MapIndexingSystem::run(&mut state);
    assert_eq!(state.map.blocked, blocked_first);
    assert_eq!(state.map.tile_content, content_first);
}

#[test]
fn field_of_view_covers_the_sight_radius() {
    let mut state = forest_state(8, 8);
    state.units.push(test_unit(3, 3, 8, 2));
    state.run_systems();
    // Radius 2, all terrain transparent: the 13 tiles of the Euclidean disc.
    let visible_count = state.map.visible_tiles.iter().filter(|v| **v).count();
    assert_eq!(visible_count, 13);
    assert!(state.map.visible_tiles[xy_idx(8, 3, 3)]);
    assert!(state.map.visible_tiles[xy_idx(8, 5, 3)]);
    assert!(state.map.visible_tiles[xy_idx(8, 4, 4)]);
    assert!(!state.map.visible_tiles[xy_idx(8, 5, 5)]); // distance > 2
    assert!(!state.units[0].viewshed.dirty);
}

#[test]
fn zero_range_viewer_sees_only_its_own_tile() {
    let mut state = forest_state(8, 8);
    state.units.push(test_unit(3, 3, 8, 0));
    state.run_systems();
    let visible_count = state.map.visible_tiles.iter().filter(|v| **v).count();
    assert_eq!(visible_count, 1);
    assert!(state.map.visible_tiles[xy_idx(8, 3, 3)]);
}

#[test]
fn ice_blocks_sight_but_is_itself_seen() {
    // Viewer next to the border: the ice wall at (0, 1) is visible, but the
    // corner (0, 0) behind it is not, although it is within range.
    let mut state = forest_state(8, 8);
    state.units.push(test_unit(1, 2, 8, 8));
    state.run_systems();
    assert!(state.map.visible_tiles[xy_idx(8, 0, 1)]);
    assert!(state.map.revealed_tiles[xy_idx(8, 0, 1)]);
    assert!(!state.map.visible_tiles[xy_idx(8, 0, 0)]);
    assert!(!state.map.revealed_tiles[xy_idx(8, 0, 0)]);
}

#[test]
fn revealed_is_monotonic_visible_is_transient() {
    let mut state = forest_state(12, 12);
    state.units.push(test_unit(3, 3, 8, 2));
    state.run_systems();
    assert!(state.map.visible_tiles[xy_idx(12, 1, 3)]);
    assert!(state.map.revealed_tiles[xy_idx(12, 1, 3)]);
    let revealed_before: Vec<bool> = state.map.revealed_tiles.clone();
    // The unit walks far away and looks again.
    state.units[0].pos = Position { x: 9, y: 9 };
    state.units[0].viewshed.dirty = true;
    state.run_systems();
    // Out of sight now, but still revealed: revealed never resets.
    assert!(!state.map.visible_tiles[xy_idx(12, 1, 3)]);
    assert!(state.map.revealed_tiles[xy_idx(12, 1, 3)]);
    for i in 0..revealed_before.len() {
        if revealed_before[i] {
            assert!(state.map.revealed_tiles[i]);
        }
    }
    assert!(state.map.visible_tiles[xy_idx(12, 9, 8)]);
}
