//! The list-browsing menus, the spawner, the camera window and the
//! expected-state table of the fuzzing harness.

use civlike::camera::viewport;
use civlike::error_handling::{expected_states, ExpectedFuzzState};
use civlike::gui::{fort_list, owned_forts, owned_units, unit_list, MenuResult};
use civlike::spawner::{generate_coordinates, spawn_player_entities};
use civlike::{xy_idx, Command, Fort, FortEntity, Name, Player, PlayerEntity, PlayerOrder,
    Position, RunState, State, Unit, UnitEntity, Viewshed, WorldMap};

fn forest_state(w: i32, h: i32) -> State {
    State::new(WorldMap::new_map(w, h, &vec![5; (w * h) as usize]))
}

fn owned_unit(x: i32, y: i32, owner: PlayerOrder) -> UnitEntity {
    UnitEntity {
        pos: Position { x, y },
        unit: Unit { owner, health: 20, strength: 8, stamina: 8 },
        name: Name { name: "Unit1".to_string() },
        viewshed: Viewshed { visible_tiles: Vec::new(), range: 8, dirty: true },
    }
}

#[test]
fn unit_list_shows_only_the_acting_players_units() {
    let mut state = forest_state(8, 8);
    state.players.push(PlayerEntity {
        pos: Position { x: 2, y: 2 },
        player: Player { order: PlayerOrder::PlayerOne, unit_count: 2, fort_count: 0 },
        name: Name { name: "Player1".to_string() },
    });
    state.units.push(owned_unit(2, 2, PlayerOrder::PlayerOne));
    state.units.push(owned_unit(3, 3, PlayerOrder::PlayerTwo));
    state.units.push(owned_unit(4, 4, PlayerOrder::PlayerOne));
    assert_eq!(owned_units(&state), vec![0, 2]);
    // Browse down once: the highlight lands on the second owned unit, which
    // is unit index 2.
    state.runstate = RunState::ShowUnits;
    assert_eq!(unit_list(&mut state, Some(Command::MoveDown)), MenuResult::NoResponse);
    assert_eq!(state.last_option, 1);
    // The highlight stops at the end of the list.
    assert_eq!(unit_list(&mut state, Some(Command::MoveDown)), MenuResult::NoResponse);
    assert_eq!(state.last_option, 1);
    assert_eq!(unit_list(&mut state, Some(Command::ConfirmSelection)), MenuResult::Selected);
    assert_eq!(state.active_unit, Some(2));
    // Browsing back up works too.
    assert_eq!(unit_list(&mut state, Some(Command::MoveUp)), MenuResult::NoResponse);
    assert_eq!(state.last_option, 0);
}

#[test]
fn fort_list_selects_the_chosen_fort() {
    let mut state = forest_state(8, 8);
    state.players.push(PlayerEntity {
        pos: Position { x: 2, y: 2 },
        player: Player { order: PlayerOrder::PlayerOne, unit_count: 0, fort_count: 1 },
        name: Name { name: "Player1".to_string() },
    });
    state.forts.push(FortEntity {
        pos: Position { x: 3, y: 3 },
        fort: Fort { owner: PlayerOrder::PlayerOne, defense: 10 },
        name: Name { name: "Fort1".to_string() },
    });
    assert_eq!(owned_forts(&state), vec![0]);
    assert_eq!(fort_list(&mut state, None), MenuResult::NoResponse);
    assert_eq!(fort_list(&mut state, Some(Command::ConfirmSelection)), MenuResult::Selected);
    assert_eq!(state.active_fort, Some(0));
    assert_eq!(fort_list(&mut state, Some(Command::CancelSelection)), MenuResult::Cancel);
}

#[test]
fn menus_drive_the_run_state() {
    let mut state = forest_state(8, 8);
    state.players.push(PlayerEntity {
        pos: Position { x: 2, y: 2 },
        player: Player { order: PlayerOrder::PlayerOne, unit_count: 1, fort_count: 0 },
        name: Name { name: "Player1".to_string() },
    });
    state.units.push(owned_unit(2, 2, PlayerOrder::PlayerOne));
    // Open the unit list, confirm the first entry, end up controlling it.
    state.tick(Some(Command::OpenUnitList));
    assert_eq!(state.runstate, RunState::ShowUnits);
    state.tick(Some(Command::ConfirmSelection));
    assert_eq!(state.runstate, RunState::MoveUnit);
    assert_eq!(state.active_unit, Some(0));
    // Release the unit; then open and cancel the fort list.
    state.tick(Some(Command::ReturnToCursor));
    assert_eq!(state.runstate, RunState::MoveCursor);
    state.tick(Some(Command::OpenFortList));
    assert_eq!(state.runstate, RunState::ShowForts);
    state.tick(Some(Command::CancelSelection));
    assert_eq!(state.runstate, RunState::MoveCursor);
}

#[test]
fn only_one_entity_is_ever_marked(){
    // The moving and selected markers are single optional slots: marking a
    // second entity replaces the first instead of accumulating.
    let mut state = forest_state(8, 8);
    state.players.push(PlayerEntity {
        pos: Position { x: 2, y: 2 },
        player: Player { order: PlayerOrder::PlayerOne, unit_count: 2, fort_count: 0 },
        name: Name { name: "Player1".to_string() },
    });
    state.units.push(owned_unit(2, 2, PlayerOrder::PlayerOne));
    state.units.push(owned_unit(4, 4, PlayerOrder::PlayerOne));
    state.runstate = RunState::ShowUnits;
    unit_list(&mut state, Some(Command::ConfirmSelection));
    assert_eq!(state.active_unit, Some(0));
    state.last_option = 1;
    unit_list(&mut state, Some(Command::ConfirmSelection));
    assert_eq!(state.active_unit, Some(1));
}

#[test]
fn spawning_sets_up_a_consistent_side() {
    let mut state = forest_state(12, 12);
    spawn_player_entities(&mut state, (6, 6), 8, PlayerOrder::PlayerOne);
    assert_eq!(state.players.len(), 1);
    assert_eq!(state.players[0].pos, Position { x: 6, y: 6 });
    assert_eq!(
        state.players[0].player,
        Player { order: PlayerOrder::PlayerOne, unit_count: 3, fort_count: 1 },
    );
    assert_eq!(state.forts.len(), 1);
    assert_eq!(state.forts[0].pos, Position { x: 6, y: 6 });
    assert_eq!(state.forts[0].name.name.as_str(), "Fort1");
    assert_eq!(state.units.len(), 3);
    let names: Vec<&str> = state.units.iter().map(|u| u.name.name.as_str()).collect();
    assert_eq!(names, vec!["Unit1", "Unit2", "Unit3"]);
    for u in &state.units {
        assert_eq!(u.unit.owner, PlayerOrder::PlayerOne);
        assert_eq!(u.unit.stamina, 8);
        // Placed near the spawn, on the map, on passable ground.
        assert!(u.pos.x >= 3 && u.pos.x < 9 && u.pos.y >= 3 && u.pos.y < 9);
        let t = state.map.tiles[xy_idx(12, u.pos.x, u.pos.y)];
        assert!(!civlike::map::tile_blocks(t));
    }
    // The home area is claimed.
    for x in 5..=7 {
        for y in 5..=7 {
            assert_eq!(state.map.claimed_tiles[xy_idx(12, x, y)], PlayerOrder::PlayerOne);
        }
    }
    assert_eq!(state.map.claimed_tiles[xy_idx(12, 3, 6)], PlayerOrder::NoPlayer);
}

#[test]
fn random_placement_lands_on_the_only_passable_tile() {
    // Everything mountain except one interior tile: whatever the random
    // source hands back, the placement must end on that tile.
    let mut heights = vec![100; 64];
    heights[xy_idx(8, 3, 3)] = 5;
    let map = WorldMap::new_map(8, 8, &heights);
    let pos = generate_coordinates(&map, (1, 7), (1, 7));
    assert_eq!(pos, (3, 3));
}

#[test]
fn expected_state_table_matches_the_machine() {
    assert_eq!(
        expected_states(RunState::MoveCursor, Command::OpenUnitList),
        ExpectedFuzzState { first: RunState::ShowUnits, second: None, third: None },
    );
    assert_eq!(
        expected_states(RunState::MoveCursor, Command::MoveUp).first,
        RunState::MoveCursor,
    );
    assert_eq!(
        expected_states(RunState::MoveUnit, Command::ReturnToCursor).first,
        RunState::MoveCursor,
    );
    assert_eq!(
        expected_states(RunState::SelectedFort, Command::BuildUnit).first,
        RunState::MoveCursor,
    );
    let e = expected_states(RunState::ShowUnits, Command::MoveDown);
    assert_eq!(e.first, RunState::ShowUnits);
    assert_eq!(e.second, Some(RunState::MoveUnit));
    assert_eq!(e.third, Some(RunState::MoveCursor));
}

#[test]
fn viewport_is_centered_on_the_cursor() {
    let vp = viewport(Position { x: 40, y: 25 }, 80, 50);
    assert_eq!(vp.min_x, 0);
    assert_eq!(vp.min_y, 0);
    assert_eq!(vp.max_x, 80);
    assert_eq!(vp.max_y, 50);
    let vp = viewport(Position { x: 10, y: 5 }, 80, 50);
    assert_eq!(vp.min_x, -30);
    assert_eq!(vp.max_x, 50);
    assert_eq!(civlike::camera::to_screen(vp, 10, 5), (40, 25));
    assert!(civlike::camera::in_viewport(vp, 10, 5));
    assert!(!civlike::camera::in_viewport(vp, 60, 5));
}
