//! The command/turn state machine: cursor and unit movement, claims, fort
//! and unit building, stamina accounting and the event log.

use civlike::fort::build_unit;
use civlike::turns::next_turn;
use civlike::unit::{build_fort, claim_tile};
use civlike::{xy_idx, Command, Fort, FortEntity, MessageType, Name, Player, PlayerEntity,
    PlayerOrder, Position, RunState, State, Unit, UnitEntity, Viewshed, WorldMap};

fn forest_state(w: i32, h: i32) -> State {
    State::new(WorldMap::new_map(w, h, &vec![5; (w * h) as usize]))
}

fn test_unit(x: i32, y: i32, stamina: u8) -> UnitEntity {
    UnitEntity {
        pos: Position { x, y },
        unit: Unit { owner: PlayerOrder::PlayerOne, health: 20, strength: 8, stamina },
        name: Name { name: "Unit1".to_string() },
        viewshed: Viewshed { visible_tiles: Vec::new(), range: 8, dirty: true },
    }
}

fn test_player(x: i32, y: i32, unit_count: u16, fort_count: u16) -> PlayerEntity {
    PlayerEntity {
        pos: Position { x, y },
        player: Player { order: PlayerOrder::PlayerOne, unit_count, fort_count },
        name: Name { name: "Player1".to_string() },
    }
}

fn test_fort(x: i32, y: i32) -> FortEntity {
    FortEntity {
        pos: Position { x, y },
        fort: Fort { owner: PlayerOrder::PlayerOne, defense: 10 },
        name: Name { name: "Fort1".to_string() },
    }
}

#[test]
fn claim_then_claim_again_spends_stamina_once_each() {
    // Fresh 3-by-3 interior map (5-by-5 with the forced ice border), a single
    // unit with stamina 8 at the center, center tile unclaimed.
    let mut state = forest_state(5, 5);
    state.units.push(test_unit(2, 2, 8));
    state.players.push(test_player(2, 2, 1, 0));
    state.active_unit = Some(0);
    let center = xy_idx(5, 2, 2);
    assert_eq!(state.map.claimed_tiles[center], PlayerOrder::NoPlayer);

    // First claim: the tile becomes the owner's and one stamina is spent.
    let r = claim_tile(&mut state);
    assert_eq!(r, Some((2, 2)));
    assert_eq!(state.map.claimed_tiles[center], PlayerOrder::PlayerOne);
    assert_eq!(state.units[0].unit.stamina, 7);

    // Second claim: a no-op on the tag, but the stamina point is still spent.
    let r = claim_tile(&mut state);
    assert_eq!(r, None);
    assert_eq!(state.map.claimed_tiles[center], PlayerOrder::PlayerOne);
    assert_eq!(state.units[0].unit.stamina, 6);
}

#[test]
fn claim_with_no_stamina_changes_nothing() {
    let mut state = forest_state(5, 5);
    state.units.push(test_unit(2, 2, 0));
    state.active_unit = Some(0);
    let r = claim_tile(&mut state);
    assert_eq!(r, None);
    assert_eq!(state.map.claimed_tiles[xy_idx(5, 2, 2)], PlayerOrder::NoPlayer);
    assert_eq!(state.units[0].unit.stamina, 0);
}

#[test]
fn build_fort_below_threshold_fails_without_cost() {
    // A unit with stamina 4 against the threshold of 5: the attempt fails,
    // logs the failure, costs nothing and creates nothing.
    let mut state = forest_state(8, 8);
    state.units.push(test_unit(3, 3, 4));
    state.players.push(test_player(3, 3, 1, 0));
    state.active_unit = Some(0);
    state.runstate = RunState::MoveUnit;
    state.map.claimed_tiles[xy_idx(8, 3, 3)] = PlayerOrder::PlayerOne;
    state.tick(Some(Command::BuildFort));
    assert_eq!(state.units[0].unit.stamina, 4);
    assert_eq!(state.forts.len(), 0);
    assert_eq!(state.players[0].player.fort_count, 0);
    assert_eq!(state.log.entries.last().unwrap().as_str(), "Unable to build fort");
    assert_eq!(*state.log.message_type.last().unwrap(), MessageType::Error);
}

#[test]
fn build_fort_on_owned_tile_succeeds() {
    let mut state = forest_state(8, 8);
    state.units.push(test_unit(3, 3, 8));
    state.players.push(test_player(3, 3, 1, 0));
    state.active_unit = Some(0);
    state.runstate = RunState::MoveUnit;
    state.map.claimed_tiles[xy_idx(8, 3, 3)] = PlayerOrder::PlayerOne;
    state.tick(Some(Command::BuildFort));
    // All remaining stamina is consumed and the fort stands on the tile.
    assert_eq!(state.units[0].unit.stamina, 0);
    assert_eq!(state.forts.len(), 1);
    assert_eq!(state.forts[0].pos, Position { x: 3, y: 3 });
    assert_eq!(state.forts[0].fort, Fort { owner: PlayerOrder::PlayerOne, defense: 10 });
    assert_eq!(state.forts[0].name.name.as_str(), "Fort1");
    assert_eq!(state.players[0].player.fort_count, 1);
    // The 3-by-3 neighborhood is claimed.
    for x in 2..=4 {
        for y in 2..=4 {
            assert_eq!(state.map.claimed_tiles[xy_idx(8, x, y)], PlayerOrder::PlayerOne);
        }
    }
    assert_eq!(state.map.claimed_tiles[xy_idx(8, 5, 3)], PlayerOrder::NoPlayer);
    assert_eq!(state.log.entries.last().unwrap().as_str(), "Player1 has built a fort at (3, 3)");
    assert_eq!(*state.log.message_type.last().unwrap(), MessageType::Build);
    assert_eq!(state.runstate, RunState::MoveUnit);
}

#[test]
fn build_fort_needs_an_owned_tile_and_a_free_tile() {
    let mut state = forest_state(8, 8);
    state.units.push(test_unit(3, 3, 8));
    state.players.push(test_player(3, 3, 1, 0));
    state.active_unit = Some(0);
    // Unclaimed tile: rejected, nothing spent.
    let r = build_fort(&mut state);
    assert_eq!(r, None);
    assert_eq!(state.units[0].unit.stamina, 8);
    // Claimed by the other side: still rejected.
    state.map.claimed_tiles[xy_idx(8, 3, 3)] = PlayerOrder::PlayerTwo;
    assert_eq!(build_fort(&mut state), None);
    // Claimed by the owner, but a fort already stands here (per occupancy).
    state.map.claimed_tiles[xy_idx(8, 3, 3)] = PlayerOrder::PlayerOne;
    state.forts.push(test_fort(3, 3));
    state.players[0].player.fort_count = 1;
    civlike::map_indexing_system::MapIndexingSystem::run(&mut state);
    assert_eq!(build_fort(&mut state), None);
    assert_eq!(state.units[0].unit.stamina, 8);
    assert_eq!(state.forts.len(), 1);
}

#[test]
fn build_unit_at_the_cap_fails_without_change() {
    // A player at 25 units attempts to build at an owned, unblocked fort.
    let mut state = forest_state(8, 8);
    state.players.push(test_player(3, 3, 25, 1));
    state.forts.push(test_fort(3, 3));
    state.active_fort = Some(0);
    state.runstate = RunState::SelectedFort;
    state.run_systems();
    let r = build_unit(&mut state);
    assert_eq!(r, None);
    assert_eq!(state.units.len(), 0);
    assert_eq!(state.players[0].player.unit_count, 25);
}

#[test]
fn build_unit_at_the_cap_reports_failure_through_the_log() {
    let mut state = forest_state(8, 8);
    state.players.push(test_player(3, 3, 25, 1));
    state.forts.push(test_fort(3, 3));
    state.active_fort = Some(0);
    state.runstate = RunState::SelectedFort;
    state.tick(Some(Command::BuildUnit));
    assert_eq!(state.units.len(), 0);
    assert_eq!(state.players[0].player.unit_count, 25);
    assert_eq!(state.log.entries.last().unwrap().as_str(), "Unable to build a unit");
    assert_eq!(*state.log.message_type.last().unwrap(), MessageType::Error);
    // The fort is released and control returns to the cursor.
    assert_eq!(state.runstate, RunState::MoveCursor);
    assert_eq!(state.active_fort, None);
}

#[test]
fn build_unit_below_the_cap_succeeds_and_moves_the_cursor() {
    let mut state = forest_state(8, 8);
    state.players.push(test_player(5, 5, 0, 1));
    state.forts.push(test_fort(3, 3));
    state.active_fort = Some(0);
    state.runstate = RunState::SelectedFort;
    state.tick(Some(Command::BuildUnit));
    assert_eq!(state.units.len(), 1);
    assert_eq!(state.units[0].pos, Position { x: 3, y: 3 });
    assert_eq!(
        state.units[0].unit,
        Unit { owner: PlayerOrder::PlayerOne, health: 20, strength: 8, stamina: 8 },
    );
    assert_eq!(state.units[0].name.name.as_str(), "Unit1");
    assert!(state.units[0].viewshed.dirty);
    assert_eq!(state.players[0].player.unit_count, 1);
    // The cursor is teleported to the fort and control returns to it.
    assert_eq!(state.players[0].pos, Position { x: 3, y: 3 });
    assert_eq!(state.runstate, RunState::MoveCursor);
    assert_eq!(state.log.entries.last().unwrap().as_str(), "Player1 has built a unit at (3, 3)");
}

#[test]
fn build_unit_on_a_blocked_fort_tile_fails() {
    // A unit standing on the fort blocks production there.
    let mut state = forest_state(8, 8);
    state.players.push(test_player(5, 5, 1, 1));
    state.forts.push(test_fort(3, 3));
    state.units.push(test_unit(3, 3, 8));
    state.active_fort = Some(0);
    state.run_systems();
    assert_eq!(build_unit(&mut state), None);
    assert_eq!(state.units.len(), 1);
    assert_eq!(state.players[0].player.unit_count, 1);
}

#[test]
fn cursor_blocked_by_water() {
    // Cursor at (5, 5), the tile above it water: the move fails, the cursor
    // stays, and the failure is logged as tile-blocked.
    let mut heights = vec![5; 64];
    heights[xy_idx(8, 5, 4)] = -20; // water at (5, 4)
    let mut state = State::new(WorldMap::new_map(8, 8, &heights));
    state.players.push(test_player(5, 5, 0, 0));
    state.tick(Some(Command::MoveUp));
    assert_eq!(state.players[0].pos, Position { x: 5, y: 5 });
    assert_eq!(state.runstate, RunState::MoveCursor);
    assert_eq!(
        state.log.entries.last().unwrap().as_str(),
        "Tile entity tried to move on is blocked",
    );
    assert_eq!(*state.log.message_type.last().unwrap(), MessageType::Error);
}

#[test]
fn cursor_moves_on_open_ground() {
    let mut state = forest_state(8, 8);
    state.verbose = true;
    state.players.push(test_player(5, 5, 0, 0));
    state.tick(Some(Command::MoveUp));
    assert_eq!(state.players[0].pos, Position { x: 5, y: 4 });
    assert_eq!(state.log.entries.last().unwrap().as_str(), "Moved entity to (5, 4)");
    assert_eq!(*state.log.message_type.last().unwrap(), MessageType::Move);
    state.tick(Some(Command::MoveLeft));
    assert_eq!(state.players[0].pos, Position { x: 4, y: 4 });
    state.tick(Some(Command::MoveRight));
    state.tick(Some(Command::MoveDown));
    assert_eq!(state.players[0].pos, Position { x: 5, y: 5 });
}

#[test]
fn unit_movement_spends_stamina_and_respects_blocking() {
    let mut state = forest_state(8, 8);
    state.units.push(test_unit(3, 3, 2));
    state.players.push(test_player(3, 3, 1, 0));
    state.active_unit = Some(0);
    state.runstate = RunState::MoveUnit;
    state.tick(Some(Command::MoveRight));
    assert_eq!(state.units[0].pos, Position { x: 4, y: 3 });
    assert_eq!(state.units[0].unit.stamina, 1);
    assert!(state.units[0].viewshed.dirty); // marked for recomputation next tick
    // Walking into the ice border fails: blocked, no stamina spent.
    state.units[0].pos = Position { x: 1, y: 3 };
    state.units[0].unit.stamina = 1;
    state.tick(Some(Command::MoveLeft));
    assert_eq!(state.units[0].pos, Position { x: 1, y: 3 });
    assert_eq!(state.units[0].unit.stamina, 1);
    assert_eq!(
        state.log.entries.last().unwrap().as_str(),
        "Tile entity tried to move on is blocked",
    );
}

#[test]
fn unit_with_no_stamina_cannot_move() {
    let mut state = forest_state(8, 8);
    state.units.push(test_unit(3, 3, 0));
    state.players.push(test_player(3, 3, 1, 0));
    state.active_unit = Some(0);
    state.runstate = RunState::MoveUnit;
    state.tick(Some(Command::MoveRight));
    assert_eq!(state.units[0].pos, Position { x: 3, y: 3 });
    assert_eq!(state.units[0].unit.stamina, 0);
    assert_eq!(
        state.log.entries.last().unwrap().as_str(),
        "Unit out of stamina, can't make more moves",
    );
}

#[test]
fn claim_through_the_state_machine_logs_the_claim() {
    let mut state = forest_state(8, 8);
    state.units.push(test_unit(3, 3, 8));
    state.players.push(test_player(3, 3, 1, 0));
    state.active_unit = Some(0);
    state.runstate = RunState::MoveUnit;
    state.tick(Some(Command::Claim));
    assert_eq!(state.map.claimed_tiles[xy_idx(8, 3, 3)], PlayerOrder::PlayerOne);
    assert_eq!(state.units[0].unit.stamina, 7);
    assert_eq!(state.log.entries.last().unwrap().as_str(), "Player1 has claimed a tile at (3, 3)");
    assert_eq!(*state.log.message_type.last().unwrap(), MessageType::Claim);
    // Claiming again is a no-op on the tag and is reported as a failure.
    state.tick(Some(Command::Claim));
    assert_eq!(state.units[0].unit.stamina, 6);
    assert_eq!(state.log.entries.last().unwrap().as_str(), "Unable to claim tile");
}

#[test]
fn return_to_cursor_releases_the_unit_and_teleports() {
    let mut state = forest_state(8, 8);
    state.units.push(test_unit(4, 3, 8));
    state.players.push(test_player(1, 1, 1, 0));
    state.active_unit = Some(0);
    state.runstate = RunState::MoveUnit;
    state.tick(Some(Command::ReturnToCursor));
    assert_eq!(state.runstate, RunState::MoveCursor);
    assert_eq!(state.active_unit, None);
    assert_eq!(state.players[0].pos, Position { x: 4, y: 3 });
}

#[test]
fn next_turn_replenishes_stamina() {
    let mut state = forest_state(8, 8);
    state.units.push(test_unit(3, 3, 0));
    state.units.push(test_unit(5, 5, 3));
    assert_eq!(state.turns, 0);
    next_turn(&mut state);
    assert_eq!(state.turns, 1);
    assert_eq!(state.units[0].unit.stamina, 8);
    assert_eq!(state.units[1].unit.stamina, 8);
}

#[test]
fn the_log_only_ever_grows() {
    let mut state = forest_state(8, 8);
    state.players.push(test_player(3, 3, 0, 0));
    assert_eq!(state.log.entries.len(), 1);
    assert_eq!(state.log.entries[0].as_str(), "Welcome to Civlike!");
    let mut previous: Vec<String> = state.log.entries.clone();
    for cmd in [
        Command::MoveUp,
        Command::MoveDown,
        Command::OpenUnitList,
        Command::CancelSelection,
        Command::MoveLeft,
    ] {
        state.tick(Some(cmd));
        assert!(state.log.entries.len() >= previous.len());
        for i in 0..previous.len() {
            assert_eq!(state.log.entries[i], previous[i]);
        }
        previous = state.log.entries.clone();
    }
}
