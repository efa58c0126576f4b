//! Cursor control: moving the player cursor one tile, teleporting it, and
//! interpreting input while in cursor mode.

use vstd::prelude::*;
use crate::components::{PlayerEntity, Position, dummy_player, replace_player};
use crate::error_handling::{handle_move_result, move_result_logged};
use crate::gamelog::log_extends;
use crate::{Command, FailedMoveReason, RunState, State, pos_in_map, same_control};

verus! {

/// Whether the cursor may move by (dx, dy): a player exists and the
/// destination tile is on the map and not blocked.
pub open spec fn cursor_move_allowed(s: State, dx: int, dy: int) -> bool {
    &&& s.players@.len() > 0
    &&& {
        let p = s.players@[s.active_player as int].pos;
        &&& s.map.spec_in_bounds(p.x + dx, p.y + dy)
        &&& !s.map.blocked@[s.map.spec_idx(p.x + dx, p.y + dy)]
    }
}

/// The player stores of the two states agree except that the active player's
/// cursor now stands at `p`.
pub open spec fn cursor_teleported(s: State, s2: State, p: Position) -> bool {
    let p0 = s.players@[s.active_player as int];
    s2.players@ == s.players@.update(
        s.active_player as int,
        (PlayerEntity { pos: p, player: p0.player, name: p0.name }),
    )
}

/// Attempt to move the cursor one step. On success the active player's
/// cursor moves; on failure nothing changes. Never touches the log.
pub fn try_move_player(delta_x: i32, delta_y: i32, state: &mut State) -> (r: Result<
    (i32, i32),
    FailedMoveReason,
>)
    requires
        old(state).wf(),
        -1 <= delta_x <= 1,
        -1 <= delta_y <= 1,
    ensures
        final(state).wf(),
        final(state).map == old(state).map,
        final(state).units == old(state).units,
        final(state).forts == old(state).forts,
        final(state).log == old(state).log,
        same_control(*old(state), *final(state)),
        old(state).counts_consistent() ==> final(state).counts_consistent(),
        cursor_move_allowed(*old(state), delta_x as int, delta_y as int) ==> {
            let p0 = old(state).players@[old(state).active_player as int].pos;
            &&& r == Result::<(i32, i32), FailedMoveReason>::Ok(
                ((p0.x + delta_x) as i32, (p0.y + delta_y) as i32),
            )
            &&& cursor_teleported(
                *old(state),
                *final(state),
                (Position { x: (p0.x + delta_x) as i32, y: (p0.y + delta_y) as i32 }),
            )
        },
        !cursor_move_allowed(*old(state), delta_x as int, delta_y as int) ==> {
            &&& final(state).players == old(state).players
            &&& r == Result::<(i32, i32), FailedMoveReason>::Err(
                if old(state).players@.len() == 0 {
                    FailedMoveReason::UnableToGrabEntity
                } else {
                    FailedMoveReason::TileBlocked
                },
            )
        },
{
    if state.players.len() == 0 {
        return Result::Err(FailedMoveReason::UnableToGrabEntity);
    }
    let i = state.active_player;
    let p = state.players[i].pos;
    let nx = p.x + delta_x;
    let ny = p.y + delta_y;
    if !state.map.in_bounds(nx, ny) {
        return Result::Err(FailedMoveReason::TileBlocked);
    }
    let di = state.map.idx(nx, ny);
    if state.map.blocked[di] {
        return Result::Err(FailedMoveReason::TileBlocked);
    }
    let ghost players0 = state.players@;
    let e0 = replace_player(&mut state.players, i, dummy_player());
    let e1 = PlayerEntity { pos: Position { x: nx, y: ny }, ..e0 };
    replace_player(&mut state.players, i, e1);
    proof {
        assert(state.players@ =~= players0.update(i as int, e1));
    }
    Result::Ok((nx, ny))
}

/// Teleport the cursor to the given position, so the player can look around
/// the area of a unit or fort that was just released.
pub fn teleport_player(unit_pos: Position, state: &mut State)
    requires
        old(state).wf(),
        pos_in_map(old(state).map, unit_pos),
    ensures
        final(state).wf(),
        final(state).map == old(state).map,
        final(state).units == old(state).units,
        final(state).forts == old(state).forts,
        final(state).log == old(state).log,
        same_control(*old(state), *final(state)),
        old(state).counts_consistent() ==> final(state).counts_consistent(),
        old(state).players@.len() > 0 ==> cursor_teleported(*old(state), *final(state), unit_pos),
        old(state).players@.len() == 0 ==> final(state).players == old(state).players,
{
    if state.players.len() == 0 {
        return ;
    }
    let i = state.active_player;
    let ghost players0 = state.players@;
    let e0 = replace_player(&mut state.players, i, dummy_player());
    let e1 = PlayerEntity { pos: unit_pos, ..e0 };
    replace_player(&mut state.players, i, e1);
    proof {
        assert(state.players@ =~= players0.update(i as int, e1));
    }
}

/// What one cursor-mode move command does to the whole state: the cursor
/// moves if it can, and the outcome is surfaced in the log.
pub open spec fn cursor_step(s: State, s2: State, dx: int, dy: int) -> bool {
    &&& s2.map == s.map
    &&& s2.units == s.units
    &&& s2.forts == s.forts
    &&& same_control(s, s2)
    &&& if cursor_move_allowed(s, dx, dy) {
        let p0 = s.players@[s.active_player as int].pos;
        &&& cursor_teleported(s, s2, (Position { x: (p0.x + dx) as i32, y: (p0.y + dy) as i32 }))
        &&& move_result_logged(
            s.log,
            s2.log,
            Result::Ok(((p0.x + dx) as i32, (p0.y + dy) as i32)),
            s.verbose,
        )
    } else {
        &&& s2.players == s.players
        &&& move_result_logged(
            s.log,
            s2.log,
            Result::Err(
                if s.players@.len() == 0 {
                    FailedMoveReason::UnableToGrabEntity
                } else {
                    FailedMoveReason::TileBlocked
                },
            ),
            s.verbose,
        )
    }
}

/// Interpret one command in cursor mode: directional commands attempt to
/// move the cursor, list commands open the unit or fort list, and anything
/// else leaves everything as it is. Returns the run state to continue in.
pub fn player_input(state: &mut State, cmd: Option<Command>) -> (rs: RunState)
    requires
        old(state).wf(),
    ensures
        final(state).wf(),
        old(state).counts_consistent() ==> final(state).counts_consistent(),
        final(state).map == old(state).map,
        final(state).units == old(state).units,
        final(state).forts == old(state).forts,
        same_control(*old(state), *final(state)),
        log_extends(old(state).log, final(state).log),
        match cmd {
            Some(Command::MoveLeft) => rs is MoveCursor && cursor_step(*old(state), *final(state), -1, 0),
            Some(Command::MoveRight) => rs is MoveCursor && cursor_step(*old(state), *final(state), 1, 0),
            Some(Command::MoveUp) => rs is MoveCursor && cursor_step(*old(state), *final(state), 0, -1),
            Some(Command::MoveDown) => rs is MoveCursor && cursor_step(*old(state), *final(state), 0, 1),
            Some(Command::OpenUnitList) => rs is ShowUnits && *final(state) == *old(state),
            Some(Command::OpenFortList) => rs is ShowForts && *final(state) == *old(state),
            _ => rs is MoveCursor && *final(state) == *old(state),
        },
{
    match cmd {
        None => RunState::MoveCursor,
        Some(Command::MoveLeft) => {
            let res = try_move_player(-1, 0, state);
            handle_move_result(&mut state.log, res, state.verbose);
            RunState::MoveCursor
        },
        Some(Command::MoveRight) => {
            let res = try_move_player(1, 0, state);
            handle_move_result(&mut state.log, res, state.verbose);
            RunState::MoveCursor
        },
        Some(Command::MoveUp) => {
            let res = try_move_player(0, -1, state);
            handle_move_result(&mut state.log, res, state.verbose);
            RunState::MoveCursor
        },
        Some(Command::MoveDown) => {
            let res = try_move_player(0, 1, state);
            handle_move_result(&mut state.log, res, state.verbose);
            RunState::MoveCursor
        },
        Some(Command::OpenUnitList) => RunState::ShowUnits,
        Some(Command::OpenFortList) => RunState::ShowForts,
        Some(_) => RunState::MoveCursor,
    }
}

} // verus!
