//! Reporting the outcome of a movement attempt to the game log, and the
//! expected-state table used by the input-fuzzing harness.

use vstd::prelude::*;
use crate::gamelog::{GameLog, MessageType};
use crate::text;
use crate::{Command, FailedMoveReason, RunState};

verus! {

/// How the log grows from handling a move result: a verbose success logs the
/// position reached, a silent success logs nothing, and each failure logs its
/// fixed message.
pub open spec fn move_result_logged(
    old_log: GameLog,
    new_log: GameLog,
    res: Result<(i32, i32), FailedMoveReason>,
    verbose: bool,
) -> bool {
    match res {
        Result::Ok((x, y)) => if verbose {
            GameLog::appended(old_log, new_log, text::moved_text(x as nat, y as nat), MessageType::Move)
        } else {
            new_log == old_log
        },
        Result::Err(FailedMoveReason::TileBlocked) => GameLog::appended(
            old_log,
            new_log,
            "Tile entity tried to move on is blocked"@,
            MessageType::Error,
        ),
        Result::Err(FailedMoveReason::UnableToGrabEntity) => GameLog::appended(
            old_log,
            new_log,
            "Failed to grab entity"@,
            MessageType::Error,
        ),
        Result::Err(FailedMoveReason::UnitOutOfMoves) => GameLog::appended(
            old_log,
            new_log,
            "Unit out of stamina, can't make more moves"@,
            MessageType::Error,
        ),
    }
}

/// Surface the outcome of a movement attempt in the game log.
pub fn handle_move_result(
    log: &mut GameLog,
    res: Result<(i32, i32), FailedMoveReason>,
    verbose: bool,
)
    requires
        old(log).wf(),
        res matches Ok(p) ==> p.0 >= 0 && p.1 >= 0,
    ensures
        final(log).wf(),
        move_result_logged(*old(log), *final(log), res, verbose),
        crate::gamelog::log_extends(*old(log), *final(log)),
{
    let ghost log0 = *log;
    match res {
        Result::Ok((x, y)) => {
            if verbose {
                log.push(text::moved_string(x, y), MessageType::Move);
            }
        },
        Result::Err(FailedMoveReason::TileBlocked) => {
            log.push(
                String::from_str("Tile entity tried to move on is blocked"),
                MessageType::Error,
            );
        },
        Result::Err(FailedMoveReason::UnableToGrabEntity) => {
            log.push(String::from_str("Failed to grab entity"), MessageType::Error);
        },
        Result::Err(FailedMoveReason::UnitOutOfMoves) => {
            log.push(
                String::from_str("Unit out of stamina, can't make more moves"),
                MessageType::Error,
            );
        },
    }
    proof {
        assert(log.entries@.subrange(0, log0.entries@.len() as int) =~= log0.entries@);
        assert(log.message_type@.subrange(0, log0.message_type@.len() as int) =~= log0.message_type@);
    }
}

/// The run states a tick may legally end in, given the state it started in
/// and the command fed to it; used by the fuzzing harness to check each tick.
#[derive(PartialEq, Eq, Structural, Copy, Clone, Debug)]
pub struct ExpectedFuzzState {
    pub first: RunState,
    pub second: Option<RunState>,
    pub third: Option<RunState>,
}

/// The expected-state table of the fuzzing harness: from the list-browsing
/// states any of browse/confirm/cancel outcomes may follow; elsewhere the
/// outcome is determined by the command.
pub open spec fn spec_expected_states(initial: RunState, cmd: Command) -> ExpectedFuzzState {
    match initial {
        RunState::ShowUnits => ExpectedFuzzState {
            first: RunState::ShowUnits,
            second: Some(RunState::MoveUnit),
            third: Some(RunState::MoveCursor),
        },
        RunState::ShowForts => ExpectedFuzzState {
            first: RunState::ShowForts,
            second: Some(RunState::SelectedFort),
            third: Some(RunState::MoveCursor),
        },
        RunState::MoveUnit => ExpectedFuzzState {
            first: if cmd is ReturnToCursor {
                RunState::MoveCursor
            } else {
                RunState::MoveUnit
            },
            second: None,
            third: None,
        },
        RunState::SelectedFort => ExpectedFuzzState {
            first: if cmd is BuildUnit || cmd is ReturnToCursor {
                RunState::MoveCursor
            } else {
                RunState::SelectedFort
            },
            second: None,
            third: None,
        },
        RunState::MoveCursor => ExpectedFuzzState {
            first: if cmd is OpenUnitList {
                RunState::ShowUnits
            } else if cmd is OpenFortList {
                RunState::ShowForts
            } else {
                RunState::MoveCursor
            },
            second: None,
            third: None,
        },
    }
}

pub fn expected_states(initial: RunState, cmd: Command) -> (e: ExpectedFuzzState)
    ensures
        e == spec_expected_states(initial, cmd),
{
    match initial {
        RunState::ShowUnits => ExpectedFuzzState {
            first: RunState::ShowUnits,
            second: Some(RunState::MoveUnit),
            third: Some(RunState::MoveCursor),
        },
        RunState::ShowForts => ExpectedFuzzState {
            first: RunState::ShowForts,
            second: Some(RunState::SelectedFort),
            third: Some(RunState::MoveCursor),
        },
        RunState::MoveUnit => ExpectedFuzzState {
            first: if matches!(cmd, Command::ReturnToCursor) {
                RunState::MoveCursor
            } else {
                RunState::MoveUnit
            },
            second: None,
            third: None,
        },
        RunState::SelectedFort => ExpectedFuzzState {
            first: if matches!(cmd, Command::BuildUnit) || matches!(cmd, Command::ReturnToCursor) {
                RunState::MoveCursor
            } else {
                RunState::SelectedFort
            },
            second: None,
            third: None,
        },
        RunState::MoveCursor => ExpectedFuzzState {
            first: if matches!(cmd, Command::OpenUnitList) {
                RunState::ShowUnits
            } else if matches!(cmd, Command::OpenFortList) {
                RunState::ShowForts
            } else {
                RunState::MoveCursor
            },
            second: None,
            third: None,
        },
    }
}

} // verus!
