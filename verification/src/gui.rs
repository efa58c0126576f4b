//! The list-browsing menus: the acting player's units and forts, a movable
//! highlight, and confirmation that marks the chosen entity active. Drawing
//! of the menus lives outside the core.

use vstd::prelude::*;
use crate::components::{FortEntity, PlayerOrder, UnitEntity};
use crate::{Command, State};

verus! {

/// How a menu tick ended: cancelled, nothing happened, or an entity was
/// chosen.
#[derive(PartialEq, Eq, Structural, Copy, Clone, Debug)]
pub enum MenuResult {
    Cancel,
    NoResponse,
    Selected,
}

/// Which kind of list the menu is browsing.
#[derive(PartialEq, Eq, Structural, Copy, Clone, Debug)]
pub enum SelectionType {
    Unit,
    Fort,
}

/// The ownership tag of the acting player, if a player exists.
pub fn select_player(state: &State) -> (r: Option<PlayerOrder>)
    requires
        state.wf(),
    ensures
        state.players@.len() > 0 ==> r == Some(
            state.players@[state.active_player as int].player.order,
        ),
        state.players@.len() == 0 ==> r is None,
{
    if state.players.len() > 0 {
        Some(state.players[state.active_player].player.order)
    } else {
        None
    }
}

/// The indices of the units of `units` owned by `o`, ascending.
pub open spec fn owned_unit_indices(units: Seq<UnitEntity>, o: PlayerOrder) -> Seq<int>
    decreases units.len(),
{
    if units.len() == 0 {
        Seq::empty()
    } else if units.last().unit.owner == o {
        owned_unit_indices(units.drop_last(), o).push(units.len() - 1)
    } else {
        owned_unit_indices(units.drop_last(), o)
    }
}

/// The indices of the forts of `forts` owned by `o`, ascending.
pub open spec fn owned_fort_indices(forts: Seq<FortEntity>, o: PlayerOrder) -> Seq<int>
    decreases forts.len(),
{
    if forts.len() == 0 {
        Seq::empty()
    } else if forts.last().fort.owner == o {
        owned_fort_indices(forts.drop_last(), o).push(forts.len() - 1)
    } else {
        owned_fort_indices(forts.drop_last(), o)
    }
}

/// The list the unit menu browses: indices of the acting player's units, or
/// an empty list when no player exists.
pub open spec fn spec_unit_menu(s: State) -> Seq<int> {
    if s.players@.len() > 0 {
        owned_unit_indices(s.units@, s.players@[s.active_player as int].player.order)
    } else {
        Seq::empty()
    }
}

/// The list the fort menu browses.
pub open spec fn spec_fort_menu(s: State) -> Seq<int> {
    if s.players@.len() > 0 {
        owned_fort_indices(s.forts@, s.players@[s.active_player as int].player.order)
    } else {
        Seq::empty()
    }
}

/// Collect the acting player's unit indices, ascending.
pub fn owned_units(state: &State) -> (v: Vec<usize>)
    requires
        state.wf(),
    ensures
        v@.len() == spec_unit_menu(*state).len(),
        forall|k: int| 0 <= k < v@.len() ==> #[trigger] v@[k] == spec_unit_menu(*state)[k]
            && v@[k] < state.units@.len(),
{
    let mut v: Vec<usize> = Vec::new();
    if state.players.len() == 0 {
        return v;
    }
    let o = state.players[state.active_player].player.order;
    let n = state.units.len();
    let mut u: usize = 0;
    while u < n
        invariant
            state.wf(),
            u <= n,
            n == state.units@.len(),
            state.players@.len() > 0,
            o == state.players@[state.active_player as int].player.order,
            v@.len() == owned_unit_indices(state.units@.take(u as int), o).len(),
            forall|k: int| 0 <= k < v@.len() ==> #[trigger] v@[k] == owned_unit_indices(
                state.units@.take(u as int),
                o,
            )[k] && v@[k] < u,
        decreases n - u,
    {
        proof {
            assert(state.units@.take(u as int + 1).drop_last() =~= state.units@.take(u as int));
            assert(state.units@.take(u as int + 1).last() == state.units@[u as int]);
        }
        if state.units[u].unit.owner == o {
            v.push(u);
        }
        u = u + 1;
    }
    proof {
        assert(state.units@.take(n as int) =~= state.units@);
    }
    v
}

/// Collect the acting player's fort indices, ascending.
pub fn owned_forts(state: &State) -> (v: Vec<usize>)
    requires
        state.wf(),
    ensures
        v@.len() == spec_fort_menu(*state).len(),
        forall|k: int| 0 <= k < v@.len() ==> #[trigger] v@[k] == spec_fort_menu(*state)[k]
            && v@[k] < state.forts@.len(),
{
    let mut v: Vec<usize> = Vec::new();
    if state.players.len() == 0 {
        return v;
    }
    let o = state.players[state.active_player].player.order;
    let n = state.forts.len();
    let mut u: usize = 0;
    while u < n
        invariant
            state.wf(),
            u <= n,
            n == state.forts@.len(),
            state.players@.len() > 0,
            o == state.players@[state.active_player as int].player.order,
            v@.len() == owned_fort_indices(state.forts@.take(u as int), o).len(),
            forall|k: int| 0 <= k < v@.len() ==> #[trigger] v@[k] == owned_fort_indices(
                state.forts@.take(u as int),
                o,
            )[k] && v@[k] < u,
        decreases n - u,
    {
        proof {
            assert(state.forts@.take(u as int + 1).drop_last() =~= state.forts@.take(u as int));
            assert(state.forts@.take(u as int + 1).last() == state.forts@[u as int]);
        }
        if state.forts[u].fort.owner == o {
            v.push(u);
        }
        u = u + 1;
    }
    proof {
        assert(state.forts@.take(n as int) =~= state.forts@);
    }
    v
}

/// Interpret one command against a selection list: move the highlight, cancel
/// the menu, or confirm the highlighted entry, which marks that entity as the
/// one under control.
pub fn selection(
    state: &mut State,
    cmd: Option<Command>,
    owned: &Vec<usize>,
    selected: SelectionType,
) -> (r: MenuResult)
    requires
        old(state).wf(),
        selected is Unit ==> forall|k: int|
            0 <= k < owned@.len() ==> #[trigger] owned@[k] < old(state).units@.len(),
        selected is Fort ==> forall|k: int|
            0 <= k < owned@.len() ==> #[trigger] owned@[k] < old(state).forts@.len(),
    ensures
        final(state).wf(),
        old(state).counts_consistent() ==> final(state).counts_consistent(),
        final(state).map == old(state).map,
        final(state).units == old(state).units,
        final(state).forts == old(state).forts,
        final(state).players == old(state).players,
        final(state).log == old(state).log,
        final(state).runstate == old(state).runstate,
        final(state).turns == old(state).turns,
        final(state).verbose == old(state).verbose,
        final(state).active_player == old(state).active_player,
        match cmd {
            Some(Command::CancelSelection) => r is Cancel && *final(state) == *old(state),
            Some(Command::ConfirmSelection) => {
                if old(state).last_option < owned@.len() {
                    &&& r is Selected
                    &&& final(state).last_option == old(state).last_option
                    &&& (selected is Unit ==> final(state).active_unit == Some(
                        owned@[old(state).last_option as int],
                    ) && final(state).active_fort == old(state).active_fort)
                    &&& (selected is Fort ==> final(state).active_fort == Some(
                        owned@[old(state).last_option as int],
                    ) && final(state).active_unit == old(state).active_unit)
                } else {
                    r is NoResponse && *final(state) == *old(state)
                }
            },
            Some(Command::MoveUp) => {
                &&& r is NoResponse
                &&& final(state).active_unit == old(state).active_unit
                &&& final(state).active_fort == old(state).active_fort
                &&& final(state).last_option == if old(state).last_option > 0 {
                    (old(state).last_option - 1) as u32
                } else {
                    0u32
                }
            },
            Some(Command::MoveDown) => {
                &&& r is NoResponse
                &&& final(state).active_unit == old(state).active_unit
                &&& final(state).active_fort == old(state).active_fort
                &&& final(state).last_option == if old(state).last_option < u32::MAX && old(
                    state,
                ).last_option + 1 < owned@.len() {
                    (old(state).last_option + 1) as u32
                } else {
                    old(state).last_option
                }
            },
            _ => r is NoResponse && *final(state) == *old(state),
        },
{
    match cmd {
        None => MenuResult::NoResponse,
        Some(Command::CancelSelection) => MenuResult::Cancel,
        Some(Command::ConfirmSelection) => {
            if (state.last_option as usize) < owned.len() {
                let chosen = owned[state.last_option as usize];
                match selected {
                    SelectionType::Unit => {
                        state.active_unit = Some(chosen);
                    },
                    SelectionType::Fort => {
                        state.active_fort = Some(chosen);
                    },
                }
                MenuResult::Selected
            } else {
                MenuResult::NoResponse
            }
        },
        Some(Command::MoveUp) => {
            if state.last_option > 0 {
                state.last_option = state.last_option - 1;
            }
            MenuResult::NoResponse
        },
        Some(Command::MoveDown) => {
            if state.last_option < u32::MAX && ((state.last_option as u64) + 1) < (owned.len()
                as u64) {
                state.last_option = state.last_option + 1;
            }
            MenuResult::NoResponse
        },
        Some(_) => MenuResult::NoResponse,
    }
}

/// One tick of the unit-list menu: browse the acting player's units; on
/// confirmation the chosen unit is marked moving.
pub fn unit_list(state: &mut State, cmd: Option<Command>) -> (r: MenuResult)
    requires
        old(state).wf(),
    ensures
        final(state).wf(),
        old(state).counts_consistent() ==> final(state).counts_consistent(),
        final(state).map == old(state).map,
        final(state).units == old(state).units,
        final(state).forts == old(state).forts,
        final(state).players == old(state).players,
        final(state).log == old(state).log,
        final(state).runstate == old(state).runstate,
        final(state).turns == old(state).turns,
        final(state).verbose == old(state).verbose,
        final(state).active_player == old(state).active_player,
        final(state).active_fort == old(state).active_fort,
        r is Selected ==> final(state).active_unit == Some(
            spec_unit_menu(*old(state))[old(state).last_option as int] as usize,
        ) && old(state).last_option < spec_unit_menu(*old(state)).len(),
        !(r is Selected) ==> final(state).active_unit == old(state).active_unit,
        match cmd {
            Some(Command::CancelSelection) => r is Cancel && *final(state) == *old(state),
            Some(Command::ConfirmSelection) => {
                if old(state).last_option < spec_unit_menu(*old(state)).len() {
                    r is Selected && final(state).last_option == old(state).last_option
                } else {
                    r is NoResponse && *final(state) == *old(state)
                }
            },
            Some(Command::MoveUp) => {
                &&& r is NoResponse
                &&& final(state).active_unit == old(state).active_unit
                &&& final(state).last_option == if old(state).last_option > 0 {
                    (old(state).last_option - 1) as u32
                } else {
                    0u32
                }
            },
            Some(Command::MoveDown) => {
                &&& r is NoResponse
                &&& final(state).active_unit == old(state).active_unit
                &&& final(state).last_option == if old(state).last_option < u32::MAX && old(
                    state,
                ).last_option + 1 < spec_unit_menu(*old(state)).len() {
                    (old(state).last_option + 1) as u32
                } else {
                    old(state).last_option
                }
            },
            None => r is NoResponse && *final(state) == *old(state),
            _ => r is NoResponse && *final(state) == *old(state),
        },
{
    let owned = owned_units(state);
    selection(state, cmd, &owned, SelectionType::Unit)
}

/// One tick of the fort-list menu: browse the acting player's forts; on
/// confirmation the chosen fort is marked selected.
pub fn fort_list(state: &mut State, cmd: Option<Command>) -> (r: MenuResult)
    requires
        old(state).wf(),
    ensures
        final(state).wf(),
        old(state).counts_consistent() ==> final(state).counts_consistent(),
        final(state).map == old(state).map,
        final(state).units == old(state).units,
        final(state).forts == old(state).forts,
        final(state).players == old(state).players,
        final(state).log == old(state).log,
        final(state).runstate == old(state).runstate,
        final(state).turns == old(state).turns,
        final(state).verbose == old(state).verbose,
        final(state).active_player == old(state).active_player,
        final(state).active_unit == old(state).active_unit,
        r is Selected ==> final(state).active_fort == Some(
            spec_fort_menu(*old(state))[old(state).last_option as int] as usize,
        ) && old(state).last_option < spec_fort_menu(*old(state)).len(),
        !(r is Selected) ==> final(state).active_fort == old(state).active_fort,
        match cmd {
            Some(Command::CancelSelection) => r is Cancel && *final(state) == *old(state),
            Some(Command::ConfirmSelection) => {
                if old(state).last_option < spec_fort_menu(*old(state)).len() {
                    r is Selected && final(state).last_option == old(state).last_option
                } else {
                    r is NoResponse && *final(state) == *old(state)
                }
            },
            Some(Command::MoveUp) => {
                &&& r is NoResponse
                &&& final(state).active_fort == old(state).active_fort
                &&& final(state).last_option == if old(state).last_option > 0 {
                    (old(state).last_option - 1) as u32
                } else {
                    0u32
                }
            },
            Some(Command::MoveDown) => {
                &&& r is NoResponse
                &&& final(state).active_fort == old(state).active_fort
                &&& final(state).last_option == if old(state).last_option < u32::MAX && old(
                    state,
                ).last_option + 1 < spec_fort_menu(*old(state)).len() {
                    (old(state).last_option + 1) as u32
                } else {
                    old(state).last_option
                }
            },
            None => r is NoResponse && *final(state) == *old(state),
            _ => r is NoResponse && *final(state) == *old(state),
        },
{
    let owned = owned_forts(state);
    selection(state, cmd, &owned, SelectionType::Fort)
}

} // verus!
