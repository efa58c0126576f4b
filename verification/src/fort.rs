//! Fort control: building new units at a selected fort and interpreting
//! input while a fort is selected.

use vstd::prelude::*;
use crate::components::{Name, Player, PlayerEntity, PlayerOrder, Position, Unit, UnitEntity,
    Viewshed, dummy_player, replace_player};
use crate::counts::{count_units, lemma_count_units_push};
use crate::gamelog::{GameLog, MessageType, log_extends};
use crate::player::{cursor_teleported, teleport_player};
use crate::text;
use crate::{Command, RunState, State, DEFAULT_SIGHT_RANGE, UNIT_CAP, UNIT_HEALTH, UNIT_STAMINA,
    UNIT_STRENGTH, pos_idx, same_control};

verus! {

/// Whether the selected fort may produce a unit: the acting player exists,
/// stands below the unit cap, owns the fort, and the fort's tile is not
/// blocked (in particular, no unit already stands there).
pub open spec fn build_unit_allowed(s: State) -> bool {
    &&& s.active_fort is Some
    &&& s.players@.len() > 0
    &&& {
        let f = s.forts@[s.active_fort->Some_0 as int];
        let p = s.players@[s.active_player as int];
        &&& p.player.unit_count < UNIT_CAP
        &&& !s.map.blocked@[pos_idx(s.map, f.pos)]
        &&& f.fort.owner == p.player.order
    }
}

/// What a successful unit build changes: the acting player's unit count grows
/// by one and a fresh unit stands on the fort's tile.
pub open spec fn unit_built(s: State, s2: State) -> bool {
    let f = s.forts@[s.active_fort->Some_0 as int];
    let p0 = s.players@[s.active_player as int];
    let new_count = (p0.player.unit_count + 1) as u16;
    &&& s2.players@ == s.players@.update(
        s.active_player as int,
        (PlayerEntity { player: (Player { unit_count: new_count, ..p0.player }), ..p0 }),
    )
    &&& s2.units@.len() == s.units@.len() + 1
    &&& s2.units@.subrange(0, s.units@.len() as int) == s.units@
    &&& s2.units@.last().pos == f.pos
    &&& s2.units@.last().unit == (Unit {
        owner: p0.player.order,
        health: UNIT_HEALTH,
        strength: UNIT_STRENGTH,
        stamina: UNIT_STAMINA,
    })
    &&& s2.units@.last().name.name@ == text::numbered_name("Unit"@, new_count as nat)
    &&& s2.units@.last().viewshed.range == DEFAULT_SIGHT_RANGE
    &&& s2.units@.last().viewshed.dirty
    &&& s2.units@.last().viewshed.visible_tiles@.len() == 0
}

/// Build a unit at the selected fort: checked before any mutation, so a
/// failed attempt changes nothing. On success the acting player's unit count
/// grows and the new unit's position (the fort's tile) is returned.
pub fn build_unit(state: &mut State) -> (r: Option<(i32, i32)>)
    requires
        old(state).wf(),
        old(state).counts_consistent(),
    ensures
        final(state).wf(),
        final(state).counts_consistent(),
        final(state).map == old(state).map,
        final(state).forts == old(state).forts,
        final(state).log == old(state).log,
        same_control(*old(state), *final(state)),
        !build_unit_allowed(*old(state)) ==> *final(state) == *old(state) && r is None,
        build_unit_allowed(*old(state)) ==> {
            let f = old(state).forts@[old(state).active_fort->Some_0 as int];
            &&& unit_built(*old(state), *final(state))
            &&& r == Some((f.pos.x, f.pos.y))
        },
{
    let j = match state.active_fort {
        None => {
            return None;
        },
        Some(j) => j,
    };
    if state.players.len() == 0 {
        return None;
    }
    let a = state.active_player;
    if state.players[a].player.unit_count >= UNIT_CAP {
        return None;
    }
    let fpos = state.forts[j].pos;
    let fowner = state.forts[j].fort.owner;
    let idx = state.map.idx(fpos.x, fpos.y);
    if state.map.blocked[idx] {
        return None;
    }
    if !(fowner == state.players[a].player.order) {
        return None;
    }
    let ghost s0 = *state;
    let ghost players0 = state.players@;
    let pe0 = replace_player(&mut state.players, a, dummy_player());
    let new_count = pe0.player.unit_count + 1;
    let order = pe0.player.order;
    let pe1 = PlayerEntity { player: Player { unit_count: new_count, ..pe0.player }, ..pe0 };
    replace_player(&mut state.players, a, pe1);
    proof {
        assert(state.players@ =~= players0.update(a as int, pe1));
    }
    let ghost units0 = state.units@;
    let unit_name = text::unit_name_string(new_count as u32);
    state.units.push(UnitEntity {
        pos: fpos,
        unit: Unit {
            owner: order,
            health: UNIT_HEALTH,
            strength: UNIT_STRENGTH,
            stamina: UNIT_STAMINA,
        },
        name: Name { name: unit_name },
        viewshed: Viewshed { visible_tiles: Vec::new(), range: DEFAULT_SIGHT_RANGE, dirty: true },
    });
    proof {
        assert(state.units@.subrange(0, units0.len() as int) =~= units0);
        assert forall|o: PlayerOrder|
            count_units(state.units@, o) == count_units(units0, o) + if state.units@.last().unit.owner
                == o {
                1nat
            } else {
                0nat
            } by {
            lemma_count_units_push(units0, o, state.units@.last());
        }
        assert(unit_built(s0, *state));
    }
    Some((fpos.x, fpos.y))
}

/// Remove the selected marker, handing back the released fort's position so
/// the cursor can be brought there.
pub fn unmark_selected_fort(state: &mut State) -> (r: Option<Position>)
    requires
        old(state).wf(),
    ensures
        final(state).wf(),
        old(state).counts_consistent() ==> final(state).counts_consistent(),
        final(state).active_fort is None,
        *final(state) == (State { active_fort: None, ..*old(state) }),
        match old(state).active_fort {
            Some(j) => r == Some(old(state).forts@[j as int].pos),
            None => r is None,
        },
{
    match state.active_fort {
        None => None,
        Some(j) => {
            let p = state.forts[j].pos;
            state.active_fort = None;
            Some(p)
        },
    }
}

/// What the build-unit command does to the whole state: the build is
/// attempted and logged, then the fort is released and the cursor teleports
/// to it.
pub open spec fn build_unit_step(s: State, s2: State) -> bool {
    let f = s.forts@[s.active_fort->Some_0 as int];
    let p0 = s.players@[s.active_player as int];
    &&& s2.active_fort is None
    &&& s2.forts == s.forts
    &&& s2.map == s.map
    &&& s2.active_player == s.active_player
    &&& s2.active_unit == s.active_unit
    &&& s2.turns == s.turns
    &&& s2.verbose == s.verbose
    &&& s2.last_option == s.last_option
    &&& if build_unit_allowed(s) {
        let new_count = (p0.player.unit_count + 1) as u16;
        &&& s2.units@.len() == s.units@.len() + 1
        &&& s2.units@.subrange(0, s.units@.len() as int) == s.units@
        &&& s2.units@.last().pos == f.pos
        &&& s2.units@.last().unit == (Unit {
            owner: p0.player.order,
            health: UNIT_HEALTH,
            strength: UNIT_STRENGTH,
            stamina: UNIT_STAMINA,
        })
        &&& s2.units@.last().name.name@ == text::numbered_name("Unit"@, new_count as nat)
        &&& s2.units@.last().viewshed.range == DEFAULT_SIGHT_RANGE
        &&& s2.units@.last().viewshed.dirty
        &&& s2.units@.last().viewshed.visible_tiles@.len() == 0
        &&& s2.players@ == s.players@.update(
            s.active_player as int,
            (PlayerEntity {
                pos: f.pos,
                player: (Player { unit_count: new_count, ..p0.player }),
                name: p0.name,
            }),
        )
        &&& GameLog::appended(
            s.log,
            s2.log,
            text::built_unit_text(p0.player.order, f.pos.x as nat, f.pos.y as nat),
            MessageType::Build,
        )
    } else {
        &&& s2.units == s.units
        &&& if s.players@.len() > 0 {
            s2.players@ == s.players@.update(
                s.active_player as int,
                (PlayerEntity { pos: f.pos, player: p0.player, name: p0.name }),
            )
        } else {
            s2.players == s.players
        }
        &&& GameLog::appended(s.log, s2.log, "Unable to build a unit"@, MessageType::Error)
    }
}

/// What releasing the selected fort does: the marker is cleared and the
/// cursor teleports to the fort.
pub open spec fn fort_return_step(s: State, s2: State) -> bool {
    let j = s.active_fort->Some_0 as int;
    &&& s2.active_fort is None
    &&& s2.units == s.units
    &&& s2.forts == s.forts
    &&& s2.map == s.map
    &&& s2.log == s.log
    &&& s2.active_player == s.active_player
    &&& s2.active_unit == s.active_unit
    &&& s2.turns == s.turns
    &&& s2.verbose == s.verbose
    &&& s2.last_option == s.last_option
    &&& if s.players@.len() > 0 {
        cursor_teleported(s, s2, s.forts@[j].pos)
    } else {
        s2.players == s.players
    }
}

/// Interpret one command while a fort is selected: build-unit attempts a
/// build and returns control to the cursor; return-to-cursor releases the
/// fort. Returns the run state to continue in.
pub fn fort_input(state: &mut State, cmd: Option<Command>) -> (rs: RunState)
    requires
        old(state).wf(),
        old(state).counts_consistent(),
        old(state).active_fort is Some,
    ensures
        final(state).wf(),
        final(state).counts_consistent(),
        crate::same_terrain(*old(state), *final(state)),
        final(state).map == old(state).map,
        final(state).forts == old(state).forts,
        log_extends(old(state).log, final(state).log),
        final(state).turns == old(state).turns,
        final(state).active_player == old(state).active_player,
        final(state).active_unit == old(state).active_unit,
        final(state).runstate == old(state).runstate,
        rs is SelectedFort ==> final(state).active_fort == old(state).active_fort,
        rs is MoveCursor ==> final(state).active_fort is None,
        match cmd {
            Some(Command::BuildUnit) => rs is MoveCursor && build_unit_step(*old(state), *final(state)),
            Some(Command::ReturnToCursor) => rs is MoveCursor && fort_return_step(*old(state), *final(state)),
            None => rs is SelectedFort && *final(state) == *old(state),
            _ => rs is SelectedFort && *final(state) == *old(state),
        },
{
    match cmd {
        None => RunState::SelectedFort,
        Some(Command::BuildUnit) => {
            let order = if state.players.len() > 0 {
                state.players[state.active_player].player.order
            } else {
                PlayerOrder::NoPlayer
            };
            let ghost s0 = *state;
            let built = build_unit(state);
            match built {
                Some((x, y)) => {
                    state.log.push(text::built_unit_string(order, x, y), MessageType::Build);
                },
                None => {
                    state.log.push(String::from_str("Unable to build a unit"), MessageType::Error);
                },
            }
            let ghost s1 = *state;
            match unmark_selected_fort(state) {
                Some(pos) => {
                    teleport_player(pos, state);
                },
                None => {},
            }
            proof {
                if build_unit_allowed(s0) {
                    let a = s0.active_player as int;
                    assert(state.players@ =~= s0.players@.update(
                        a,
                        (PlayerEntity {
                            pos: s0.forts@[s0.active_fort->Some_0 as int].pos,
                            player: (Player {
                                unit_count: (s0.players@[a].player.unit_count + 1) as u16,
                                ..s0.players@[a].player
                            }),
                            name: s0.players@[a].name,
                        }),
                    ));
                } else {
                    if s0.players@.len() > 0 {
                        assert(state.players@ =~= s0.players@.update(
                            s0.active_player as int,
                            (PlayerEntity {
                                pos: s0.forts@[s0.active_fort->Some_0 as int].pos,
                                player: s0.players@[s0.active_player as int].player,
                                name: s0.players@[s0.active_player as int].name,
                            }),
                        ));
                    }
                }
            }
            RunState::MoveCursor
        },
        Some(Command::ReturnToCursor) => {
            match unmark_selected_fort(state) {
                Some(pos) => {
                    teleport_player(pos, state);
                    RunState::MoveCursor
                },
                None => RunState::SelectedFort,
            }
        },
        Some(_) => RunState::SelectedFort,
    }
}

} // verus!
