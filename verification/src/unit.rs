//! Unit control: moving the marked unit, claiming the tile it stands on,
//! building a fort, and interpreting input while a unit is under control.

use vstd::prelude::*;
use vstd::arithmetic::div_mod::lemma_fundamental_div_mod_converse;
use crate::components::{Fort, FortEntity, Name, PlayerEntity, Player, PlayerOrder, Position, Unit,
    UnitEntity, Viewshed, dummy_player, dummy_unit, replace_player, replace_unit};
use crate::counts::{count_units, count_forts, lemma_count_units_update, lemma_count_forts_push};
use crate::error_handling::{handle_move_result, move_result_logged};
use crate::gamelog::{GameLog, MessageType, log_extends};
use crate::map::WorldMap;
use crate::player::{cursor_teleported, teleport_player};
use crate::text;
use crate::{Command, FailedMoveReason, RunState, State, FORT_DEFENSE, FORT_STAMINA_THRESHOLD,
    pos_idx, pos_in_map, same_control};

verus! {

/// Whether the marked unit may move by (dx, dy): it has stamina left and the
/// destination tile is on the map and not blocked.
pub open spec fn unit_move_allowed(s: State, dx: int, dy: int) -> bool {
    &&& s.active_unit is Some
    &&& {
        let u = s.units@[s.active_unit->Some_0 as int];
        &&& u.unit.stamina > 0
        &&& s.map.spec_in_bounds(u.pos.x + dx, u.pos.y + dy)
        &&& !s.map.blocked@[s.map.spec_idx(u.pos.x + dx, u.pos.y + dy)]
    }
}

/// The unit stores of the two states agree except that the marked unit
/// stepped by (dx, dy), spent one stamina and must recompute its viewshed.
pub open spec fn unit_moved(s: State, s2: State, dx: int, dy: int) -> bool {
    let i = s.active_unit->Some_0 as int;
    let u = s.units@[i];
    s2.units@ == s.units@.update(
        i,
        (UnitEntity {
            pos: (Position { x: (u.pos.x + dx) as i32, y: (u.pos.y + dy) as i32 }),
            unit: (Unit { stamina: (u.unit.stamina - 1) as u8, ..u.unit }),
            name: u.name,
            viewshed: (Viewshed { dirty: true, ..u.viewshed }),
        }),
    )
}

/// Attempt to move the marked unit one step, spending one stamina. Fails
/// without any change when no unit is marked, stamina is out, or the
/// destination is blocked or off the map. Never touches the log.
pub fn try_move_unit(delta_x: i32, delta_y: i32, state: &mut State) -> (r: Result<
    (i32, i32),
    FailedMoveReason,
>)
    requires
        old(state).wf(),
        -1 <= delta_x <= 1,
        -1 <= delta_y <= 1,
    ensures
        final(state).wf(),
        final(state).map == old(state).map,
        final(state).forts == old(state).forts,
        final(state).players == old(state).players,
        final(state).log == old(state).log,
        same_control(*old(state), *final(state)),
        forall|o: PlayerOrder| count_units(final(state).units@, o) == count_units(old(state).units@, o),
        old(state).counts_consistent() ==> final(state).counts_consistent(),
        unit_move_allowed(*old(state), delta_x as int, delta_y as int) ==> {
            let u = old(state).units@[old(state).active_unit->Some_0 as int];
            &&& r == Result::<(i32, i32), FailedMoveReason>::Ok(
                ((u.pos.x + delta_x) as i32, (u.pos.y + delta_y) as i32),
            )
            &&& unit_moved(*old(state), *final(state), delta_x as int, delta_y as int)
        },
        !unit_move_allowed(*old(state), delta_x as int, delta_y as int) ==> {
            &&& final(state).units == old(state).units
            &&& r == Result::<(i32, i32), FailedMoveReason>::Err(
                if old(state).active_unit is None {
                    FailedMoveReason::UnableToGrabEntity
                } else if old(state).units@[old(state).active_unit->Some_0 as int].unit.stamina
                    == 0 {
                    FailedMoveReason::UnitOutOfMoves
                } else {
                    FailedMoveReason::TileBlocked
                },
            )
        },
{
    let i = match state.active_unit {
        None => {
            return Result::Err(FailedMoveReason::UnableToGrabEntity);
        },
        Some(i) => i,
    };
    let u = &state.units[i];
    let stamina = u.unit.stamina;
    let nx = u.pos.x + delta_x;
    let ny = u.pos.y + delta_y;
    let dest_free = state.map.in_bounds(nx, ny) && {
        let di = state.map.idx(nx, ny);
        !state.map.blocked[di]
    };
    if dest_free && stamina > 0 {
        let ghost units0 = state.units@;
        let e0 = replace_unit(&mut state.units, i, dummy_unit());
        let e1 = UnitEntity {
            pos: Position { x: nx, y: ny },
            unit: Unit { stamina: stamina - 1, ..e0.unit },
            name: e0.name,
            viewshed: Viewshed { dirty: true, ..e0.viewshed },
        };
        replace_unit(&mut state.units, i, e1);
        proof {
            assert(state.units@ =~= units0.update(i as int, e1));
            assert forall|o: PlayerOrder|
                count_units(state.units@, o) == count_units(units0, o) by {
                lemma_count_units_update(units0, o, i as int, e1);
            }
        }
        Result::Ok((nx, ny))
    } else if stamina == 0 {
        Result::Err(FailedMoveReason::UnitOutOfMoves)
    } else {
        Result::Err(FailedMoveReason::TileBlocked)
    }
}

/// Remove the moving marker, handing back the released unit's position so the
/// cursor can be brought there.
pub fn unmark_moving_unit(state: &mut State) -> (r: Option<Position>)
    requires
        old(state).wf(),
    ensures
        final(state).wf(),
        old(state).counts_consistent() ==> final(state).counts_consistent(),
        final(state).active_unit is None,
        *final(state) == (State { active_unit: None, ..*old(state) }),
        match old(state).active_unit {
            Some(i) => r == Some(old(state).units@[i as int].pos),
            None => r is None,
        },
{
    match state.active_unit {
        None => None,
        Some(i) => {
            let p = state.units[i].pos;
            state.active_unit = None;
            Some(p)
        },
    }
}

/// Whether the marked unit may claim its tile: it has stamina left. (The
/// claim itself additionally needs the tile to be unclaimed; a claim attempt
/// on a claimed tile still spends the stamina point.)
pub open spec fn claim_attempt_allowed(s: State) -> bool {
    &&& s.active_unit is Some
    &&& s.units@[s.active_unit->Some_0 as int].unit.stamina > 0
}

/// The unit stores of the two states agree except that the marked unit spent
/// one stamina point.
pub open spec fn unit_spent_stamina(s: State, s2: State) -> bool {
    let i = s.active_unit->Some_0 as int;
    let u = s.units@[i];
    s2.units@ == s.units@.update(
        i,
        (UnitEntity { unit: (Unit { stamina: (u.unit.stamina - 1) as u8, ..u.unit }), ..u }),
    )
}

/// Claim the tile the marked unit stands on for the unit's owner. A claim
/// attempt spends one stamina point; the ownership tag changes only when the
/// tile was unclaimed, and only then is a position returned. With no marked
/// unit or no stamina, nothing changes.
pub fn claim_tile(state: &mut State) -> (r: Option<(i32, i32)>)
    requires
        old(state).wf(),
    ensures
        final(state).wf(),
        final(state).map.tiles == old(state).map.tiles,
        final(state).map.yields == old(state).map.yields,
        final(state).map.width == old(state).map.width,
        final(state).map.height == old(state).map.height,
        final(state).map.blocked == old(state).map.blocked,
        final(state).map.revealed_tiles == old(state).map.revealed_tiles,
        final(state).map.visible_tiles == old(state).map.visible_tiles,
        final(state).map.tile_content == old(state).map.tile_content,
        final(state).forts == old(state).forts,
        final(state).players == old(state).players,
        final(state).log == old(state).log,
        same_control(*old(state), *final(state)),
        forall|o: PlayerOrder| count_units(final(state).units@, o) == count_units(old(state).units@, o),
        old(state).counts_consistent() ==> final(state).counts_consistent(),
        !claim_attempt_allowed(*old(state)) ==> *final(state) == *old(state) && r is None,
        claim_attempt_allowed(*old(state)) ==> {
            let u = old(state).units@[old(state).active_unit->Some_0 as int];
            let idx = pos_idx(old(state).map, u.pos);
            &&& unit_spent_stamina(*old(state), *final(state))
            &&& if old(state).map.claimed_tiles@[idx] is NoPlayer {
                &&& final(state).map.claimed_tiles@ == old(state).map.claimed_tiles@.update(
                    idx,
                    u.unit.owner,
                )
                &&& r == Some((u.pos.x, u.pos.y))
            } else {
                &&& final(state).map.claimed_tiles == old(state).map.claimed_tiles
                &&& r is None
            }
        },
{
    let i = match state.active_unit {
        None => {
            return None;
        },
        Some(i) => i,
    };
    if state.units[i].unit.stamina == 0 {
        return None;
    }
    let ghost units0 = state.units@;
    let e0 = replace_unit(&mut state.units, i, dummy_unit());
    let pos = e0.pos;
    let owner = e0.unit.owner;
    let stamina = e0.unit.stamina;
    let e1 = UnitEntity { unit: Unit { stamina: stamina - 1, ..e0.unit }, ..e0 };
    replace_unit(&mut state.units, i, e1);
    proof {
        assert(state.units@ =~= units0.update(i as int, e1));
        assert forall|o: PlayerOrder| count_units(state.units@, o) == count_units(units0, o) by {
            lemma_count_units_update(units0, o, i as int, e1);
        }
    }
    let idx = state.map.idx(pos.x, pos.y);
    let unclaimed = matches!(state.map.claimed_tiles[idx], PlayerOrder::NoPlayer);
    if unclaimed {
        state.map.claimed_tiles.set(idx, owner);
        Some((pos.x, pos.y))
    } else {
        None
    }
}

/// Whether a fort stands on tile `idx` according to the occupancy index.
pub open spec fn fort_present(s: State, idx: int) -> bool {
    exists|k: int|
        0 <= k < s.map.tile_content@[idx]@.len() && (#[trigger] s.map.tile_content@[idx]@[k])
            is Fort
}

/// Whether some player record carries the ownership tag `o`.
pub open spec fn has_player_record(s: State, o: PlayerOrder) -> bool {
    exists|p: int| 0 <= p < s.players@.len() && (#[trigger] s.players@[p]).player.order == o
}

/// The index of the player record carrying tag `o`.
pub open spec fn player_record(s: State, o: PlayerOrder) -> int {
    choose|p: int| 0 <= p < s.players@.len() && (#[trigger] s.players@[p]).player.order == o
}

/// Whether the marked unit may build a fort here: enough stamina, the tile
/// claimed by its owner, no fort on the tile (per the occupancy index), and
/// an owner record whose fort count can still grow.
pub open spec fn build_fort_allowed(s: State) -> bool {
    &&& s.active_unit is Some
    &&& {
        let u = s.units@[s.active_unit->Some_0 as int];
        let idx = pos_idx(s.map, u.pos);
        &&& u.unit.stamina > FORT_STAMINA_THRESHOLD
        &&& s.map.claimed_tiles@[idx] == u.unit.owner
        &&& !fort_present(s, idx)
        &&& has_player_record(s, u.unit.owner)
        &&& s.players@[player_record(s, u.unit.owner)].player.fort_count < u16::MAX
    }
}

/// Claim the 3-by-3 neighborhood of (cx, cy), clipped to the map, for
/// `owner`.
pub(crate) fn claim_area(m: &mut WorldMap, cx: i32, cy: i32, owner: PlayerOrder)
    requires
        old(m).well_formed(),
        old(m).spec_in_bounds(cx as int, cy as int),
    ensures
        final(m).well_formed(),
        final(m).tiles == old(m).tiles,
        final(m).yields == old(m).yields,
        final(m).width == old(m).width,
        final(m).height == old(m).height,
        final(m).blocked == old(m).blocked,
        final(m).revealed_tiles == old(m).revealed_tiles,
        final(m).visible_tiles == old(m).visible_tiles,
        final(m).tile_content == old(m).tile_content,
        forall|x: int, y: int|
            final(m).spec_in_bounds(x, y) ==> #[trigger] final(m).claimed_tiles@[final(m).spec_idx(
                x,
                y,
            )] == if cx - 1 <= x <= cx + 1 && cy - 1 <= y <= cy + 1 {
                owner
            } else {
                old(m).claimed_tiles@[final(m).spec_idx(x, y)]
            },
{
    let mut xx: i32 = cx - 1;
    while xx <= cx + 1
        invariant
            m.well_formed(),
            m.spec_in_bounds(cx as int, cy as int),
            cx - 1 <= xx <= cx + 2,
            m.tiles == old(m).tiles,
            m.yields == old(m).yields,
            m.width == old(m).width,
            m.height == old(m).height,
            m.blocked == old(m).blocked,
            m.revealed_tiles == old(m).revealed_tiles,
            m.visible_tiles == old(m).visible_tiles,
            m.tile_content == old(m).tile_content,
            forall|x: int, y: int|
                m.spec_in_bounds(x, y) ==> #[trigger] m.claimed_tiles@[m.spec_idx(x, y)] == if cx
                    - 1 <= x < xx && cy - 1 <= y <= cy + 1 {
                    owner
                } else {
                    old(m).claimed_tiles@[m.spec_idx(x, y)]
                },
        decreases cx + 2 - xx,
    {
        let mut yy: i32 = cy - 1;
        while yy <= cy + 1
            invariant
                m.well_formed(),
                m.spec_in_bounds(cx as int, cy as int),
                cx - 1 <= xx <= cx + 1,
                cy - 1 <= yy <= cy + 2,
                m.tiles == old(m).tiles,
                m.yields == old(m).yields,
                m.width == old(m).width,
                m.height == old(m).height,
                m.blocked == old(m).blocked,
                m.revealed_tiles == old(m).revealed_tiles,
                m.visible_tiles == old(m).visible_tiles,
                m.tile_content == old(m).tile_content,
                forall|x: int, y: int|
                    m.spec_in_bounds(x, y) ==> #[trigger] m.claimed_tiles@[m.spec_idx(x, y)]
                        == if (cx - 1 <= x < xx && cy - 1 <= y <= cy + 1) || (x == xx && cy - 1
                        <= y < yy) {
                        owner
                    } else {
                        old(m).claimed_tiles@[m.spec_idx(x, y)]
                    },
            decreases cy + 2 - yy,
        {
            if m.in_bounds(xx, yy) {
                let idx = m.idx(xx, yy);
                let ghost m0 = *m;
                m.claimed_tiles.set(idx, owner);
                proof {
                    assert forall|x: int, y: int|
                        m.spec_in_bounds(x, y) implies #[trigger] m.claimed_tiles@[m.spec_idx(x, y)]
                        == if (cx - 1 <= x < xx && cy - 1 <= y <= cy + 1) || (x == xx && cy - 1
                        <= y < yy + 1) {
                        owner
                    } else {
                        old(m).claimed_tiles@[m.spec_idx(x, y)]
                    } by {
                        m.lemma_idx_bounds(x, y);
                        if x == xx as int && y == yy as int {
                        } else {
                            if m.spec_idx(x, y) == m.spec_idx(xx as int, yy as int) {
                                lemma_fundamental_div_mod_converse(
                                    m.spec_idx(x, y),
                                    m.width as int,
                                    y,
                                    x,
                                );
                                lemma_fundamental_div_mod_converse(
                                    m.spec_idx(x, y),
                                    m.width as int,
                                    yy as int,
                                    xx as int,
                                );
                            }
                            assert(m.claimed_tiles@[m.spec_idx(x, y)] == m0.claimed_tiles@[m0.spec_idx(
                                x,
                                y,
                            )]);
                        }
                    }
                }
            }
            yy = yy + 1;
        }
        xx = xx + 1;
    }
}

/// What a successful fort build changes: the builder's stamina is consumed,
/// the 3-by-3 neighborhood is claimed, the owner's fort count grows by one
/// and a new fort entity stands on the tile.
pub open spec fn fort_built(s: State, s2: State) -> bool {
    let i = s.active_unit->Some_0 as int;
    let u = s.units@[i];
    let p = player_record(s, u.unit.owner);
    let p0 = s.players@[p];
    let new_count = (p0.player.fort_count + 1) as u16;
    &&& s2.units@ == s.units@.update(
        i,
        (UnitEntity { unit: (Unit { stamina: 0, ..u.unit }), ..u }),
    )
    &&& forall|x: int, y: int|
        s2.map.spec_in_bounds(x, y) ==> #[trigger] s2.map.claimed_tiles@[s2.map.spec_idx(x, y)]
            == if u.pos.x - 1 <= x <= u.pos.x + 1 && u.pos.y - 1 <= y <= u.pos.y + 1 {
            u.unit.owner
        } else {
            s.map.claimed_tiles@[s2.map.spec_idx(x, y)]
        }
    &&& s2.players@ == s.players@.update(
        p,
        (PlayerEntity { player: (Player { fort_count: new_count, ..p0.player }), ..p0 }),
    )
    &&& s2.forts@.len() == s.forts@.len() + 1
    &&& s2.forts@.subrange(0, s.forts@.len() as int) == s.forts@
    &&& s2.forts@.last().pos == u.pos
    &&& s2.forts@.last().fort == (Fort { owner: u.unit.owner, defense: FORT_DEFENSE })
    &&& s2.forts@.last().name.name@ == text::numbered_name("Fort"@, new_count as nat)
}

/// Build a fort where the marked unit stands: checked before any mutation, so
/// a failed attempt changes nothing and costs nothing. On success all
/// remaining stamina is consumed, the tile's 3-by-3 neighborhood is claimed,
/// the owner's fort count grows, and the new fort's position is returned.
pub fn build_fort(state: &mut State) -> (r: Option<(i32, i32)>)
    requires
        old(state).wf(),
        old(state).counts_consistent(),
    ensures
        final(state).wf(),
        final(state).counts_consistent(),
        final(state).map.tiles == old(state).map.tiles,
        final(state).map.yields == old(state).map.yields,
        final(state).map.width == old(state).map.width,
        final(state).map.height == old(state).map.height,
        final(state).map.blocked == old(state).map.blocked,
        final(state).map.revealed_tiles == old(state).map.revealed_tiles,
        final(state).map.visible_tiles == old(state).map.visible_tiles,
        final(state).map.tile_content == old(state).map.tile_content,
        final(state).log == old(state).log,
        same_control(*old(state), *final(state)),
        !build_fort_allowed(*old(state)) ==> *final(state) == *old(state) && r is None,
        build_fort_allowed(*old(state)) ==> {
            let u = old(state).units@[old(state).active_unit->Some_0 as int];
            &&& fort_built(*old(state), *final(state))
            &&& r == Some((u.pos.x, u.pos.y))
        },
{
    let i = match state.active_unit {
        None => {
            return None;
        },
        Some(i) => i,
    };
    let pos = state.units[i].pos;
    let owner = state.units[i].unit.owner;
    if state.units[i].unit.stamina <= FORT_STAMINA_THRESHOLD {
        return None;
    }
    let idx = state.map.idx(pos.x, pos.y);
    let claimed_by_owner = {
        let c = state.map.claimed_tiles[idx];
        c == owner
    };
    if !claimed_by_owner {
        return None;
    }
    // Occupancy lookup: any fort reference on this tile blocks the build.
    let mut fort_here = false;
    let n_refs = state.map.tile_content[idx].len();
    let mut k: usize = 0;
    while k < n_refs
        invariant
            k <= n_refs,
            n_refs == state.map.tile_content@[idx as int]@.len(),
            0 <= idx < state.map.tile_content@.len(),
            fort_here == exists|k2: int|
                0 <= k2 < k && (#[trigger] state.map.tile_content@[idx as int]@[k2]) is Fort,
        decreases n_refs - k,
    {
        if matches!(state.map.tile_content[idx][k], crate::EntityRef::Fort(_)) {
            fort_here = true;
            proof {
                assert((state.map.tile_content@[idx as int]@[k as int]) is Fort);
            }
        }
        k = k + 1;
    }
    if fort_here {
        proof {
            assert(fort_present(*state, idx as int));
        }
        return None;
    }
    // Find the owner's player record.
    let mut p_idx: usize = 0;
    let mut found = false;
    let n_players = state.players.len();
    while p_idx < n_players && !found
        invariant
            p_idx <= n_players,
            n_players == state.players@.len(),
            found ==> p_idx < n_players && (#[trigger] state.players@[p_idx as int]).player.order
                == owner,
            !found ==> forall|q: int|
                0 <= q < p_idx ==> (#[trigger] state.players@[q]).player.order != owner,
        decreases n_players - p_idx, if found { 0int } else { 1int },
    {
        if state.players[p_idx].player.order == owner {
            found = true;
        } else {
            p_idx = p_idx + 1;
        }
    }
    if !found {
        proof {
            assert(!has_player_record(*state, owner));
        }
        return None;
    }
    proof {
        assert(has_player_record(*state, owner));
        assert(player_record(*state, owner) == p_idx as int) by {
            let p2 = player_record(*state, owner);
            assert(state.players@[p2].player.order == owner);
        }
    }
    if state.players[p_idx].player.fort_count == u16::MAX {
        return None;
    }
    // All preconditions hold: now mutate.
    let ghost s0 = *state;
    let ghost units0 = state.units@;
    let e0 = replace_unit(&mut state.units, i, dummy_unit());
    let e1 = UnitEntity { unit: Unit { stamina: 0, ..e0.unit }, ..e0 };
    replace_unit(&mut state.units, i, e1);
    proof {
        assert(state.units@ =~= units0.update(i as int, e1));
        assert forall|o: PlayerOrder| count_units(state.units@, o) == count_units(units0, o) by {
            lemma_count_units_update(units0, o, i as int, e1);
        }
    }
    claim_area(&mut state.map, pos.x, pos.y, owner);
    let ghost players0 = state.players@;
    let pe0 = replace_player(&mut state.players, p_idx, dummy_player());
    let new_count = pe0.player.fort_count + 1;
    let pe1 = PlayerEntity {
        player: Player { fort_count: new_count, ..pe0.player },
        ..pe0
    };
    replace_player(&mut state.players, p_idx, pe1);
    proof {
        assert(state.players@ =~= players0.update(p_idx as int, pe1));
    }
    let ghost forts0 = state.forts@;
    let fort_name = text::fort_name_string(new_count as u32);
    state.forts.push(FortEntity {
        pos,
        fort: Fort { owner, defense: FORT_DEFENSE },
        name: Name { name: fort_name },
    });
    proof {
        assert(state.forts@.subrange(0, forts0.len() as int) =~= forts0);
        assert forall|o: PlayerOrder|
            count_forts(state.forts@, o) == count_forts(forts0, o) + if state.forts@.last().fort.owner
                == o {
                1nat
            } else {
                0nat
            } by {
            lemma_count_forts_push(forts0, o, state.forts@.last());
        }
        assert(fort_built(s0, *state));
    }
    Some((pos.x, pos.y))
}

/// Stamina non-negativity, rejection side: a move or claim attempted with no
/// stamina, or a fort build attempted at or below the stamina threshold, is
/// rejected without mutating any game state — the unit store, the fort
/// store, the player records and the ownership tags all stay as they were.
/// (Stamina itself can never go below zero: it is an unsigned count.)
pub proof fn lemma_stamina_exhaustion_rejected(s: State, s2: State, dx: int, dy: int)
    requires
        s.active_unit is Some,
        (s.units@[s.active_unit->Some_0 as int].unit.stamina == 0 && (unit_step(s, s2, dx, dy)
            || claim_step(s, s2))) || (s.units@[s.active_unit->Some_0 as int].unit.stamina
            <= FORT_STAMINA_THRESHOLD && build_step(s, s2)),
    ensures
        s2.units == s.units,
        s2.forts == s.forts,
        s2.players == s.players,
        s2.map.claimed_tiles == s.map.claimed_tiles,
{
}

/// The failure a unit-move attempt reports when it cannot go ahead.
pub open spec fn unit_move_failure(s: State) -> FailedMoveReason {
    if s.active_unit is None {
        FailedMoveReason::UnableToGrabEntity
    } else if s.units@[s.active_unit->Some_0 as int].unit.stamina == 0 {
        FailedMoveReason::UnitOutOfMoves
    } else {
        FailedMoveReason::TileBlocked
    }
}

/// What one unit-mode move command does to the whole state: the unit moves if
/// it can, and the outcome is surfaced in the log.
pub open spec fn unit_step(s: State, s2: State, dx: int, dy: int) -> bool {
    &&& s2.map == s.map
    &&& s2.forts == s.forts
    &&& s2.players == s.players
    &&& same_control(s, s2)
    &&& if unit_move_allowed(s, dx, dy) {
        let u = s.units@[s.active_unit->Some_0 as int];
        &&& unit_moved(s, s2, dx, dy)
        &&& move_result_logged(
            s.log,
            s2.log,
            Result::Ok(((u.pos.x + dx) as i32, (u.pos.y + dy) as i32)),
            s.verbose,
        )
    } else {
        &&& s2.units == s.units
        &&& move_result_logged(s.log, s2.log, Result::Err(unit_move_failure(s)), s.verbose)
    }
}

/// What one claim command does to the whole state: a stamina point is spent
/// when one is available, the tile's tag changes only when it was unclaimed,
/// and the outcome is surfaced in the log.
pub open spec fn claim_step(s: State, s2: State) -> bool {
    &&& s2.forts == s.forts
    &&& s2.players == s.players
    &&& same_control(s, s2)
    &&& s2.map.tiles == s.map.tiles
    &&& s2.map.yields == s.map.yields
    &&& s2.map.width == s.map.width
    &&& s2.map.height == s.map.height
    &&& s2.map.blocked == s.map.blocked
    &&& s2.map.revealed_tiles == s.map.revealed_tiles
    &&& s2.map.visible_tiles == s.map.visible_tiles
    &&& s2.map.tile_content == s.map.tile_content
    &&& if claim_attempt_allowed(s) {
        let u = s.units@[s.active_unit->Some_0 as int];
        let idx = pos_idx(s.map, u.pos);
        &&& unit_spent_stamina(s, s2)
        &&& if s.map.claimed_tiles@[idx] is NoPlayer {
            &&& s2.map.claimed_tiles@ == s.map.claimed_tiles@.update(idx, u.unit.owner)
            &&& GameLog::appended(
                s.log,
                s2.log,
                text::claimed_text(u.unit.owner, u.pos.x as nat, u.pos.y as nat),
                MessageType::Claim,
            )
        } else {
            &&& s2.map.claimed_tiles == s.map.claimed_tiles
            &&& GameLog::appended(s.log, s2.log, "Unable to claim tile"@, MessageType::Error)
        }
    } else {
        &&& s2.units == s.units
        &&& s2.map.claimed_tiles == s.map.claimed_tiles
        &&& GameLog::appended(s.log, s2.log, "Unable to claim tile"@, MessageType::Error)
    }
}

/// What one build-fort command does to the whole state: all checks precede
/// any mutation, and the outcome is surfaced in the log.
pub open spec fn build_step(s: State, s2: State) -> bool {
    &&& same_control(s, s2)
    &&& s2.map.tiles == s.map.tiles
    &&& s2.map.yields == s.map.yields
    &&& s2.map.width == s.map.width
    &&& s2.map.height == s.map.height
    &&& s2.map.blocked == s.map.blocked
    &&& s2.map.revealed_tiles == s.map.revealed_tiles
    &&& s2.map.visible_tiles == s.map.visible_tiles
    &&& s2.map.tile_content == s.map.tile_content
    &&& if build_fort_allowed(s) {
        let u = s.units@[s.active_unit->Some_0 as int];
        &&& fort_built(s, s2)
        &&& GameLog::appended(
            s.log,
            s2.log,
            text::built_fort_text(u.unit.owner, u.pos.x as nat, u.pos.y as nat),
            MessageType::Build,
        )
    } else {
        &&& s2.units == s.units
        &&& s2.forts == s.forts
        &&& s2.players == s.players
        &&& s2.map.claimed_tiles == s.map.claimed_tiles
        &&& GameLog::appended(s.log, s2.log, "Unable to build fort"@, MessageType::Error)
    }
}

/// What releasing the marked unit does: the marker is cleared and the cursor
/// teleports to the unit's position, so the player keeps their context.
pub open spec fn return_step(s: State, s2: State) -> bool {
    let i = s.active_unit->Some_0 as int;
    &&& s2.active_unit is None
    &&& s2.units == s.units
    &&& s2.forts == s.forts
    &&& s2.map == s.map
    &&& s2.log == s.log
    &&& s2.active_player == s.active_player
    &&& s2.active_fort == s.active_fort
    &&& s2.turns == s.turns
    &&& s2.verbose == s.verbose
    &&& s2.last_option == s.last_option
    &&& if s.players@.len() > 0 {
        cursor_teleported(s, s2, s.units@[i].pos)
    } else {
        s2.players == s.players
    }
}

/// Interpret one command while a unit is under control: directional commands
/// move the unit, claim and build-fort act on its tile, and return-to-cursor
/// releases it. Returns the run state to continue in.
pub fn unit_input(state: &mut State, cmd: Option<Command>) -> (rs: RunState)
    requires
        old(state).wf(),
        old(state).counts_consistent(),
        old(state).active_unit is Some,
    ensures
        final(state).wf(),
        final(state).counts_consistent(),
        crate::same_terrain(*old(state), *final(state)),
        final(state).map.blocked == old(state).map.blocked,
        final(state).map.revealed_tiles == old(state).map.revealed_tiles,
        final(state).map.visible_tiles == old(state).map.visible_tiles,
        final(state).map.tile_content == old(state).map.tile_content,
        log_extends(old(state).log, final(state).log),
        final(state).turns == old(state).turns,
        final(state).active_player == old(state).active_player,
        final(state).active_fort == old(state).active_fort,
        final(state).runstate == old(state).runstate,
        rs is MoveUnit ==> final(state).active_unit == old(state).active_unit,
        rs is MoveCursor ==> final(state).active_unit is None,
        match cmd {
            Some(Command::MoveLeft) => rs is MoveUnit && unit_step(*old(state), *final(state), -1, 0),
            Some(Command::MoveRight) => rs is MoveUnit && unit_step(*old(state), *final(state), 1, 0),
            Some(Command::MoveUp) => rs is MoveUnit && unit_step(*old(state), *final(state), 0, -1),
            Some(Command::MoveDown) => rs is MoveUnit && unit_step(*old(state), *final(state), 0, 1),
            Some(Command::Claim) => rs is MoveUnit && claim_step(*old(state), *final(state)),
            Some(Command::BuildFort) => rs is MoveUnit && build_step(*old(state), *final(state)),
            Some(Command::ReturnToCursor) => rs is MoveCursor && return_step(*old(state), *final(state)),
            _ => rs is MoveUnit && *final(state) == *old(state),
        },
{
    match cmd {
        None => RunState::MoveUnit,
        Some(Command::MoveLeft) => {
            let res = try_move_unit(-1, 0, state);
            handle_move_result(&mut state.log, res, state.verbose);
            RunState::MoveUnit
        },
        Some(Command::MoveRight) => {
            let res = try_move_unit(1, 0, state);
            handle_move_result(&mut state.log, res, state.verbose);
            RunState::MoveUnit
        },
        Some(Command::MoveUp) => {
            let res = try_move_unit(0, -1, state);
            handle_move_result(&mut state.log, res, state.verbose);
            RunState::MoveUnit
        },
        Some(Command::MoveDown) => {
            let res = try_move_unit(0, 1, state);
            handle_move_result(&mut state.log, res, state.verbose);
            RunState::MoveUnit
        },
        Some(Command::Claim) => {
            let i = match state.active_unit {
                Some(i) => i,
                None => {
                    return RunState::MoveUnit;
                },
            };
            let owner = state.units[i].unit.owner;
            let claimed = claim_tile(state);
            match claimed {
                Some((x, y)) => {
                    state.log.push(text::claimed_string(owner, x, y), MessageType::Claim);
                },
                None => {
                    state.log.push(String::from_str("Unable to claim tile"), MessageType::Error);
                },
            }
            RunState::MoveUnit
        },
        Some(Command::BuildFort) => {
            let i = match state.active_unit {
                Some(i) => i,
                None => {
                    return RunState::MoveUnit;
                },
            };
            let owner = state.units[i].unit.owner;
            let built = build_fort(state);
            match built {
                Some((x, y)) => {
                    state.log.push(text::built_fort_string(owner, x, y), MessageType::Build);
                },
                None => {
                    state.log.push(String::from_str("Unable to build fort"), MessageType::Error);
                },
            }
            RunState::MoveUnit
        },
        Some(Command::ReturnToCursor) => {
            match unmark_moving_unit(state) {
                Some(pos) => {
                    teleport_player(pos, state);
                    RunState::MoveCursor
                },
                None => RunState::MoveUnit,
            }
        },
        Some(_) => RunState::MoveUnit,
    }
}

} // verus!
