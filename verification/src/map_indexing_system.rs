//! The spatial indexer: once per tick, before visibility, it rebuilds the
//! blocked flags (terrain blocking plus unit occupancy) and the per-tile
//! occupancy index from the current entity positions. The result is a
//! consistent snapshot; nothing from the previous tick leaks through.

use vstd::prelude::*;
use crate::components::{EntityRef, FortEntity, PlayerEntity, UnitEntity};
use crate::map::{WorldMap, terrain_blocks};
use crate::{State, pos_idx, pos_in_map, same_control};

verus! {

/// The references, ascending, of the players of `players` whose cursor
/// stands on the tile with row-major index `idx` of a map `width` tiles wide.
pub open spec fn player_refs_at(players: Seq<PlayerEntity>, width: int, idx: int) -> Seq<EntityRef>
    decreases players.len(),
{
    if players.len() == 0 {
        Seq::empty()
    } else if players.last().pos.y * width + players.last().pos.x == idx {
        player_refs_at(players.drop_last(), width, idx).push(
            EntityRef::Player((players.len() - 1) as usize),
        )
    } else {
        player_refs_at(players.drop_last(), width, idx)
    }
}

/// The references, ascending, of the units standing on tile `idx`.
pub open spec fn unit_refs_at(units: Seq<UnitEntity>, width: int, idx: int) -> Seq<EntityRef>
    decreases units.len(),
{
    if units.len() == 0 {
        Seq::empty()
    } else if units.last().pos.y * width + units.last().pos.x == idx {
        unit_refs_at(units.drop_last(), width, idx).push(
            EntityRef::Unit((units.len() - 1) as usize),
        )
    } else {
        unit_refs_at(units.drop_last(), width, idx)
    }
}

/// The references, ascending, of the forts standing on tile `idx`.
pub open spec fn fort_refs_at(forts: Seq<FortEntity>, width: int, idx: int) -> Seq<EntityRef>
    decreases forts.len(),
{
    if forts.len() == 0 {
        Seq::empty()
    } else if forts.last().pos.y * width + forts.last().pos.x == idx {
        fort_refs_at(forts.drop_last(), width, idx).push(
            EntityRef::Fort((forts.len() - 1) as usize),
        )
    } else {
        fort_refs_at(forts.drop_last(), width, idx)
    }
}

/// The exact occupancy list the indexer leaves on tile `idx`: the players,
/// then the units, then the forts standing there, each group ascending, no
/// entity twice. This pins the list completely, so reindexing an unchanged
/// world reproduces it exactly.
pub open spec fn occupants_at(s: State, idx: int) -> Seq<EntityRef> {
    player_refs_at(s.players@, s.map.width as int, idx) + unit_refs_at(
        s.units@,
        s.map.width as int,
        idx,
    ) + fort_refs_at(s.forts@, s.map.width as int, idx)
}

/// Membership in a concatenation is membership in either part.
proof fn lemma_concat_contains<T>(a: Seq<T>, b: Seq<T>, x: T)
    ensures
        (a + b).contains(x) <==> a.contains(x) || b.contains(x),
{
    if (a + b).contains(x) {
        let i = choose|i: int| 0 <= i < (a + b).len() && (a + b)[i] == x;
        if i < a.len() {
            assert(a[i] == x);
        } else {
            assert(b[i - a.len()] == x);
        }
    }
    if a.contains(x) {
        let i = choose|i: int| 0 <= i < a.len() && a[i] == x;
        assert((a + b)[i] == x);
    }
    if b.contains(x) {
        let i = choose|i: int| 0 <= i < b.len() && b[i] == x;
        assert((a + b)[a.len() + i] == x);
    }
}

/// The references to the players whose cursor stands on tile `idx`.
fn refs_of_players(players: &Vec<PlayerEntity>, m: &WorldMap, idx: usize) -> (v: Vec<EntityRef>)
    requires
        m.well_formed(),
        forall|i: int| 0 <= i < players@.len() ==> pos_in_map(*m, (#[trigger] players@[i]).pos),
    ensures
        forall|r: EntityRef| #[trigger] v@.contains(r) <==> (r matches EntityRef::Player(q)
            && q < players@.len() && pos_idx(*m, players@[q as int].pos) == idx),
        v@ == player_refs_at(players@, m.width as int, idx as int),
{
    let mut v: Vec<EntityRef> = Vec::new();
    let n = players.len();
    let mut i: usize = 0;
    while i < n
        invariant
            m.well_formed(),
            forall|q: int| 0 <= q < players@.len() ==> pos_in_map(*m, (#[trigger] players@[q]).pos),
            i <= n,
            n == players@.len(),
            forall|k: int| 0 <= k < v@.len() ==> ((#[trigger] v@[k]) matches EntityRef::Player(q)
                && q < i && pos_idx(*m, players@[q as int].pos) == idx),
            forall|q: int|
                0 <= q < i && pos_idx(*m, (#[trigger] players@[q]).pos) == idx ==> v@.contains(
                    EntityRef::Player(q as usize),
                ),
            v@ == player_refs_at(players@.take(i as int), m.width as int, idx as int),
        decreases n - i,
    {
        let ghost v0 = v@;
        proof {
            assert(players@.take(i as int + 1).drop_last() =~= players@.take(i as int));
            assert(players@.take(i as int + 1).last() == players@[i as int]);
        }
        let p = players[i].pos;
        if m.idx(p.x, p.y) == idx {
            v.push(EntityRef::Player(i));
        }
        proof {
            assert forall|q: int|
                0 <= q < i + 1 && pos_idx(*m, (#[trigger] players@[q]).pos) == idx implies v@.contains(
                EntityRef::Player(q as usize),
            ) by {
                if q == i as int {
                    assert(v@.last() == EntityRef::Player(i));
                } else {
                    assert(v0.contains(EntityRef::Player(q as usize)));
                    let w = choose|w: int| 0 <= w < v0.len() && v0[w] == EntityRef::Player(
                        q as usize,
                    );
                    assert(v@[w] == EntityRef::Player(q as usize));
                }
            }
        }
        i = i + 1;
    }
    proof {
        assert(players@.take(n as int) =~= players@);
        assert forall|r: EntityRef| #[trigger] v@.contains(r) implies (r matches EntityRef::Player(
            q,
        ) && q < players@.len() && pos_idx(*m, players@[q as int].pos) == idx) by {
            let k = choose|k: int| 0 <= k < v@.len() && v@[k] == r;
            assert((v@[k]) matches EntityRef::Player(q) && q < i && pos_idx(
                *m,
                players@[q as int].pos,
            ) == idx);
        }
    }
    v
}

/// The references to the units standing on tile `idx`.
fn refs_of_units(units: &Vec<UnitEntity>, m: &WorldMap, idx: usize) -> (v: Vec<EntityRef>)
    requires
        m.well_formed(),
        forall|i: int| 0 <= i < units@.len() ==> pos_in_map(*m, (#[trigger] units@[i]).pos),
    ensures
        forall|r: EntityRef| #[trigger] v@.contains(r) <==> (r matches EntityRef::Unit(q)
            && q < units@.len() && pos_idx(*m, units@[q as int].pos) == idx),
        v@ == unit_refs_at(units@, m.width as int, idx as int),
        forall|k: int| 0 <= k < v@.len() ==> (#[trigger] v@[k]) is Unit,
{
    let mut v: Vec<EntityRef> = Vec::new();
    let n = units.len();
    let mut i: usize = 0;
    while i < n
        invariant
            m.well_formed(),
            forall|q: int| 0 <= q < units@.len() ==> pos_in_map(*m, (#[trigger] units@[q]).pos),
            i <= n,
            n == units@.len(),
            forall|k: int| 0 <= k < v@.len() ==> ((#[trigger] v@[k]) matches EntityRef::Unit(q)
                && q < i && pos_idx(*m, units@[q as int].pos) == idx),
            forall|q: int|
                0 <= q < i && pos_idx(*m, (#[trigger] units@[q]).pos) == idx ==> v@.contains(
                    EntityRef::Unit(q as usize),
                ),
            v@ == unit_refs_at(units@.take(i as int), m.width as int, idx as int),
        decreases n - i,
    {
        let ghost v0 = v@;
        proof {
            assert(units@.take(i as int + 1).drop_last() =~= units@.take(i as int));
            assert(units@.take(i as int + 1).last() == units@[i as int]);
        }
        let p = units[i].pos;
        if m.idx(p.x, p.y) == idx {
            v.push(EntityRef::Unit(i));
        }
        proof {
            assert forall|q: int|
                0 <= q < i + 1 && pos_idx(*m, (#[trigger] units@[q]).pos) == idx implies v@.contains(
                EntityRef::Unit(q as usize),
            ) by {
                if q == i as int {
                    assert(v@.last() == EntityRef::Unit(i));
                } else {
                    assert(v0.contains(EntityRef::Unit(q as usize)));
                    let w = choose|w: int| 0 <= w < v0.len() && v0[w] == EntityRef::Unit(q as usize);
                    assert(v@[w] == EntityRef::Unit(q as usize));
                }
            }
        }
        i = i + 1;
    }
    proof {
        assert(units@.take(n as int) =~= units@);
        assert forall|r: EntityRef| #[trigger] v@.contains(r) implies (r matches EntityRef::Unit(q)
            && q < units@.len() && pos_idx(*m, units@[q as int].pos) == idx) by {
            let k = choose|k: int| 0 <= k < v@.len() && v@[k] == r;
            assert((v@[k]) matches EntityRef::Unit(q) && q < i && pos_idx(
                *m,
                units@[q as int].pos,
            ) == idx);
        }
    }
    v
}

/// The references to the forts standing on tile `idx`.
fn refs_of_forts(forts: &Vec<FortEntity>, m: &WorldMap, idx: usize) -> (v: Vec<EntityRef>)
    requires
        m.well_formed(),
        forall|i: int| 0 <= i < forts@.len() ==> pos_in_map(*m, (#[trigger] forts@[i]).pos),
    ensures
        forall|r: EntityRef| #[trigger] v@.contains(r) <==> (r matches EntityRef::Fort(q)
            && q < forts@.len() && pos_idx(*m, forts@[q as int].pos) == idx),
        v@ == fort_refs_at(forts@, m.width as int, idx as int),
{
    let mut v: Vec<EntityRef> = Vec::new();
    let n = forts.len();
    let mut i: usize = 0;
    while i < n
        invariant
            m.well_formed(),
            forall|q: int| 0 <= q < forts@.len() ==> pos_in_map(*m, (#[trigger] forts@[q]).pos),
            i <= n,
            n == forts@.len(),
            forall|k: int| 0 <= k < v@.len() ==> ((#[trigger] v@[k]) matches EntityRef::Fort(q)
                && q < i && pos_idx(*m, forts@[q as int].pos) == idx),
            forall|q: int|
                0 <= q < i && pos_idx(*m, (#[trigger] forts@[q]).pos) == idx ==> v@.contains(
                    EntityRef::Fort(q as usize),
                ),
            v@ == fort_refs_at(forts@.take(i as int), m.width as int, idx as int),
        decreases n - i,
    {
        let ghost v0 = v@;
        proof {
            assert(forts@.take(i as int + 1).drop_last() =~= forts@.take(i as int));
            assert(forts@.take(i as int + 1).last() == forts@[i as int]);
        }
        let p = forts[i].pos;
        if m.idx(p.x, p.y) == idx {
            v.push(EntityRef::Fort(i));
        }
        proof {
            assert forall|q: int|
                0 <= q < i + 1 && pos_idx(*m, (#[trigger] forts@[q]).pos) == idx implies v@.contains(
                EntityRef::Fort(q as usize),
            ) by {
                if q == i as int {
                    assert(v@.last() == EntityRef::Fort(i));
                } else {
                    assert(v0.contains(EntityRef::Fort(q as usize)));
                    let w = choose|w: int| 0 <= w < v0.len() && v0[w] == EntityRef::Fort(q as usize);
                    assert(v@[w] == EntityRef::Fort(q as usize));
                }
            }
        }
        i = i + 1;
    }
    proof {
        assert(forts@.take(n as int) =~= forts@);
        assert forall|r: EntityRef| #[trigger] v@.contains(r) implies (r matches EntityRef::Fort(q)
            && q < forts@.len() && pos_idx(*m, forts@[q as int].pos) == idx) by {
            let k = choose|k: int| 0 <= k < v@.len() && v@[k] == r;
            assert((v@[k]) matches EntityRef::Fort(q) && q < i && pos_idx(
                *m,
                forts@[q as int].pos,
            ) == idx);
        }
    }
    v
}

/// The spatial indexing system.
pub struct MapIndexingSystem {}

impl MapIndexingSystem {
    /// Rebuild the blocked flags and the occupancy index from the current
    /// entity positions: a tile is blocked exactly when its terrain blocks or
    /// a unit stands on it, and each tile's occupancy list holds exactly the
    /// references of the entities standing there.
    pub fn run(state: &mut State)
        requires
            old(state).wf(),
        ensures
            final(state).wf(),
            old(state).counts_consistent() ==> final(state).counts_consistent(),
            final(state).units == old(state).units,
            final(state).forts == old(state).forts,
            final(state).players == old(state).players,
            final(state).log == old(state).log,
            same_control(*old(state), *final(state)),
            final(state).map.tiles == old(state).map.tiles,
            final(state).map.yields == old(state).map.yields,
            final(state).map.width == old(state).map.width,
            final(state).map.height == old(state).map.height,
            final(state).map.revealed_tiles == old(state).map.revealed_tiles,
            final(state).map.visible_tiles == old(state).map.visible_tiles,
            final(state).map.claimed_tiles == old(state).map.claimed_tiles,
            forall|i: int|
                0 <= i < final(state).map.area() ==> #[trigger] final(state).map.blocked@[i] == (
                terrain_blocks(final(state).map.tiles@[i]) || final(state).unit_at(i)),
            forall|i: int, r: EntityRef|
                0 <= i < final(state).map.area() ==> (#[trigger] final(state).map.tile_content@[i]@.contains(r)
                    <==> final(state).ref_at(r, i)),
            forall|i: int|
                0 <= i < final(state).map.area() ==> #[trigger] final(state).map.tile_content@[i]@
                    == occupants_at(*final(state), i),
    {
        state.map.clear_blocked();
        state.map.populate_blocked();
        let n = state.map.blocked.len();
        let mut content: Vec<Vec<EntityRef>> = Vec::new();
        let mut idx: usize = 0;
        while idx < n
            invariant
                state.wf(),
                n == state.map.blocked@.len(),
                n == state.map.area(),
                idx <= n,
                state.units == old(state).units,
                state.forts == old(state).forts,
                state.players == old(state).players,
                state.log == old(state).log,
                same_control(*old(state), *state),
                state.map.tiles == old(state).map.tiles,
                state.map.yields == old(state).map.yields,
                state.map.width == old(state).map.width,
                state.map.height == old(state).map.height,
                state.map.revealed_tiles == old(state).map.revealed_tiles,
                state.map.visible_tiles == old(state).map.visible_tiles,
                state.map.claimed_tiles == old(state).map.claimed_tiles,
                state.map.tile_content == old(state).map.tile_content,
                content@.len() == idx,
                forall|i: int|
                    0 <= i < idx ==> #[trigger] state.map.blocked@[i] == (terrain_blocks(
                        state.map.tiles@[i],
                    ) || state.unit_at(i)),
                forall|i: int|
                    idx <= i < n ==> #[trigger] state.map.blocked@[i] == terrain_blocks(
                        state.map.tiles@[i],
                    ),
                forall|i: int, r: EntityRef|
                    0 <= i < idx ==> (#[trigger] content@[i]@.contains(r) <==> state.ref_at(r, i)),
                forall|i: int|
                    0 <= i < idx ==> #[trigger] content@[i]@ == occupants_at(*state, i),
            decreases n - idx,
        {
            let pr = refs_of_players(&state.players, &state.map, idx);
            let mut ur = refs_of_units(&state.units, &state.map, idx);
            let mut fr = refs_of_forts(&state.forts, &state.map, idx);
            let has_unit = ur.len() > 0;
            let ghost pr0 = pr@;
            let ghost ur0 = ur@;
            let ghost fr0 = fr@;
            let nu = state.units.len();
            let mut inner = pr;
            inner.append(&mut ur);
            inner.append(&mut fr);
            proof {
                assert(inner@ == pr0 + ur0 + fr0);
                assert(inner@ == occupants_at(*state, idx as int));
                assert forall|r: EntityRef| #[trigger] inner@.contains(r) <==> state.ref_at(
                    r,
                    idx as int,
                ) by {
                    lemma_concat_contains(pr0 + ur0, fr0, r);
                    lemma_concat_contains(pr0, ur0, r);
                }
                if has_unit {
                    assert(ur0.contains(ur0[0]));
                    assert(state.unit_at(idx as int));
                } else {
                    if state.unit_at(idx as int) {
                        let u = choose|u: int|
                            0 <= u < state.units@.len() && pos_idx(
                                state.map,
                                (#[trigger] state.units@[u]).pos,
                            ) == idx as int;
                        assert(ur0.contains(EntityRef::Unit(u as usize)));
                    }
                }
                assert(has_unit == state.unit_at(idx as int));
            }
            if has_unit {
                state.map.blocked.set(idx, true);
            }
            content.push(inner);
            idx = idx + 1;
        }
        state.map.tile_content = content;
    }
}

} // verus!
