//! The visibility engine: once per tick, after indexing, it resets the
//! transient visible flags, recomputes the viewshed of every entity whose
//! cache is stale, and merges every viewshed into the map's visible and
//! revealed flags. Revealed is monotonic: once a tile is revealed it stays
//! revealed forever.

use vstd::prelude::*;
use crate::components::{PlayerOrder, UnitEntity, Viewshed, dummy_unit, replace_unit};
use crate::counts::{count_units, lemma_count_units_update};
use crate::fov::{field_of_view, in_fov};
use crate::{State, pos_idx, pos_in_map, same_control};

verus! {

/// The visibility system.
pub struct VisibilitySystem {}

impl VisibilitySystem {
    /// Reset the visible flags, bring every stale viewshed up to date via the
    /// field-of-view computation, and mark every cached tile visible and
    /// revealed. Revealed flags are never cleared.
    pub fn run(state: &mut State)
        requires
            old(state).wf(),
        ensures
            final(state).wf(),
            old(state).counts_consistent() ==> final(state).counts_consistent(),
            final(state).forts == old(state).forts,
            final(state).players == old(state).players,
            final(state).log == old(state).log,
            same_control(*old(state), *final(state)),
            final(state).map.tiles == old(state).map.tiles,
            final(state).map.yields == old(state).map.yields,
            final(state).map.width == old(state).map.width,
            final(state).map.height == old(state).map.height,
            final(state).map.blocked == old(state).map.blocked,
            final(state).map.claimed_tiles == old(state).map.claimed_tiles,
            final(state).map.tile_content == old(state).map.tile_content,
            final(state).units@.len() == old(state).units@.len(),
            // Unit data other than the viewshed cache never changes here.
            forall|u: int|
                0 <= u < final(state).units@.len() ==> {
                    let e = #[trigger] final(state).units@[u];
                    let e0 = old(state).units@[u];
                    e.pos == e0.pos && e.unit == e0.unit && e.name == e0.name && e.viewshed.range
                        == e0.viewshed.range
                },
            // Every viewshed is up to date afterwards.
            forall|u: int|
                0 <= u < final(state).units@.len() ==> !(#[trigger] final(state).units@[u]).viewshed.dirty,
            // A stale cache is recomputed to the exact field of view...
            forall|u: int, p: crate::Position|
                0 <= u < final(state).units@.len() && old(state).units@[u].viewshed.dirty
                    ==> (#[trigger] final(state).units@[u].viewshed.visible_tiles@.contains(p)
                    <==> in_fov(
                    final(state).map,
                    old(state).units@[u].pos.x as int,
                    old(state).units@[u].pos.y as int,
                    old(state).units@[u].viewshed.range as int,
                    p.x as int,
                    p.y as int,
                )),
            // ...and a fresh cache is kept as it is.
            forall|u: int|
                0 <= u < final(state).units@.len() && !old(state).units@[u].viewshed.dirty
                    ==> (#[trigger] final(state).units@[u]).viewshed.visible_tiles == old(
                    state,
                ).units@[u].viewshed.visible_tiles,
            // A tile is visible exactly when some viewshed now holds it.
            forall|i: int|
                0 <= i < final(state).map.area() ==> #[trigger] final(state).map.visible_tiles@[i]
                    == final(state).tile_seen(i),
            // Revealed grows by exactly the visible tiles.
            forall|i: int|
                0 <= i < final(state).map.area() ==> #[trigger] final(state).map.revealed_tiles@[i]
                    == (old(state).map.revealed_tiles@[i] || final(state).map.visible_tiles@[i]),
            // Visibility monotonicity: revealed tiles stay revealed.
            forall|i: int|
                0 <= i < final(state).map.area() && old(state).map.revealed_tiles@[i]
                    ==> #[trigger] final(state).map.revealed_tiles@[i],
    {
        // Reset the transient visible flags.
        let n = state.map.visible_tiles.len();
        let mut i: usize = 0;
        while i < n
            invariant
                state.wf(),
                n == state.map.visible_tiles@.len(),
                i <= n,
                state.units == old(state).units,
                state.forts == old(state).forts,
                state.players == old(state).players,
                state.log == old(state).log,
                same_control(*old(state), *state),
                state.map.tiles == old(state).map.tiles,
                state.map.yields == old(state).map.yields,
                state.map.width == old(state).map.width,
                state.map.height == old(state).map.height,
                state.map.blocked == old(state).map.blocked,
                state.map.claimed_tiles == old(state).map.claimed_tiles,
                state.map.tile_content == old(state).map.tile_content,
                state.map.revealed_tiles == old(state).map.revealed_tiles,
                forall|j: int| 0 <= j < i ==> !(#[trigger] state.map.visible_tiles@[j]),
            decreases n - i,
        {
            state.map.visible_tiles.set(i, false);
            i = i + 1;
        }
        // Recompute stale viewsheds.
        let nu = state.units.len();
        let mut u: usize = 0;
        while u < nu
            invariant
                state.wf(),
                nu == state.units@.len(),
                nu == old(state).units@.len(),
                u <= nu,
                state.forts == old(state).forts,
                state.players == old(state).players,
                state.log == old(state).log,
                same_control(*old(state), *state),
                state.map.tiles == old(state).map.tiles,
                state.map.yields == old(state).map.yields,
                state.map.width == old(state).map.width,
                state.map.height == old(state).map.height,
                state.map.blocked == old(state).map.blocked,
                state.map.claimed_tiles == old(state).map.claimed_tiles,
                state.map.tile_content == old(state).map.tile_content,
                state.map.revealed_tiles == old(state).map.revealed_tiles,
                forall|j: int| 0 <= j < state.map.area() ==> !(#[trigger] state.map.visible_tiles@[j]),
                state.map.visible_tiles@.len() == state.map.area(),
                forall|u2: int| u <= u2 < nu ==> #[trigger] state.units@[u2] == old(state).units@[u2],
                forall|u2: int|
                    0 <= u2 < u ==> {
                        let e = #[trigger] state.units@[u2];
                        let e0 = old(state).units@[u2];
                        e.pos == e0.pos && e.unit == e0.unit && e.name == e0.name
                            && e.viewshed.range == e0.viewshed.range && !e.viewshed.dirty
                    },
                forall|u2: int, p: crate::Position|
                    0 <= u2 < u && old(state).units@[u2].viewshed.dirty
                        ==> (#[trigger] state.units@[u2].viewshed.visible_tiles@.contains(p)
                        <==> in_fov(
                        state.map,
                        old(state).units@[u2].pos.x as int,
                        old(state).units@[u2].pos.y as int,
                        old(state).units@[u2].viewshed.range as int,
                        p.x as int,
                        p.y as int,
                    )),
                forall|u2: int|
                    0 <= u2 < u && !old(state).units@[u2].viewshed.dirty
                        ==> (#[trigger] state.units@[u2]).viewshed.visible_tiles == old(
                        state,
                    ).units@[u2].viewshed.visible_tiles,
                forall|o: PlayerOrder|
                    count_units(state.units@, o) == count_units(old(state).units@, o),
            decreases nu - u,
        {
            if state.units[u].viewshed.dirty {
                let p = state.units[u].pos;
                let rng = state.units[u].viewshed.range;
                let vt = field_of_view(&state.map, p.x, p.y, rng);
                proof {
                    assert forall|k: int| 0 <= k < vt@.len() implies pos_in_map(
                        state.map,
                        #[trigger] vt@[k],
                    ) by {
                        assert(vt@.contains(vt@[k]));
                    }
                }
                let ghost units0 = state.units@;
                let e0 = replace_unit(&mut state.units, u, dummy_unit());
                let e1 = UnitEntity {
                    viewshed: Viewshed { visible_tiles: vt, range: rng, dirty: false },
                    ..e0
                };
                replace_unit(&mut state.units, u, e1);
                proof {
                    assert(state.units@ =~= units0.update(u as int, e1));
                    assert forall|o: PlayerOrder|
                        count_units(state.units@, o) == count_units(units0, o) by {
                        lemma_count_units_update(units0, o, u as int, e1);
                    }
                }
            }
            u = u + 1;
        }
        // Merge every viewshed into the visible and revealed flags.
        let ghost mid = *state;
        let mut u: usize = 0;
        while u < nu
            invariant
                state.wf(),
                nu == state.units@.len(),
                u <= nu,
                state.units == mid.units,
                state.forts == mid.forts,
                state.players == mid.players,
                state.log == mid.log,
                same_control(mid, *state),
                state.map.tiles == mid.map.tiles,
                state.map.yields == mid.map.yields,
                state.map.width == mid.map.width,
                state.map.height == mid.map.height,
                state.map.blocked == mid.map.blocked,
                state.map.claimed_tiles == mid.map.claimed_tiles,
                state.map.tile_content == mid.map.tile_content,
                state.map.visible_tiles@.len() == state.map.area(),
                state.map.revealed_tiles@.len() == state.map.area(),
                forall|j: int|
                    0 <= j < state.map.area() && #[trigger] state.map.visible_tiles@[j]
                        ==> state.tile_seen(j),
                forall|u2: int, k2: int|
                    0 <= u2 < nu && 0 <= k2 < state.units@[u2].viewshed.visible_tiles@.len() && (u2
                        < u) ==> state.map.visible_tiles@[pos_idx(
                        state.map,
                        #[trigger] state.units@[u2].viewshed.visible_tiles@[k2],
                    )],
                forall|j: int|
                    0 <= j < state.map.area() ==> #[trigger] state.map.revealed_tiles@[j] == (
                    mid.map.revealed_tiles@[j] || state.map.visible_tiles@[j]),
            decreases nu - u,
        {
            let nk = state.units[u].viewshed.visible_tiles.len();
            let mut k: usize = 0;
            while k < nk
                invariant
                    state.wf(),
                    nu == state.units@.len(),
                    u < nu,
                    nk == state.units@[u as int].viewshed.visible_tiles@.len(),
                    k <= nk,
                    state.units == mid.units,
                    state.forts == mid.forts,
                    state.players == mid.players,
                    state.log == mid.log,
                    same_control(mid, *state),
                    state.map.tiles == mid.map.tiles,
                    state.map.yields == mid.map.yields,
                    state.map.width == mid.map.width,
                    state.map.height == mid.map.height,
                    state.map.blocked == mid.map.blocked,
                    state.map.claimed_tiles == mid.map.claimed_tiles,
                    state.map.tile_content == mid.map.tile_content,
                    state.map.visible_tiles@.len() == state.map.area(),
                    state.map.revealed_tiles@.len() == state.map.area(),
                    forall|j: int|
                        0 <= j < state.map.area() && #[trigger] state.map.visible_tiles@[j]
                            ==> state.tile_seen(j),
                    forall|u2: int, k2: int|
                        0 <= u2 < nu && 0 <= k2 < state.units@[u2].viewshed.visible_tiles@.len()
                            && (u2 < u || (u2 == u && k2 < k)) ==> state.map.visible_tiles@[pos_idx(
                            state.map,
                            #[trigger] state.units@[u2].viewshed.visible_tiles@[k2],
                        )],
                    forall|j: int|
                        0 <= j < state.map.area() ==> #[trigger] state.map.revealed_tiles@[j] == (
                        mid.map.revealed_tiles@[j] || state.map.visible_tiles@[j]),
                decreases nk - k,
            {
                let p = state.units[u].viewshed.visible_tiles[k];
                let idx = state.map.idx(p.x, p.y);
                let ghost st0 = *state;
                state.map.revealed_tiles.set(idx, true);
                state.map.visible_tiles.set(idx, true);
                proof {
                    assert(pos_idx(state.map, state.units@[u as int].viewshed.visible_tiles@[k as int])
                        == idx as int);
                    assert(state.tile_seen(idx as int));
                    assert forall|u2: int, k2: int|
                        0 <= u2 < nu && 0 <= k2 < state.units@[u2].viewshed.visible_tiles@.len()
                            && (u2 < u as int || (u2 == u as int && k2 < k + 1)) implies state.map.visible_tiles@[pos_idx(
                            state.map,
                            #[trigger] state.units@[u2].viewshed.visible_tiles@[k2],
                        )] by {
                        let pp = state.units@[u2].viewshed.visible_tiles@[k2];
                        assert(pos_in_map(state.map, pp));
                        state.map.lemma_idx_bounds(pp.x as int, pp.y as int);
                        if !(u2 == u as int && k2 == k as int) {
                            assert(st0.map.visible_tiles@[pos_idx(st0.map, pp)]);
                        }
                    }
                }
                k = k + 1;
            }
            u = u + 1;
        }
        proof {
            assert forall|u2: int, p2: crate::Position|
                0 <= u2 < state.units@.len() && old(state).units@[u2].viewshed.dirty implies (
            #[trigger] state.units@[u2].viewshed.visible_tiles@.contains(p2) <==> in_fov(
                state.map,
                old(state).units@[u2].pos.x as int,
                old(state).units@[u2].pos.y as int,
                old(state).units@[u2].viewshed.range as int,
                p2.x as int,
                p2.y as int,
            )) by {
                crate::fov::lemma_fov_depends_on_terrain(
                    mid.map,
                    state.map,
                    old(state).units@[u2].pos.x as int,
                    old(state).units@[u2].pos.y as int,
                    old(state).units@[u2].viewshed.range as int,
                    p2.x as int,
                    p2.y as int,
                );
            }
            assert forall|i2: int|
                0 <= i2 < state.map.area() implies #[trigger] state.map.visible_tiles@[i2]
                == state.tile_seen(i2) by {
                if state.tile_seen(i2) {
                    let (u2, k2) = choose|u2: int, k2: int|
                        0 <= u2 < state.units@.len() && 0 <= k2
                            < state.units@[u2].viewshed.visible_tiles@.len() && pos_idx(
                            state.map,
                            #[trigger] state.units@[u2].viewshed.visible_tiles@[k2],
                        ) == i2;
                    assert(state.map.visible_tiles@[pos_idx(
                        state.map,
                        state.units@[u2].viewshed.visible_tiles@[k2],
                    )]);
                }
            }
        }
    }
}

} // verus!
