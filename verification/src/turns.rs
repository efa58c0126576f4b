//! Turn boundaries: every unit's stamina is replenished and the turn counter
//! advances.

use vstd::prelude::*;
use crate::components::{Unit, UnitEntity, dummy_unit, replace_unit};
use crate::counts::{count_units, lemma_count_units_update};
use crate::{State, UNIT_STAMINA};

verus! {

/// Replenish every unit's stamina to the per-turn budget and advance the
/// turn counter.
pub fn next_turn(state: &mut State)
    requires
        old(state).wf(),
        old(state).turns < u32::MAX,
    ensures
        final(state).wf(),
        final(state).turns == old(state).turns + 1,
        final(state).map == old(state).map,
        final(state).forts == old(state).forts,
        final(state).players == old(state).players,
        final(state).log == old(state).log,
        final(state).runstate == old(state).runstate,
        final(state).active_player == old(state).active_player,
        final(state).active_unit == old(state).active_unit,
        final(state).active_fort == old(state).active_fort,
        final(state).verbose == old(state).verbose,
        final(state).last_option == old(state).last_option,
        final(state).units@.len() == old(state).units@.len(),
        forall|i: int|
            0 <= i < final(state).units@.len() ==> {
                let e = #[trigger] final(state).units@[i];
                let e0 = old(state).units@[i];
                e.pos == e0.pos && e.name == e0.name && e.viewshed == e0.viewshed && e.unit == (Unit {
                    stamina: UNIT_STAMINA,
                    ..e0.unit
                })
            },
        forall|o: crate::PlayerOrder|
            count_units(final(state).units@, o) == count_units(old(state).units@, o),
        old(state).counts_consistent() ==> final(state).counts_consistent(),
{
    let n = state.units.len();
    let mut i: usize = 0;
    while i < n
        invariant
            n == state.units@.len(),
            i <= n,
            state.wf(),
            state.map == old(state).map,
            state.forts == old(state).forts,
            state.players == old(state).players,
            state.log == old(state).log,
            state.runstate == old(state).runstate,
            state.active_player == old(state).active_player,
            state.active_unit == old(state).active_unit,
            state.active_fort == old(state).active_fort,
            state.turns == old(state).turns,
            state.verbose == old(state).verbose,
            state.last_option == old(state).last_option,
            forall|k: int|
                0 <= k < i ==> {
                    let e = #[trigger] state.units@[k];
                    let e0 = old(state).units@[k];
                    e.pos == e0.pos && e.name == e0.name && e.viewshed == e0.viewshed && e.unit
                        == (Unit { stamina: UNIT_STAMINA, ..e0.unit })
                },
            forall|k: int| i <= k < n ==> #[trigger] state.units@[k] == old(state).units@[k],
            forall|o: crate::PlayerOrder|
                count_units(state.units@, o) == count_units(old(state).units@, o),
        decreases n - i,
    {
        let ghost before = state.units@;
        let e0 = replace_unit(&mut state.units, i, dummy_unit());
        let e1 = UnitEntity {
            unit: Unit { stamina: UNIT_STAMINA, ..e0.unit },
            ..e0
        };
        replace_unit(&mut state.units, i, e1);
        proof {
            assert(state.units@ =~= before.update(i as int, e1));
            assert forall|o: crate::PlayerOrder|
                count_units(state.units@, o) == count_units(before, o) by {
                lemma_count_units_update(before, o, i as int, e1);
            }
        }
        i = i + 1;
    }
    state.turns = state.turns + 1;
}

} // verus!
