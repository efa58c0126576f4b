//! Counting units and forts by owner. Each player record carries live entity
//! counts, maintained incrementally; these functions say what the counts must
//! equal, and the lemmas cover the two ways the entity stores change (an
//! element is replaced without changing owners, or one entity is appended).

use vstd::prelude::*;
use crate::components::{FortEntity, PlayerOrder, UnitEntity};

verus! {

/// How many units in `s` are owned by `o`.
pub open spec fn count_units(s: Seq<UnitEntity>, o: PlayerOrder) -> nat
    decreases s.len(),
{
    if s.len() == 0 {
        0
    } else {
        count_units(s.drop_last(), o) + if s.last().unit.owner == o {
            1nat
        } else {
            0nat
        }
    }
}

/// How many forts in `s` are owned by `o`.
pub open spec fn count_forts(s: Seq<FortEntity>, o: PlayerOrder) -> nat
    decreases s.len(),
{
    if s.len() == 0 {
        0
    } else {
        count_forts(s.drop_last(), o) + if s.last().fort.owner == o {
            1nat
        } else {
            0nat
        }
    }
}

pub proof fn lemma_count_units_push(s: Seq<UnitEntity>, o: PlayerOrder, e: UnitEntity)
    ensures
        count_units(s.push(e), o) == count_units(s, o) + if e.unit.owner == o {
            1nat
        } else {
            0nat
        },
{
    assert(s.push(e).drop_last() =~= s);
}

pub proof fn lemma_count_forts_push(s: Seq<FortEntity>, o: PlayerOrder, e: FortEntity)
    ensures
        count_forts(s.push(e), o) == count_forts(s, o) + if e.fort.owner == o {
            1nat
        } else {
            0nat
        },
{
    assert(s.push(e).drop_last() =~= s);
}

/// Replacing a unit by one with the same owner leaves every count unchanged.
pub proof fn lemma_count_units_update(s: Seq<UnitEntity>, o: PlayerOrder, i: int, e: UnitEntity)
    requires
        0 <= i < s.len(),
        e.unit.owner == s[i].unit.owner,
    ensures
        count_units(s.update(i, e), o) == count_units(s, o),
    decreases s.len(),
{
    if i == s.len() - 1 {
        assert(s.update(i, e).drop_last() =~= s.drop_last());
        assert(s.update(i, e).last() == e);
    } else {
        assert(s.update(i, e).drop_last() =~= s.drop_last().update(i, e));
        lemma_count_units_update(s.drop_last(), o, i, e);
        assert(s.update(i, e).last() == s.last());
    }
}

} // verus!
