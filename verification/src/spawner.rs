//! The entity factory: well-formed initial entities (player cursor, units,
//! forts) with consistent component sets, and the random placement of a
//! side's starting entities.

use vstd::prelude::*;
use crate::components::{Fort, FortEntity, Name, Player, PlayerEntity, PlayerOrder, Position, Unit,
    UnitEntity, Viewshed, dummy_player, replace_player};
use crate::counts::{count_units, count_forts, lemma_count_units_push, lemma_count_forts_push};
use crate::map::{WorldMap, terrain_blocks, tile_blocks};
use crate::text;
use crate::unit::claim_area;
use crate::{State, FORT_DEFENSE, UNIT_HEALTH, UNIT_STAMINA, UNIT_STRENGTH, same_control};

verus! {

/// Relies on rand::Rng::gen_range over the half-open range `low..high`: the
/// sample lies within the range. An empty range would panic and is excluded
/// by the precondition.
#[verifier::external_body]
fn random_in_range(low: i32, high: i32) -> (r: i32)
    requires
        low < high,
    ensures
        low <= r < high,
{
    let mut rng = rand::thread_rng();
    rand::Rng::gen_range(&mut rng, low..high)
}

/// Create the player record (which doubles as the movable cursor) for a side.
fn player(state: &mut State, position: (i32, i32), order: PlayerOrder) -> (id: usize)
    requires
        old(state).wf(),
        old(state).map.spec_in_bounds(position.0 as int, position.1 as int),
    ensures
        final(state).wf(),
        id == old(state).players@.len(),
        final(state).players@.len() == old(state).players@.len() + 1,
        final(state).players@.subrange(0, old(state).players@.len() as int) == old(state).players@,
        final(state).players@.last().pos == (Position { x: position.0, y: position.1 }),
        final(state).players@.last().player == (Player { order, unit_count: 0, fort_count: 0 }),
        final(state).players@.last().name.name@ == "Player1"@,
        final(state).map == old(state).map,
        final(state).units == old(state).units,
        final(state).forts == old(state).forts,
        final(state).log == old(state).log,
        same_control(*old(state), *final(state)),
{
    let id = state.players.len();
    state.players.push(PlayerEntity {
        pos: Position { x: position.0, y: position.1 },
        player: Player { order, unit_count: 0, fort_count: 0 },
        name: Name { name: String::from_str("Player1") },
    });
    proof {
        assert(state.players@.subrange(0, old(state).players@.len() as int) =~= old(state).players@);
    }
    id
}

/// Create a unit at the given position. Counts on the owning player record
/// are not touched; callers keep them consistent.
pub fn unit(state: &mut State, position: (i32, i32), name: String, range: i32, player: PlayerOrder) -> (id: usize)
    requires
        old(state).wf(),
        old(state).map.spec_in_bounds(position.0 as int, position.1 as int),
        0 <= range <= 4000,
    ensures
        final(state).wf(),
        id == old(state).units@.len(),
        final(state).units@.len() == old(state).units@.len() + 1,
        final(state).units@.subrange(0, old(state).units@.len() as int) == old(state).units@,
        final(state).units@.last().pos == (Position { x: position.0, y: position.1 }),
        final(state).units@.last().unit == (Unit {
            owner: player,
            health: UNIT_HEALTH,
            strength: UNIT_STRENGTH,
            stamina: UNIT_STAMINA,
        }),
        final(state).units@.last().name == (Name { name }),
        final(state).units@.last().viewshed.range == range,
        final(state).units@.last().viewshed.dirty,
        final(state).units@.last().viewshed.visible_tiles@.len() == 0,
        final(state).map == old(state).map,
        final(state).forts == old(state).forts,
        final(state).players == old(state).players,
        final(state).log == old(state).log,
        same_control(*old(state), *final(state)),
        forall|o: PlayerOrder|
            count_units(final(state).units@, o) == count_units(old(state).units@, o) + if o
                == player {
                1nat
            } else {
                0nat
            },
{
    let id = state.units.len();
    let ghost units0 = state.units@;
    state.units.push(UnitEntity {
        pos: Position { x: position.0, y: position.1 },
        unit: Unit {
            owner: player,
            health: UNIT_HEALTH,
            strength: UNIT_STRENGTH,
            stamina: UNIT_STAMINA,
        },
        name: Name { name },
        viewshed: Viewshed { visible_tiles: Vec::new(), range, dirty: true },
    });
    proof {
        assert(state.units@.subrange(0, units0.len() as int) =~= units0);
        assert forall|o: PlayerOrder|
            count_units(state.units@, o) == count_units(units0, o) + if o == player {
                1nat
            } else {
                0nat
            } by {
            lemma_count_units_push(units0, o, state.units@.last());
        }
    }
    id
}

/// Create a fort at the given position. Counts on the owning player record
/// are not touched; callers keep them consistent.
pub fn fort(state: &mut State, position: (i32, i32), name: String, owner: PlayerOrder) -> (id: usize)
    requires
        old(state).wf(),
        old(state).map.spec_in_bounds(position.0 as int, position.1 as int),
    ensures
        final(state).wf(),
        id == old(state).forts@.len(),
        final(state).forts@.len() == old(state).forts@.len() + 1,
        final(state).forts@.subrange(0, old(state).forts@.len() as int) == old(state).forts@,
        final(state).forts@.last().pos == (Position { x: position.0, y: position.1 }),
        final(state).forts@.last().fort == (Fort { owner, defense: FORT_DEFENSE }),
        final(state).forts@.last().name == (Name { name }),
        final(state).map == old(state).map,
        final(state).units == old(state).units,
        final(state).players == old(state).players,
        final(state).log == old(state).log,
        same_control(*old(state), *final(state)),
        forall|o: PlayerOrder|
            count_forts(final(state).forts@, o) == count_forts(old(state).forts@, o) + if o
                == owner {
                1nat
            } else {
                0nat
            },
{
    let id = state.forts.len();
    let ghost forts0 = state.forts@;
    state.forts.push(FortEntity {
        pos: Position { x: position.0, y: position.1 },
        fort: Fort { owner, defense: FORT_DEFENSE },
        name: Name { name },
    });
    proof {
        assert(state.forts@.subrange(0, forts0.len() as int) =~= forts0);
        assert forall|o: PlayerOrder|
            count_forts(state.forts@, o) == count_forts(forts0, o) + if o == owner {
                1nat
            } else {
                0nat
            } by {
            lemma_count_forts_push(forts0, o, state.forts@.last());
        }
    }
    id
}

/// Draw random coordinates within the given ranges (clipped to the map) until
/// a passable tile is found. After a bounded number of random draws the
/// clipped box is scanned deterministically, so the function always returns a
/// passable, in-bounds coordinate — which the precondition guarantees exists.
pub fn generate_coordinates(map: &WorldMap, x_range: (i32, i32), y_range: (i32, i32)) -> (pos: (
    i32,
    i32,
))
    requires
        map.well_formed(),
        x_range.0 < x_range.1,
        y_range.0 < y_range.1,
        x_range.0 < map.width,
        x_range.1 > 0,
        y_range.0 < map.height,
        y_range.1 > 0,
        exists|x: int, y: int|
            x_range.0 <= x < x_range.1 && y_range.0 <= y < y_range.1 && #[trigger] map.spec_in_bounds(
                x,
                y,
            ) && !terrain_blocks(map.tiles@[map.spec_idx(x, y)]),
    ensures
        map.spec_in_bounds(pos.0 as int, pos.1 as int),
        !terrain_blocks(map.tiles@[map.spec_idx(pos.0 as int, pos.1 as int)]),
        x_range.0 <= pos.0 < x_range.1,
        y_range.0 <= pos.1 < y_range.1,
{
    let lo_x: i32 = if x_range.0 < 0 {
        0
    } else {
        x_range.0
    };
    let hi_x: i32 = if x_range.1 > map.width {
        map.width
    } else {
        x_range.1
    };
    let lo_y: i32 = if y_range.0 < 0 {
        0
    } else {
        y_range.0
    };
    let hi_y: i32 = if y_range.1 > map.height {
        map.height
    } else {
        y_range.1
    };
    let mut tries: u32 = 0;
    while tries < 64
        invariant
            map.well_formed(),
            0 <= lo_x < hi_x <= map.width,
            0 <= lo_y < hi_y <= map.height,
            x_range.0 <= lo_x,
            hi_x <= x_range.1,
            y_range.0 <= lo_y,
            hi_y <= y_range.1,
        decreases 64 - tries,
    {
        let x = random_in_range(lo_x, hi_x);
        let y = random_in_range(lo_y, hi_y);
        let idx = map.idx(x, y);
        if !tile_blocks(map.tiles[idx]) {
            return (x, y);
        }
        tries = tries + 1;
    }
    // Unlucky draws: fall back to scanning the clipped box.
    let mut x: i32 = lo_x;
    while x < hi_x
        invariant
            map.well_formed(),
            0 <= lo_x < hi_x <= map.width,
            0 <= lo_y < hi_y <= map.height,
            x_range.0 <= lo_x,
            hi_x <= x_range.1,
            y_range.0 <= lo_y,
            hi_y <= y_range.1,
            lo_x <= x <= hi_x,
            forall|x2: int, y2: int|
                lo_x <= x2 < x && lo_y <= y2 < hi_y && #[trigger] map.spec_in_bounds(x2, y2)
                    ==> terrain_blocks(map.tiles@[map.spec_idx(x2, y2)]),
        decreases hi_x - x,
    {
        let mut y: i32 = lo_y;
        while y < hi_y
            invariant
                map.well_formed(),
                0 <= lo_x < hi_x <= map.width,
                0 <= lo_y < hi_y <= map.height,
                x_range.0 <= lo_x,
                hi_x <= x_range.1,
                y_range.0 <= lo_y,
                hi_y <= y_range.1,
                lo_x <= x < hi_x,
                lo_y <= y <= hi_y,
                forall|x2: int, y2: int|
                    lo_x <= x2 < x && lo_y <= y2 < hi_y && #[trigger] map.spec_in_bounds(x2, y2)
                        ==> terrain_blocks(map.tiles@[map.spec_idx(x2, y2)]),
                forall|y2: int|
                    lo_y <= y2 < y && #[trigger] map.spec_in_bounds(x as int, y2) ==> terrain_blocks(
                        map.tiles@[map.spec_idx(x as int, y2)],
                    ),
            decreases hi_y - y,
        {
            let idx = map.idx(x, y);
            if !tile_blocks(map.tiles[idx]) {
                return (x, y);
            }
            y = y + 1;
        }
        x = x + 1;
    }
    proof {
        let (wx, wy) = choose|wx: int, wy: int|
            x_range.0 <= wx < x_range.1 && y_range.0 <= wy < y_range.1 && #[trigger] map.spec_in_bounds(
                wx,
                wy,
            ) && !terrain_blocks(map.tiles@[map.spec_idx(wx, wy)]);
        assert(lo_x <= wx < hi_x && lo_y <= wy < hi_y);
        assert(false);
    }
    (lo_x, lo_y)
}

/// Set up one side: its player cursor at the spawn point, a claimed 3-by-3
/// home area, a first fort on the spawn tile, and three units placed at
/// random passable tiles near the spawn, with the player's counts set to
/// match.
pub fn spawn_player_entities(
    state: &mut State,
    spawn_point: (i32, i32),
    range: i32,
    player_num: PlayerOrder,
)
    requires
        old(state).wf(),
        old(state).counts_consistent(),
        old(state).map.spec_in_bounds(spawn_point.0 as int, spawn_point.1 as int),
        !terrain_blocks(old(state).map.tiles@[old(state).map.spec_idx(
            spawn_point.0 as int,
            spawn_point.1 as int,
        )]),
        0 <= range <= 4000,
        count_units(old(state).units@, player_num) == 0,
        count_forts(old(state).forts@, player_num) == 0,
        forall|p: int|
            0 <= p < old(state).players@.len() ==> (#[trigger] old(state).players@[p]).player.order
                != player_num,
    ensures
        final(state).wf(),
        final(state).counts_consistent(),
        same_control(*old(state), *final(state)),
        final(state).log == old(state).log,
        crate::same_terrain(*old(state), *final(state)),
        final(state).map.blocked == old(state).map.blocked,
        final(state).map.revealed_tiles == old(state).map.revealed_tiles,
        final(state).map.visible_tiles == old(state).map.visible_tiles,
        final(state).map.tile_content == old(state).map.tile_content,
        // The home area is claimed; everything else keeps its tag.
        forall|x: int, y: int|
            final(state).map.spec_in_bounds(x, y)
                ==> #[trigger] final(state).map.claimed_tiles@[final(state).map.spec_idx(x, y)]
                == if spawn_point.0 - 1 <= x <= spawn_point.0 + 1
                && spawn_point.1 - 1 <= y <= spawn_point.1 + 1 {
                player_num
            } else {
                old(state).map.claimed_tiles@[final(state).map.spec_idx(x, y)]
            },
        // One new player record with its counts set.
        final(state).players@.len() == old(state).players@.len() + 1,
        final(state).players@.subrange(0, old(state).players@.len() as int) == old(state).players@,
        final(state).players@.last().pos == (Position { x: spawn_point.0, y: spawn_point.1 }),
        final(state).players@.last().player == (Player {
            order: player_num,
            unit_count: 3,
            fort_count: 1,
        }),
        // One new fort on the spawn tile.
        final(state).forts@.len() == old(state).forts@.len() + 1,
        final(state).forts@.subrange(0, old(state).forts@.len() as int) == old(state).forts@,
        final(state).forts@.last().pos == (Position { x: spawn_point.0, y: spawn_point.1 }),
        final(state).forts@.last().fort == (Fort { owner: player_num, defense: FORT_DEFENSE }),
        final(state).forts@.last().name.name@ == "Fort1"@,
        // Three new units owned by the side, on passable tiles.
        final(state).units@.len() == old(state).units@.len() + 3,
        final(state).units@.subrange(0, old(state).units@.len() as int) == old(state).units@,
        forall|k: int|
            old(state).units@.len() <= k < final(state).units@.len() ==> {
                let e = #[trigger] final(state).units@[k];
                &&& e.unit == (Unit {
                    owner: player_num,
                    health: UNIT_HEALTH,
                    strength: UNIT_STRENGTH,
                    stamina: UNIT_STAMINA,
                })
                &&& e.viewshed.range == range
                &&& e.viewshed.dirty
                &&& final(state).map.spec_in_bounds(e.pos.x as int, e.pos.y as int)
                &&& !terrain_blocks(final(state).map.tiles@[final(state).map.spec_idx(
                    e.pos.x as int,
                    e.pos.y as int,
                )])
                &&& spawn_point.0 - 3 <= e.pos.x < spawn_point.0 + 3
                &&& spawn_point.1 - 3 <= e.pos.y < spawn_point.1 + 3
            },
{
    let p_id = player(state, spawn_point, player_num);
    claim_area(&mut state.map, spawn_point.0, spawn_point.1, player_num);
    fort(state, spawn_point, String::from_str("Fort1"), player_num);
    let x_rng = (spawn_point.0 - 3, spawn_point.0 + 3);
    let y_rng = (spawn_point.1 - 3, spawn_point.1 + 3);
    proof {
        assert(state.map.spec_in_bounds(spawn_point.0 as int, spawn_point.1 as int)
            && !terrain_blocks(state.map.tiles@[state.map.spec_idx(
            spawn_point.0 as int,
            spawn_point.1 as int,
        )]));
    }
    let p1 = generate_coordinates(&state.map, x_rng, y_rng);
    unit(state, p1, text::unit_name_string(1), range, player_num);
    let p2 = generate_coordinates(&state.map, x_rng, y_rng);
    unit(state, p2, text::unit_name_string(2), range, player_num);
    let p3 = generate_coordinates(&state.map, x_rng, y_rng);
    unit(state, p3, text::unit_name_string(3), range, player_num);
    let ghost players1 = state.players@;
    let pe0 = replace_player(&mut state.players, p_id, dummy_player());
    let pe1 = PlayerEntity {
        player: Player { order: player_num, unit_count: 3, fort_count: 1 },
        ..pe0
    };
    replace_player(&mut state.players, p_id, pe1);
    proof {
        assert(state.players@ =~= players1.update(p_id as int, pe1));
        assert(state.players@.subrange(0, old(state).players@.len() as int) =~= old(state).players@);
        assert(state.units@.subrange(0, old(state).units@.len() as int) =~= old(state).units@);
        assert(state.forts@.subrange(0, old(state).forts@.len() as int) =~= old(state).forts@);
        assert forall|p: int| 0 <= p < old(state).players@.len() implies state.players@[p] == old(
            state,
        ).players@[p] by {
            assert(state.players@.subrange(0, old(state).players@.len() as int)[p]
                == state.players@[p]);
        }
    }
}

} // verus!
