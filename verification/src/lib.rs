//! Core of a turn-based, tile-map strategy game: procedural terrain
//! classification, fog of war, spatial indexing, and the command/turn state
//! machine that moves a cursor and units, claims tiles and builds forts and
//! units for two (or more) players.
//!
//! The world lives in a single `State` value owned by the tick loop. Each
//! tick reindexes occupancy, recomputes visibility and then interprets one
//! input command against the current run state.

pub mod camera;
pub mod components;
pub mod counts;
pub mod error_handling;
pub mod fort;
pub mod fov;
pub mod gamelog;
pub mod gui;
pub mod map;
pub mod map_indexing_system;
pub mod player;
pub mod spawner;
pub mod text;
pub mod turns;
pub mod unit;
pub mod visibility_system;

pub use components::{EntityRef, Fort, FortEntity, Name, Player, PlayerEntity, PlayerOrder,
    Position, Unit, UnitEntity, Viewshed};
pub use gamelog::{GameLog, MessageType};
pub use map::{TileType, WorldMap, Yields, xy_idx};

use vstd::prelude::*;

verus! {

/// Stamina a unit starts and is replenished with each turn.
pub const UNIT_STAMINA: u8 = 8;

/// Starting health of a unit.
pub const UNIT_HEALTH: u8 = 20;

/// Starting strength of a unit.
pub const UNIT_STRENGTH: u8 = 8;

/// Defense value of a freshly built fort.
pub const FORT_DEFENSE: u8 = 10;

/// Building a fort needs strictly more stamina than this threshold and then
/// consumes all remaining stamina.
pub const FORT_STAMINA_THRESHOLD: u8 = 5;

/// A player at this many units cannot build more.
pub const UNIT_CAP: u16 = 25;

/// Sight radius of a newly built unit.
pub const DEFAULT_SIGHT_RANGE: i32 = 8;

/// What state the game is running in: what the one consumed input command of
/// the tick is interpreted against.
#[derive(PartialEq, Eq, Structural, Copy, Clone, Debug)]
pub enum RunState {
    MoveCursor,
    MoveUnit,
    ShowUnits,
    SelectedFort,
    ShowForts,
}

/// Why an attempted move failed.
#[derive(PartialEq, Eq, Structural, Copy, Clone, Debug)]
pub enum FailedMoveReason {
    TileBlocked,
    UnableToGrabEntity,
    UnitOutOfMoves,
}

/// The closed vocabulary of input commands, one consumed per tick. The
/// keyboard-to-command mapping lives outside the core.
#[derive(PartialEq, Eq, Structural, Copy, Clone, Debug)]
pub enum Command {
    MoveUp,
    MoveDown,
    MoveLeft,
    MoveRight,
    OpenUnitList,
    OpenFortList,
    Claim,
    BuildFort,
    BuildUnit,
    ReturnToCursor,
    ConfirmSelection,
    CancelSelection,
    Quit,
}

/// Whether `p` lies within the bounds of `m`.
pub open spec fn pos_in_map(m: WorldMap, p: Position) -> bool {
    m.spec_in_bounds(p.x as int, p.y as int)
}

/// The tile index `p` occupies on `m`.
pub open spec fn pos_idx(m: WorldMap, p: Position) -> int {
    m.spec_idx(p.x as int, p.y as int)
}

/// All cached visible tiles of a viewshed lie within the map.
pub open spec fn viewshed_in_map(m: WorldMap, v: Viewshed) -> bool {
    forall|k: int| 0 <= k < v.visible_tiles@.len() ==> pos_in_map(m, #[trigger] v.visible_tiles@[k])
}

/// The whole game world: the map, the three entity stores, the player
/// cursor(s), the run state, the single-slot active-entity markers, and the
/// event log. Exactly one value of this type is owned by the tick loop.
pub struct State {
    pub map: WorldMap,
    pub units: Vec<UnitEntity>,
    pub forts: Vec<FortEntity>,
    pub players: Vec<PlayerEntity>,
    pub active_player: usize,
    pub active_unit: Option<usize>,
    pub active_fort: Option<usize>,
    pub runstate: RunState,
    pub log: GameLog,
    pub turns: u32,
    pub verbose: bool,
    pub last_option: u32,
}

impl State {
    /// Basic well-formedness: the map is well formed, every entity position
    /// lies on the map, viewshed caches stay on the map, the active-player
    /// index and the single-slot markers are valid indices, and the log is
    /// consistent.
    pub open spec fn wf(self) -> bool {
        &&& self.map.well_formed()
        &&& self.log.wf()
        &&& forall|i: int|
            0 <= i < self.units@.len() ==> pos_in_map(self.map, (#[trigger] self.units@[i]).pos)
                && 0 <= self.units@[i].viewshed.range <= 4000 && viewshed_in_map(
                self.map,
                self.units@[i].viewshed,
            )
        &&& forall|i: int|
            0 <= i < self.forts@.len() ==> pos_in_map(self.map, (#[trigger] self.forts@[i]).pos)
        &&& forall|i: int|
            0 <= i < self.players@.len() ==> pos_in_map(self.map, (#[trigger] self.players@[i]).pos)
        &&& self.players@.len() > 0 ==> self.active_player < self.players@.len()
        &&& self.players@.len() == 0 ==> self.active_player == 0
        &&& self.active_unit is Some ==> self.active_unit->Some_0 < self.units@.len()
        &&& self.active_fort is Some ==> self.active_fort->Some_0 < self.forts@.len()
    }

    /// Every player record's counts equal the live counts of its entities,
    /// and no two player records share an ownership tag.
    pub open spec fn counts_consistent(self) -> bool {
        &&& forall|p: int|
            0 <= p < self.players@.len() ==> (#[trigger] self.players@[p]).player.unit_count
                == counts::count_units(self.units@, self.players@[p].player.order)
        &&& forall|p: int|
            0 <= p < self.players@.len() ==> (#[trigger] self.players@[p]).player.fort_count
                == counts::count_forts(self.forts@, self.players@[p].player.order)
        &&& forall|p: int, q: int|
            0 <= p < self.players@.len() && 0 <= q < self.players@.len() && p != q ==> (
            #[trigger] self.players@[p]).player.order != (#[trigger] self.players@[q]).player.order
    }

    /// The run state is linked to the single-slot markers: controlling a unit
    /// or a fort means exactly one is marked active.
    pub open spec fn state_linked(self) -> bool {
        &&& self.runstate is MoveUnit ==> self.active_unit is Some
        &&& self.runstate is SelectedFort ==> self.active_fort is Some
    }

    /// The full invariant the tick loop maintains.
    pub open spec fn inv(self) -> bool {
        self.wf() && self.counts_consistent() && self.state_linked()
    }

    /// Whether a unit stands on tile `idx` (units are the entities that block
    /// their tile).
    pub open spec fn unit_at(self, idx: int) -> bool {
        exists|u: int|
            0 <= u < self.units@.len() && pos_idx(self.map, (#[trigger] self.units@[u]).pos) == idx
    }

    /// Whether entity reference `r` denotes a live entity standing on tile
    /// `idx`.
    pub open spec fn ref_at(self, r: EntityRef, idx: int) -> bool {
        match r {
            EntityRef::Player(i) => 0 <= i < self.players@.len() && pos_idx(
                self.map,
                self.players@[i as int].pos,
            ) == idx,
            EntityRef::Unit(i) => 0 <= i < self.units@.len() && pos_idx(
                self.map,
                self.units@[i as int].pos,
            ) == idx,
            EntityRef::Fort(i) => 0 <= i < self.forts@.len() && pos_idx(
                self.map,
                self.forts@[i as int].pos,
            ) == idx,
        }
    }

    /// Whether some unit's viewshed cache holds the tile with index `i`.
    pub open spec fn tile_seen(self, i: int) -> bool {
        exists|u: int, k: int|
            0 <= u < self.units@.len() && 0 <= k
                < self.units@[u].viewshed.visible_tiles@.len() && pos_idx(
                self.map,
                #[trigger] self.units@[u].viewshed.visible_tiles@[k],
            ) == i
    }

    /// A fresh world around a generated map: no entities yet, cursor mode,
    /// and a welcome line in the log.
    pub fn new(map: WorldMap) -> (s: State)
        requires
            map.well_formed(),
        ensures
            s.wf(),
            s.counts_consistent(),
            s.state_linked(),
            s.inv(),
            s.map == map,
            s.units@.len() == 0,
            s.forts@.len() == 0,
            s.players@.len() == 0,
            s.active_unit is None,
            s.active_fort is None,
            s.runstate is MoveCursor,
            s.turns == 0,
            s.log.entries@.len() == 1,
            s.log.entries@[0]@ == "Welcome to Civlike!"@,
            s.log.message_type@ == seq![MessageType::Other],
    {
        let mut log = GameLog::new();
        log.push(String::from_str("Welcome to Civlike!"), MessageType::Other);
        proof {
            assert(log.message_type@ =~= seq![MessageType::Other]);
        }
        State {
            map,
            units: Vec::new(),
            forts: Vec::new(),
            players: Vec::new(),
            active_player: 0,
            active_unit: None,
            active_fort: None,
            runstate: RunState::MoveCursor,
            log,
            turns: 0,
            verbose: false,
            last_option: 0,
        }
    }
}

/// The control fields (which entity is active, run state, turn counter,
/// options) are unchanged between two states.
pub open spec fn same_control(a: State, b: State) -> bool {
    &&& b.active_player == a.active_player
    &&& b.active_unit == a.active_unit
    &&& b.active_fort == a.active_fort
    &&& b.runstate == a.runstate
    &&& b.turns == a.turns
    &&& b.verbose == a.verbose
    &&& b.last_option == a.last_option
}

/// The immutable part of the map — dimensions, terrain and yields — is
/// unchanged between two states. Nothing after generation ever changes these.
pub open spec fn same_terrain(a: State, b: State) -> bool {
    &&& b.map.width == a.map.width
    &&& b.map.height == a.map.height
    &&& b.map.tiles == a.map.tiles
    &&& b.map.yields == a.map.yields
}

/// Everything one run of the per-tick systems (indexing, then visibility)
/// guarantees, as a relation from the state before (`pre`) to the state after
/// (`post`): entities, ownership, the log and the control fields are
/// untouched; the blocked flags and the occupancy index reflect the entity
/// positions; every viewshed is fresh — a stale cache recomputed to exactly
/// the field of view, a fresh one kept as it was, ranges preserved; and the
/// visible/revealed flags reflect the viewsheds, with revealed only growing.
pub open spec fn systems_post(pre: State, post: State) -> bool {
    &&& post.wf()
    &&& pre.counts_consistent() ==> post.counts_consistent()
    &&& post.forts == pre.forts
    &&& post.players == pre.players
    &&& post.log == pre.log
    &&& same_control(pre, post)
    &&& same_terrain(pre, post)
    &&& post.map.claimed_tiles == pre.map.claimed_tiles
    &&& post.units@.len() == pre.units@.len()
    &&& forall|u: int|
        0 <= u < post.units@.len() ==> {
            let e = #[trigger] post.units@[u];
            let e0 = pre.units@[u];
            e.pos == e0.pos && e.unit == e0.unit && e.name == e0.name && e.viewshed.range
                == e0.viewshed.range && !e.viewshed.dirty
        }
    &&& forall|u: int, p: Position|
        0 <= u < post.units@.len() && pre.units@[u].viewshed.dirty
            ==> (#[trigger] post.units@[u].viewshed.visible_tiles@.contains(p) <==> fov::in_fov(
            post.map,
            pre.units@[u].pos.x as int,
            pre.units@[u].pos.y as int,
            pre.units@[u].viewshed.range as int,
            p.x as int,
            p.y as int,
        ))
    &&& forall|u: int|
        0 <= u < post.units@.len() && !pre.units@[u].viewshed.dirty
            ==> (#[trigger] post.units@[u]).viewshed.visible_tiles
            == pre.units@[u].viewshed.visible_tiles
    &&& forall|i: int|
        0 <= i < post.map.area() ==> #[trigger] post.map.blocked@[i] == (map::terrain_blocks(
            post.map.tiles@[i],
        ) || post.unit_at(i))
    &&& forall|i: int, r: EntityRef|
        0 <= i < post.map.area() ==> (#[trigger] post.map.tile_content@[i]@.contains(r)
            <==> post.ref_at(r, i))
    &&& forall|i: int|
        0 <= i < post.map.area() ==> #[trigger] post.map.visible_tiles@[i] == post.tile_seen(i)
    &&& forall|i: int|
        0 <= i < post.map.area() ==> #[trigger] post.map.revealed_tiles@[i] == (
        pre.map.revealed_tiles@[i] || post.map.visible_tiles@[i])
}

/// What the input phase of one tick does, as a relation from the state the
/// systems left (`mid`) to the state the tick ends in (`post`), given the
/// run state the tick started in (`pre.runstate`) and the consumed command.
/// Each arm names the step relation of the handler of that mode, so the
/// command's effect — the move, the claim, the build, the marking — is pinned
/// down, not merely the legality of the final run state.
pub open spec fn tick_step(pre: State, mid: State, post: State, cmd: Option<Command>) -> bool {
    match pre.runstate {
        RunState::MoveCursor => match cmd {
            Some(Command::MoveLeft) => player::cursor_step(mid, post, -1, 0),
            Some(Command::MoveRight) => player::cursor_step(mid, post, 1, 0),
            Some(Command::MoveUp) => player::cursor_step(mid, post, 0, -1),
            Some(Command::MoveDown) => player::cursor_step(mid, post, 0, 1),
            Some(Command::OpenUnitList) => post == (State {
                runstate: RunState::ShowUnits,
                ..mid
            }),
            Some(Command::OpenFortList) => post == (State {
                runstate: RunState::ShowForts,
                ..mid
            }),
            None => post == mid,
            Some(_) => post == mid,
        },
        RunState::MoveUnit => match cmd {
            Some(Command::MoveLeft) => unit::unit_step(mid, post, -1, 0),
            Some(Command::MoveRight) => unit::unit_step(mid, post, 1, 0),
            Some(Command::MoveUp) => unit::unit_step(mid, post, 0, -1),
            Some(Command::MoveDown) => unit::unit_step(mid, post, 0, 1),
            Some(Command::Claim) => unit::claim_step(mid, post),
            Some(Command::BuildFort) => unit::build_step(mid, post),
            Some(Command::ReturnToCursor) => unit::return_step(mid, post) && post.runstate
                is MoveCursor,
            None => post == mid,
            Some(_) => post == mid,
        },
        RunState::ShowUnits => match cmd {
            Some(Command::CancelSelection) => post == (State {
                runstate: RunState::MoveCursor,
                ..mid
            }),
            Some(Command::ConfirmSelection) => if mid.last_option < gui::spec_unit_menu(
                mid,
            ).len() {
                post == (State {
                    runstate: RunState::MoveUnit,
                    active_unit: Some(gui::spec_unit_menu(mid)[mid.last_option as int] as usize),
                    ..mid
                })
            } else {
                post == mid
            },
            Some(Command::MoveUp) => post == (State {
                last_option: if mid.last_option > 0 {
                    (mid.last_option - 1) as u32
                } else {
                    0u32
                },
                ..mid
            }),
            Some(Command::MoveDown) => post == (State {
                last_option: if mid.last_option < u32::MAX && mid.last_option + 1
                    < gui::spec_unit_menu(mid).len() {
                    (mid.last_option + 1) as u32
                } else {
                    mid.last_option
                },
                ..mid
            }),
            None => post == mid,
            Some(_) => post == mid,
        },
        RunState::SelectedFort => match cmd {
            Some(Command::BuildUnit) => fort::build_unit_step(mid, post) && post.runstate
                is MoveCursor,
            Some(Command::ReturnToCursor) => fort::fort_return_step(mid, post) && post.runstate
                is MoveCursor,
            None => post == mid,
            Some(_) => post == mid,
        },
        RunState::ShowForts => match cmd {
            Some(Command::CancelSelection) => post == (State {
                runstate: RunState::MoveCursor,
                ..mid
            }),
            Some(Command::ConfirmSelection) => if mid.last_option < gui::spec_fort_menu(
                mid,
            ).len() {
                post == (State {
                    runstate: RunState::SelectedFort,
                    active_fort: Some(gui::spec_fort_menu(mid)[mid.last_option as int] as usize),
                    ..mid
                })
            } else {
                post == mid
            },
            Some(Command::MoveUp) => post == (State {
                last_option: if mid.last_option > 0 {
                    (mid.last_option - 1) as u32
                } else {
                    0u32
                },
                ..mid
            }),
            Some(Command::MoveDown) => post == (State {
                last_option: if mid.last_option < u32::MAX && mid.last_option + 1
                    < gui::spec_fort_menu(mid).len() {
                    (mid.last_option + 1) as u32
                } else {
                    mid.last_option
                },
                ..mid
            }),
            None => post == mid,
            Some(_) => post == mid,
        },
    }
}

impl State {
    /// Run the per-tick systems in their load-bearing order: indexing first,
    /// then visibility. `systems_post` says everything this guarantees.
    pub fn run_systems(&mut self)
        requires
            old(self).wf(),
        ensures
            systems_post(*old(self), *final(self)),
            forall|i: int|
                0 <= i < final(self).map.area() && old(self).map.revealed_tiles@[i]
                    ==> #[trigger] final(self).map.revealed_tiles@[i],
    {
        map_indexing_system::MapIndexingSystem::run(self);
        let ghost mid = *self;
        visibility_system::VisibilitySystem::run(self);
        proof {
            assert forall|i: int| 0 <= i < self.map.area() implies #[trigger] self.unit_at(i)
                == mid.unit_at(i) by {
                if self.unit_at(i) {
                    let u = choose|u: int|
                        0 <= u < self.units@.len() && pos_idx(
                            self.map,
                            (#[trigger] self.units@[u]).pos,
                        ) == i;
                    assert(mid.units@[u].pos == self.units@[u].pos);
                    assert(pos_idx(mid.map, mid.units@[u].pos) == i);
                }
                if mid.unit_at(i) {
                    let u = choose|u: int|
                        0 <= u < mid.units@.len() && pos_idx(
                            mid.map,
                            (#[trigger] mid.units@[u]).pos,
                        ) == i;
                    assert(self.units@[u].pos == mid.units@[u].pos);
                    assert(pos_idx(self.map, self.units@[u].pos) == i);
                }
            }
            assert forall|i: int, r: EntityRef| 0 <= i < self.map.area() implies (#[trigger] self.ref_at(
                r,
                i,
            ) == mid.ref_at(r, i)) by {
                match r {
                    EntityRef::Player(q) => {},
                    EntityRef::Unit(q) => {
                        if q < self.units@.len() {
                            assert(self.units@[q as int].pos == mid.units@[q as int].pos);
                        }
                    },
                    EntityRef::Fort(q) => {},
                }
            }
        }
    }

    /// One tick of the command/turn state machine: run the systems, then
    /// interpret the (at most one) input command against the current run
    /// state. The invariant is preserved, the terrain never changes, the log
    /// only grows, and revealed tiles stay revealed.
    pub fn tick(&mut self, cmd: Option<Command>)
        requires
            old(self).inv(),
        ensures
            final(self).inv(),
            same_terrain(*old(self), *final(self)),
            gamelog::log_extends(old(self).log, final(self).log),
            final(self).turns == old(self).turns,
            final(self).verbose == old(self).verbose,
            final(self).active_player == old(self).active_player,
            forall|i: int|
                0 <= i < final(self).map.area() && old(self).map.revealed_tiles@[i]
                    ==> #[trigger] final(self).map.revealed_tiles@[i],
            // The run state moves along the documented transition table.
            match cmd {
                None => final(self).runstate == old(self).runstate,
                Some(c) => {
                    let e = error_handling::spec_expected_states(old(self).runstate, c);
                    final(self).runstate == e.first || Some(final(self).runstate) == e.second
                        || Some(final(self).runstate) == e.third
                },
            },
            // The command takes effect: the systems run first, and then the
            // handler of the mode the tick started in interprets the command.
            exists|mid: State|
                #[trigger] systems_post(*old(self), mid) && tick_step(
                    *old(self),
                    mid,
                    *final(self),
                    cmd,
                ),
    {
        self.run_systems();
        let ghost mid = *self;
        let rs = match self.runstate {
            RunState::MoveCursor => player::player_input(self, cmd),
            RunState::MoveUnit => unit::unit_input(self, cmd),
            RunState::ShowUnits => {
                match gui::unit_list(self, cmd) {
                    gui::MenuResult::Cancel => RunState::MoveCursor,
                    gui::MenuResult::Selected => RunState::MoveUnit,
                    gui::MenuResult::NoResponse => RunState::ShowUnits,
                }
            },
            RunState::SelectedFort => fort::fort_input(self, cmd),
            RunState::ShowForts => {
                match gui::fort_list(self, cmd) {
                    gui::MenuResult::Cancel => RunState::MoveCursor,
                    gui::MenuResult::Selected => RunState::SelectedFort,
                    gui::MenuResult::NoResponse => RunState::ShowForts,
                }
            },
        };
        self.runstate = rs;
        proof {
            assert(systems_post(*old(self), mid));
            assert(tick_step(*old(self), mid, *self, cmd));
        }
    }
}

/// Whether the unit at index `i` carries the moving marker.
pub open spec fn marked_moving(s: State, i: usize) -> bool {
    s.active_unit == Some(i)
}

/// Whether the fort at index `i` carries the selected marker.
pub open spec fn marked_selected(s: State, i: usize) -> bool {
    s.active_fort == Some(i)
}

/// At most one entity carries the moving marker and at most one carries the
/// selected marker, in every state: the markers are single optional slots, so
/// any two marked indices coincide.
pub proof fn lemma_marker_mutual_exclusion(s: State, i: usize, j: usize)
    requires
        marked_moving(s, i) && marked_moving(s, j) || marked_selected(s, i) && marked_selected(
            s,
            j,
        ),
    ensures
        i == j,
{
}

} // verus!
