//! The data attached to the entities of the game world: positions, unit and
//! fort records, player records, viewsheds and display names.
//!
//! Rather than an open component registry, the game has three fixed entity
//! kinds (`UnitEntity`, `FortEntity`, `PlayerEntity`), each a plain struct of
//! plain fields, held in vectors of the game `State`.

use vstd::prelude::*;

verus! {

/// Ownership tag: which side, if any, owns a tile, unit or fort.
#[derive(PartialEq, Eq, Structural, Copy, Clone, Debug)]
pub enum PlayerOrder {
    NoPlayer,
    PlayerOne,
    PlayerTwo,
}

/// An x/y position on the world grid.
#[derive(PartialEq, Eq, Structural, Copy, Clone, Debug)]
pub struct Position {
    pub x: i32,
    pub y: i32,
}

/// The tiles currently visible to an entity, how far it can see, and whether
/// its cache must be recomputed this tick.
#[derive(Clone, Debug)]
pub struct Viewshed {
    pub visible_tiles: Vec<Position>,
    pub range: i32,
    pub dirty: bool,
}

/// Health, strength and the per-turn action budget of a unit, and its owner.
#[derive(PartialEq, Eq, Structural, Copy, Clone, Debug)]
pub struct Unit {
    pub owner: PlayerOrder,
    pub health: u8,
    pub strength: u8,
    pub stamina: u8,
}

/// Defense value of a fort and its owner.
#[derive(PartialEq, Eq, Structural, Copy, Clone, Debug)]
pub struct Fort {
    pub owner: PlayerOrder,
    pub defense: u8,
}

/// One side of the game: its ownership tag and its live entity counts.
#[derive(PartialEq, Eq, Structural, Copy, Clone, Debug)]
pub struct Player {
    pub order: PlayerOrder,
    pub unit_count: u16,
    pub fort_count: u16,
}

/// A display label.
#[derive(PartialEq, Clone, Debug)]
pub struct Name {
    pub name: String,
}

/// A reference to an entity: which store it lives in, and its index there.
#[derive(PartialEq, Eq, Structural, Copy, Clone, Debug)]
pub enum EntityRef {
    Player(usize),
    Unit(usize),
    Fort(usize),
}

/// A unit together with all its attached data. Units block their tile.
#[derive(Clone, Debug)]
pub struct UnitEntity {
    pub pos: Position,
    pub unit: Unit,
    pub name: Name,
    pub viewshed: Viewshed,
}

/// A fort together with all its attached data. Forts do not block their tile.
#[derive(Clone, Debug)]
pub struct FortEntity {
    pub pos: Position,
    pub fort: Fort,
    pub name: Name,
}

/// A player record together with the position of that player's cursor.
#[derive(Clone, Debug)]
pub struct PlayerEntity {
    pub pos: Position,
    pub player: Player,
    pub name: Name,
}

/// A placeholder unit, used to take a unit out of the store for editing.
pub fn dummy_unit() -> (e: UnitEntity)
{
    UnitEntity {
        pos: Position { x: 0, y: 0 },
        unit: Unit { owner: PlayerOrder::NoPlayer, health: 0, strength: 0, stamina: 0 },
        name: Name { name: String::new() },
        viewshed: Viewshed { visible_tiles: Vec::new(), range: 0, dirty: false },
    }
}

/// A placeholder player record, used to take one out of the store for editing.
pub fn dummy_player() -> (e: PlayerEntity)
{
    PlayerEntity {
        pos: Position { x: 0, y: 0 },
        player: Player { order: PlayerOrder::NoPlayer, unit_count: 0, fort_count: 0 },
        name: Name { name: String::new() },
    }
}

/// Swap the unit at index `i` for `e`, handing the previous record back.
pub fn replace_unit(units: &mut Vec<UnitEntity>, i: usize, e: UnitEntity) -> (prev: UnitEntity)
    requires
        i < old(units)@.len(),
    ensures
        final(units)@ == old(units)@.update(i as int, e),
        prev == old(units)@[i as int],
{
    let mut tmp = e;
    vstd::pervasive::VecAdditionalExecFns::set_and_swap(units, i, &mut tmp);
    tmp
}

/// Swap the player record at index `i` for `e`, handing the previous one back.
pub fn replace_player(players: &mut Vec<PlayerEntity>, i: usize, e: PlayerEntity) -> (prev:
    PlayerEntity)
    requires
        i < old(players)@.len(),
    ensures
        final(players)@ == old(players)@.update(i as int, e),
        prev == old(players)@[i as int],
{
    let mut tmp = e;
    vstd::pervasive::VecAdditionalExecFns::set_and_swap(players, i, &mut tmp);
    tmp
}

} // verus!
