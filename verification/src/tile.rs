//! The tile model: the static per-cell data of the world grid.
//!
//! A [`Tile`] is a plain value: a discovery flag together with independent
//! floor and wall descriptions. No combination of the two is forbidden; what
//! is drawn for a tile is decided by the visibility resolver, not here.

use vstd::prelude::*;

verus! {

/// The material a floor or wall element is made of. It is part of a tile's
/// identity but currently affects no logic.
#[derive(Copy, Clone, Debug, PartialEq, Eq, Structural)]
pub enum Material {
    Stone,
    Wood,
}

/// What occupies the floor slot of a tile.
#[derive(Copy, Clone, Debug, PartialEq, Eq, Structural)]
pub enum Floor {
    Open,
    Stair(Material),
    Floor(Material),
}

/// What occupies the wall slot of a tile.
#[derive(Copy, Clone, Debug, PartialEq, Eq, Structural)]
pub enum Wall {
    Open,
    Ramp(Material),
    Stair(Material),
    Wall(Material),
}

/// One cell of the world grid. The `floor` and `wall` fields are independent:
/// both may be populated at once (a floor under an open wall, say).
#[derive(Copy, Clone, Debug, PartialEq, Eq, Structural)]
pub struct Tile {
    /// Whether this cell has ever been revealed to the viewer.
    pub discovered: bool,
    /// The floor slot of the cell.
    pub floor: Floor,
    /// The wall slot of the cell.
    pub wall: Wall,
}

impl Tile {
    /// Undiscovered rock: a stone wall over a stone floor, not yet revealed.
    pub fn new_solid() -> (t: Tile)
        ensures
            t == (Tile {
                discovered: false,
                floor: Floor::Floor(Material::Stone),
                wall: Wall::Wall(Material::Stone),
            }),
    {
        Tile {
            discovered: false,
            floor: Floor::Floor(Material::Stone),
            wall: Wall::Wall(Material::Stone),
        }
    }

    /// A discovered wall segment: a stone wall over a stone floor.
    pub fn new_wall() -> (t: Tile)
        ensures
            t == (Tile {
                discovered: true,
                floor: Floor::Floor(Material::Stone),
                wall: Wall::Wall(Material::Stone),
            }),
    {
        Tile {
            discovered: true,
            floor: Floor::Floor(Material::Stone),
            wall: Wall::Wall(Material::Stone),
        }
    }

    /// Discovered open floor: a stone floor with nothing built on it.
    pub fn new_floor() -> (t: Tile)
        ensures
            t == (Tile {
                discovered: true,
                floor: Floor::Floor(Material::Stone),
                wall: Wall::Open,
            }),
    {
        Tile {
            discovered: true,
            floor: Floor::Floor(Material::Stone),
            wall: Wall::Open,
        }
    }
}

} // verus!
