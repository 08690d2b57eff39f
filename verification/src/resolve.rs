//! The visibility resolver: a pure mapping from a tile to the display
//! category that decides what is drawn for it.
//!
//! The precedence is fixed: an undiscovered tile is hidden whatever it holds;
//! a discovered tile with any wall element is an obstacle, the wall fully
//! occluding whatever floor lies beneath it; a discovered tile with an open
//! wall shows its floor if one is present; otherwise nothing is drawn.

use crate::tile::{Floor, Tile, Wall};
use vstd::prelude::*;

verus! {

/// The resolved visual class of a tile, used to pick a render color.
#[derive(Copy, Clone, Debug, PartialEq, Eq, Structural)]
pub enum DisplayCategory {
    /// Not yet revealed: drawn as darkness.
    Hidden,
    /// A wall-like element blocks the cell.
    Obstacle,
    /// Walkable floor.
    Passable,
    /// Nothing to draw; the cell is void.
    Background,
}

/// The display category of a tile, by the fixed precedence order:
/// undiscovered beats everything, then any wall element, then any floor
/// element, and an open wall over an open floor is background.
pub open spec fn category_of(t: Tile) -> DisplayCategory {
    if !t.discovered {
        DisplayCategory::Hidden
    } else {
        match t.wall {
            Wall::Ramp(_) => DisplayCategory::Obstacle,
            Wall::Stair(_) => DisplayCategory::Obstacle,
            Wall::Wall(_) => DisplayCategory::Obstacle,
            Wall::Open => match t.floor {
                Floor::Stair(_) => DisplayCategory::Passable,
                Floor::Floor(_) => DisplayCategory::Passable,
                Floor::Open => DisplayCategory::Background,
            },
        }
    }
}

/// Resolve a tile to its display category.
pub fn resolve(t: Tile) -> (c: DisplayCategory)
    ensures
        c == category_of(t),
{
    if !t.discovered {
        DisplayCategory::Hidden
    } else {
        match t.wall {
            Wall::Ramp(_) => DisplayCategory::Obstacle,
            Wall::Stair(_) => DisplayCategory::Obstacle,
            Wall::Wall(_) => DisplayCategory::Obstacle,
            Wall::Open => match t.floor {
                Floor::Stair(_) => DisplayCategory::Passable,
                Floor::Floor(_) => DisplayCategory::Passable,
                Floor::Open => DisplayCategory::Background,
            },
        }
    }
}

/// An undiscovered tile resolves to `Hidden`, whatever its wall and floor
/// slots hold.
pub proof fn lemma_hidden_precedence(t: Tile)
    requires
        !t.discovered,
    ensures
        category_of(t) == DisplayCategory::Hidden,
{
}

/// On a discovered tile, the wall takes precedence over the floor: any wall
/// element makes the tile an obstacle, whatever its floor slot holds.
pub proof fn lemma_wall_precedence(t: Tile)
    requires
        t.discovered,
        !(t.wall matches Wall::Open),
    ensures
        category_of(t) == DisplayCategory::Obstacle,
{
}

} // verus!
