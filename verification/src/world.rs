//! The world grid: a fixed-extent three-dimensional array of tiles.
//!
//! The grid is stored as a single flat buffer indexed by an explicit
//! index-computation function, so that a bounds violation is one checkable
//! condition. It is built once, from a tile buffer whose length must match
//! the declared extents, and is read-only thereafter.

use crate::tile::Tile;
use vstd::prelude::*;

verus! {

/// The position of cell `(x, y, z)` in the flat tile buffer of a grid with
/// extents `dx` along x and `dy` along y: layers first, then rows.
pub open spec fn flat_index(x: int, y: int, z: int, dx: int, dy: int) -> int {
    z * dy * dx + y * dx + x
}

/// A cell within the given extents maps to a buffer position within the
/// buffer length `dx * dy * dz`.
pub proof fn lemma_flat_index_in_bounds(x: int, y: int, z: int, dx: int, dy: int, dz: int)
    requires
        0 <= x < dx,
        0 <= y < dy,
        0 <= z < dz,
    ensures
        0 <= flat_index(x, y, z, dx, dy) < dx * dy * dz,
{
    assert(0 <= z * dy * dx + y * dx + x < dx * dy * dz) by (nonlinear_arith)
        requires
            0 <= x < dx,
            0 <= y < dy,
            0 <= z < dz,
    ;
}

/// The product of three extents that each fit in 32 bits stays well inside
/// 128 bits, as do its partial products.
proof fn lemma_extent_product_bound(a: int, b: int, c: int)
    requires
        0 <= a < 0x100000000,
        0 <= b < 0x100000000,
        0 <= c < 0x100000000,
    ensures
        0 <= a * b < 0x10000000000000000,
        0 <= a * b * c < 0x1000000000000000000000000,
{
    assert(0 <= a * b < 0x10000000000000000 && 0 <= a * b * c < 0x1000000000000000000000000)
        by (nonlinear_arith)
        requires
            0 <= a < 0x100000000,
            0 <= b < 0x100000000,
            0 <= c < 0x100000000,
    ;
}

/// The full fixed 3D array of tiles, flattened. Immutable once built.
pub struct World {
    dims: [u32; 3],
    tiles: Vec<Tile>,
}

impl World {
    /// The extents of the grid along x, y and z, in that order.
    pub closed spec fn spec_dims(self) -> Seq<u32> {
        self.dims@
    }

    /// The flat tile buffer, in `flat_index` order.
    pub closed spec fn spec_tiles(self) -> Seq<Tile> {
        self.tiles@
    }

    /// The grid is well formed: the buffer holds exactly one tile per cell
    /// of the declared extents.
    pub open spec fn wf(self) -> bool {
        &&& self.spec_dims().len() == 3
        &&& self.spec_tiles().len() == self.spec_dims()[0] * self.spec_dims()[1]
            * self.spec_dims()[2]
    }

    /// The tile at cell `(x, y, z)`.
    pub open spec fn spec_tile_at(self, x: int, y: int, z: int) -> Tile {
        self.spec_tiles()[flat_index(x, y, z, self.spec_dims()[0] as int, self.spec_dims()[1] as int)]
    }

    /// Build a grid with the given extents from a flat tile buffer in
    /// `flat_index` order. Fails, returning `None`, exactly when the buffer
    /// length does not match the extents; map data that does not fit its
    /// declared dimensions cannot become a grid.
    pub fn new(dims: [u32; 3], tiles: Vec<Tile>) -> (r: Option<World>)
        ensures
            match r {
                Some(w) => {
                    &&& w.wf()
                    &&& w.spec_dims() == dims@
                    &&& w.spec_tiles() == tiles@
                    &&& tiles@.len() == dims@[0] * dims@[1] * dims@[2]
                },
                None => tiles@.len() != dims@[0] * dims@[1] * dims@[2],
            },
    {
        proof {
            lemma_extent_product_bound(dims@[0] as int, dims@[1] as int, dims@[2] as int);
        }
        let expected: u128 = (dims[0] as u128) * (dims[1] as u128) * (dims[2] as u128);
        if (tiles.len() as u128) == expected {
            Some(World { dims, tiles })
        } else {
            None
        }
    }

    /// Build a grid with the given extents in which every cell holds the
    /// given tile. Fails, returning `None`, exactly when the cell count does
    /// not fit in `usize`.
    pub fn filled(dims: [u32; 3], fill: Tile) -> (r: Option<World>)
        ensures
            match r {
                Some(w) => {
                    &&& w.wf()
                    &&& w.spec_dims() == dims@
                    &&& forall|k: int|
                        0 <= k < w.spec_tiles().len() ==> w.spec_tiles()[k] == fill
                    &&& dims@[0] * dims@[1] * dims@[2] <= usize::MAX
                },
                None => dims@[0] * dims@[1] * dims@[2] > usize::MAX,
            },
    {
        proof {
            lemma_extent_product_bound(dims@[0] as int, dims@[1] as int, dims@[2] as int);
        }
        let total: u128 = (dims[0] as u128) * (dims[1] as u128) * (dims[2] as u128);
        if total > (usize::MAX as u128) {
            return None;
        }
        let count: usize = total as usize;
        let mut tiles: Vec<Tile> = Vec::new();
        let mut k: usize = 0;
        while k < count
            invariant
                k <= count,
                tiles@.len() == k,
                forall|m: int| 0 <= m < k ==> tiles@[m] == fill,
            decreases count - k,
        {
            tiles.push(fill);
            k = k + 1;
        }
        Some(World { dims, tiles })
    }

    /// The extent of the grid along the given axis (`0` is x, `1` is y,
    /// `2` is z).
    pub fn dim(&self, axis: usize) -> (r: u32)
        requires
            axis < 3,
        ensures
            r == self.spec_dims()[axis as int],
    {
        self.dims[axis]
    }

    /// Read the tile at cell `(x, y, z)`. The cell must lie within the
    /// extents; the viewport invariant guarantees this for every cell the
    /// render projector visits.
    pub fn tile_at(&self, x: u32, y: u32, z: u32) -> (t: Tile)
        requires
            self.wf(),
            x < self.spec_dims()[0],
            y < self.spec_dims()[1],
            z < self.spec_dims()[2],
        ensures
            t == self.spec_tile_at(x as int, y as int, z as int),
    {
        let dx = self.dims[0] as usize;
        let dy = self.dims[1] as usize;
        let n = self.tiles.len();
        proof {
            let dzi = self.spec_dims()[2] as int;
            assert(n as int == (dx as int) * (dy as int) * dzi);
            lemma_flat_index_in_bounds(x as int, y as int, z as int, dx as int, dy as int, dzi);
            // The partial products stay below the buffer length as well.
            assert(0 <= (z as int) * (dy as int) <= (dx as int) * (dy as int) * dzi
                && 0 <= (y as int) * (dx as int)
                && 0 <= (z as int) * (dy as int) * (dx as int)) by (nonlinear_arith)
                requires
                    0 <= x < dx as int,
                    0 <= y < dy as int,
                    0 <= z < dzi,
            ;
        }
        let idx: usize = (z as usize) * dy * dx + (y as usize) * dx + (x as usize);
        self.tiles[idx]
    }
}

} // verus!
