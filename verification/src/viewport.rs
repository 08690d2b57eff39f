//! The viewport: a fixed-size visible window scrolled over the world grid.
//!
//! The viewport tracks the lower corner of the visible window in world
//! coordinates and clamps every move so that the window always lies fully
//! inside the grid: `0 <= offset[d] <= world_dims[d] - window_size[d]` along
//! each axis (and `offset[d] == 0` where the window is at least as large as
//! the world). A move past a boundary is not an error; it is silently
//! clamped to the nearest valid position.

use vstd::prelude::*;

verus! {

/// One discrete move request: shift `offset[dimension]` by `amount`, upward
/// when `increase` is set, downward otherwise.
#[derive(Copy, Clone, Debug, PartialEq, Eq, Structural)]
pub struct MoveCommand {
    /// The axis to move along (`0` is x, `1` is y, `2` is z).
    pub dimension: usize,
    /// Whether the offset grows (`true`) or shrinks (`false`).
    pub increase: bool,
    /// How many tiles to move by.
    pub amount: u32,
}

/// The largest valid offset along axis `d` for a window of `window[d]` tiles
/// in a world of `world[d]` tiles: zero when the window does not fit.
pub open spec fn max_offset_in(world: Seq<u32>, window: Seq<u32>, d: int) -> int {
    if window[d] <= world[d] {
        world[d] - window[d]
    } else {
        0
    }
}

/// The containment invariant: along every axis the offset leaves the whole
/// window inside the world.
pub open spec fn contained_in(off: Seq<u32>, world: Seq<u32>, window: Seq<u32>) -> bool {
    forall|d: int| 0 <= d < 3 ==> #[trigger] off[d] <= max_offset_in(world, window, d)
}

/// An upward move clamped to the valid range: the target offset, or the
/// maximum when the target lies beyond it.
pub open spec fn clamp_add(off: int, amount: int, max: int) -> int {
    if off + amount <= max {
        off + amount
    } else {
        max
    }
}

/// A downward move clamped to the valid range: the target offset, or zero
/// when the target lies below it.
pub open spec fn clamp_sub(off: int, amount: int) -> int {
    if amount <= off {
        off - amount
    } else {
        0
    }
}

/// The offsets after one move command: the addressed axis is clamped into
/// its valid range, the other axes are untouched.
pub open spec fn apply_move(
    off: Seq<u32>,
    world: Seq<u32>,
    window: Seq<u32>,
    c: MoveCommand,
) -> Seq<u32> {
    let d = c.dimension as int;
    if c.increase {
        off.update(d, clamp_add(off[d] as int, c.amount as int, max_offset_in(world, window, d)) as u32)
    } else {
        off.update(d, clamp_sub(off[d] as int, c.amount as int) as u32)
    }
}

/// The offsets after a whole sequence of move commands, processed one at a
/// time in arrival order.
pub open spec fn apply_moves(
    off: Seq<u32>,
    world: Seq<u32>,
    window: Seq<u32>,
    cmds: Seq<MoveCommand>,
) -> Seq<u32>
    decreases cmds.len(),
{
    if cmds.len() == 0 {
        off
    } else {
        apply_moves(apply_move(off, world, window, cmds[0]), world, window, cmds.skip(1))
    }
}

/// The currently visible rectangular window into the world grid.
pub struct Viewport {
    offset: [u32; 3],
    window_size: [u32; 3],
    world_dims: [u32; 3],
}

impl Viewport {
    /// The lower corner of the visible window, in world coordinates.
    pub closed spec fn spec_offsets(self) -> Seq<u32> {
        self.offset@
    }

    /// How many tiles are visible along each axis.
    pub closed spec fn spec_window_size(self) -> Seq<u32> {
        self.window_size@
    }

    /// The extents of the world the window scrolls over.
    pub closed spec fn spec_world_dims(self) -> Seq<u32> {
        self.world_dims@
    }

    /// The largest valid offset along axis `d`.
    pub open spec fn max_offset(self, d: int) -> int {
        max_offset_in(self.spec_world_dims(), self.spec_window_size(), d)
    }

    /// The viewport invariant: one offset, window extent and world extent
    /// per axis, with the whole window inside the world.
    pub open spec fn inv(self) -> bool {
        &&& self.spec_offsets().len() == 3
        &&& self.spec_window_size().len() == 3
        &&& self.spec_world_dims().len() == 3
        &&& contained_in(self.spec_offsets(), self.spec_world_dims(), self.spec_window_size())
    }

    /// A fresh viewport at the origin, over a world of the given extents,
    /// showing `window_size` tiles per axis.
    pub fn new(window_size: [u32; 3], world_dims: [u32; 3]) -> (vp: Viewport)
        ensures
            vp.inv(),
            vp.spec_offsets() == seq![0u32, 0u32, 0u32],
            vp.spec_window_size() == window_size@,
            vp.spec_world_dims() == world_dims@,
    {
        let vp = Viewport { offset: [0u32; 3], window_size, world_dims };
        proof {
            assert(vp.spec_offsets() =~= seq![0u32, 0u32, 0u32]);
        }
        vp
    }

    /// The offset along the given axis.
    pub fn offset(&self, axis: usize) -> (r: u32)
        requires
            axis < 3,
        ensures
            r == self.spec_offsets()[axis as int],
    {
        self.offset[axis]
    }

    /// The window extent along the given axis.
    pub fn window_size(&self, axis: usize) -> (r: u32)
        requires
            axis < 3,
        ensures
            r == self.spec_window_size()[axis as int],
    {
        self.window_size[axis]
    }

    /// The world extent along the given axis.
    pub fn world_dim(&self, axis: usize) -> (r: u32)
        requires
            axis < 3,
        ensures
            r == self.spec_world_dims()[axis as int],
    {
        self.world_dims[axis]
    }

    /// Shift the offset upward along one axis, clamping at the far edge of
    /// the world.
    pub fn increment_viewport(&mut self, dimension: usize, diff: u32)
        requires
            old(self).inv(),
            dimension < 3,
        ensures
            final(self).inv(),
            final(self).spec_window_size() == old(self).spec_window_size(),
            final(self).spec_world_dims() == old(self).spec_world_dims(),
            final(self).spec_offsets() == apply_move(
                old(self).spec_offsets(),
                old(self).spec_world_dims(),
                old(self).spec_window_size(),
                (MoveCommand { dimension, increase: true, amount: diff }),
            ),
    {
        let win = self.window_size[dimension];
        let wld = self.world_dims[dimension];
        let max: u32 = if win <= wld {
            wld - win
        } else {
            0
        };
        let off = self.offset[dimension];
        proof {
            assert(off <= max_offset_in(self.spec_world_dims(), self.spec_window_size(), dimension as int));
        }
        let new_off: u32 = if diff <= max - off {
            off + diff
        } else {
            max
        };
        self.offset[dimension] = new_off;
    }

    /// Shift the offset downward along one axis, clamping at zero.
    pub fn decrement_viewport(&mut self, dimension: usize, diff: u32)
        requires
            old(self).inv(),
            dimension < 3,
        ensures
            final(self).inv(),
            final(self).spec_window_size() == old(self).spec_window_size(),
            final(self).spec_world_dims() == old(self).spec_world_dims(),
            final(self).spec_offsets() == apply_move(
                old(self).spec_offsets(),
                old(self).spec_world_dims(),
                old(self).spec_window_size(),
                (MoveCommand { dimension, increase: false, amount: diff }),
            ),
    {
        let off = self.offset[dimension];
        let new_off: u32 = if diff <= off {
            off - diff
        } else {
            0
        };
        self.offset[dimension] = new_off;
    }
}

/// One clamped move keeps the window inside the world: containment is
/// preserved whatever the axis, direction and amount.
pub proof fn lemma_move_preserves_containment(
    off: Seq<u32>,
    world: Seq<u32>,
    window: Seq<u32>,
    c: MoveCommand,
)
    requires
        off.len() == 3,
        c.dimension < 3,
        contained_in(off, world, window),
    ensures
        apply_move(off, world, window, c).len() == 3,
        contained_in(apply_move(off, world, window, c), world, window),
{
    let d = c.dimension as int;
    let res = apply_move(off, world, window, c);
    assert forall|k: int| 0 <= k < 3 implies #[trigger] res[k] <= max_offset_in(
        world,
        window,
        k,
    ) by {
        if k != d {
            assert(res[k] == off[k]);
        } else {
            assert(off[d] <= max_offset_in(world, window, d));
        }
    }
}

/// The containment invariant holds after any sequence of move commands on
/// the three axes: applied to each prefix of a command stream in turn, this
/// says the invariant holds after every single command.
pub proof fn lemma_containment_invariant(
    off: Seq<u32>,
    world: Seq<u32>,
    window: Seq<u32>,
    cmds: Seq<MoveCommand>,
)
    requires
        off.len() == 3,
        contained_in(off, world, window),
        forall|k: int| 0 <= k < cmds.len() ==> (#[trigger] cmds[k]).dimension < 3,
    ensures
        apply_moves(off, world, window, cmds).len() == 3,
        contained_in(apply_moves(off, world, window, cmds), world, window),
    decreases cmds.len(),
{
    if cmds.len() > 0 {
        lemma_move_preserves_containment(off, world, window, cmds[0]);
        let rest = cmds.skip(1);
        assert forall|k: int| 0 <= k < rest.len() implies (#[trigger] rest[k]).dimension
            < 3 by {
            assert(rest[k] == cmds[k + 1]);
        }
        lemma_containment_invariant(
            apply_move(off, world, window, cmds[0]),
            world,
            window,
            rest,
        );
    }
}

/// The containment invariant holds after each command of a move stream: for
/// any sequence of move commands and any point `n` within it, the offsets
/// reached after the first `n` commands still keep the window inside the
/// world.
pub proof fn lemma_containment_after_each_command(
    off: Seq<u32>,
    world: Seq<u32>,
    window: Seq<u32>,
    cmds: Seq<MoveCommand>,
    n: int,
)
    requires
        off.len() == 3,
        contained_in(off, world, window),
        forall|k: int| 0 <= k < cmds.len() ==> (#[trigger] cmds[k]).dimension < 3,
        0 <= n <= cmds.len(),
    ensures
        contained_in(apply_moves(off, world, window, cmds.take(n)), world, window),
{
    let prefix = cmds.take(n);
    assert forall|k: int| 0 <= k < prefix.len() implies (#[trigger] prefix[k]).dimension
        < 3 by {
        assert(prefix[k] == cmds[k]);
    }
    lemma_containment_invariant(off, world, window, prefix);
}

/// Clamping is idempotent at the far edge: once an upward move has crossed
/// or reached the boundary, a further upward move along the same axis
/// leaves the offsets unchanged.
pub proof fn lemma_increment_clamp_idempotent(
    off: Seq<u32>,
    world: Seq<u32>,
    window: Seq<u32>,
    first: MoveCommand,
    second: MoveCommand,
)
    requires
        off.len() == 3,
        first.dimension < 3,
        second.dimension == first.dimension,
        first.increase,
        second.increase,
        off[first.dimension as int] + first.amount >= max_offset_in(
            world,
            window,
            first.dimension as int,
        ),
    ensures
        apply_move(apply_move(off, world, window, first), world, window, second)
            == apply_move(off, world, window, first),
{
    let d = first.dimension as int;
    let once = apply_move(off, world, window, first);
    let max = max_offset_in(world, window, d);
    assert(once[d] == max);
    assert(apply_move(once, world, window, second) =~= once);
}

/// Clamping is idempotent at the near edge: once a downward move has
/// crossed or reached zero, a further downward move along the same axis
/// leaves the offsets unchanged.
pub proof fn lemma_decrement_clamp_idempotent(
    off: Seq<u32>,
    world: Seq<u32>,
    window: Seq<u32>,
    first: MoveCommand,
    second: MoveCommand,
)
    requires
        off.len() == 3,
        first.dimension < 3,
        second.dimension == first.dimension,
        !first.increase,
        !second.increase,
        first.amount >= off[first.dimension as int],
    ensures
        apply_move(apply_move(off, world, window, first), world, window, second)
            == apply_move(off, world, window, first),
{
    let d = first.dimension as int;
    let once = apply_move(off, world, window, first);
    assert(once[d] == 0);
    assert(apply_move(once, world, window, second) =~= once);
}

} // verus!
