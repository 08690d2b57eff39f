//! The render projector: turns the visible window of the current z layer
//! into screen-space draw commands.
//!
//! For every cell `(i, j)` of the window it looks up the world tile at
//! `(offset.x + i, offset.y + j, offset.z)`, resolves its display category,
//! and emits one rectangle of `tile_width x tile_height` pixels at
//! `(i * tile_width, j * tile_height)` — except for `Background`, which
//! emits nothing. The tile size is the screen pixel size divided by the
//! window tile counts. The projector mutates neither the grid nor the
//! viewport; the caller draws the commands in whatever color scheme it
//! likes, one fixed color per category.

use crate::resolve::{category_of, resolve, DisplayCategory};
use crate::viewport::Viewport;
use crate::world::World;
use vstd::prelude::*;

verus! {

/// One rectangle to draw: a screen position and size in pixels, and the
/// display category that picks its color.
#[derive(Copy, Clone, Debug, PartialEq, Eq, Structural)]
pub struct DrawCommand {
    /// Left edge, in pixels from the left of the screen.
    pub x: u32,
    /// Top edge, in pixels from the top of the screen.
    pub y: u32,
    /// Width of the rectangle, in pixels.
    pub width: u32,
    /// Height of the rectangle, in pixels.
    pub height: u32,
    /// What the rectangle stands for; the caller maps this to a color.
    pub category: DisplayCategory,
}

/// The display category of window cell `(i, j)`: the resolved category of
/// the world tile it shows.
pub open spec fn cell_category(w: World, vp: Viewport, i: int, j: int) -> DisplayCategory {
    category_of(
        w.spec_tile_at(
            vp.spec_offsets()[0] + i,
            vp.spec_offsets()[1] + j,
            vp.spec_offsets()[2] as int,
        ),
    )
}

/// The draw command for window cell `(i, j)` with tiles of `tw x th` pixels.
pub open spec fn cell_command(w: World, vp: Viewport, tw: int, th: int, i: int, j: int) -> DrawCommand {
    DrawCommand {
        x: (i * tw) as u32,
        y: (j * th) as u32,
        width: tw as u32,
        height: th as u32,
        category: cell_category(w, vp, i, j),
    }
}

/// The draw commands for the first `j` cells of window column `i`, top to
/// bottom; a `Background` cell contributes none.
pub open spec fn column_commands(w: World, vp: Viewport, tw: int, th: int, i: int, j: int) -> Seq<
    DrawCommand,
>
    decreases j,
{
    if j <= 0 {
        Seq::empty()
    } else {
        column_commands(w, vp, tw, th, i, j - 1) + (if cell_category(w, vp, i, j - 1)
            == DisplayCategory::Background {
            Seq::empty()
        } else {
            seq![cell_command(w, vp, tw, th, i, j - 1)]
        })
    }
}

/// The draw commands for the first `i` window columns, each `win_h` cells
/// tall, left to right.
pub open spec fn grid_commands(
    w: World,
    vp: Viewport,
    tw: int,
    th: int,
    win_h: int,
    i: int,
) -> Seq<DrawCommand>
    decreases i,
{
    if i <= 0 {
        Seq::empty()
    } else {
        grid_commands(w, vp, tw, th, win_h, i - 1) + column_commands(w, vp, tw, th, i - 1, win_h)
    }
}

/// The full projection of the visible window onto a screen of
/// `screen_w x screen_h` pixels.
pub open spec fn projection(w: World, vp: Viewport, screen_w: int, screen_h: int) -> Seq<
    DrawCommand,
> {
    grid_commands(
        w,
        vp,
        screen_w / (vp.spec_window_size()[0] as int),
        screen_h / (vp.spec_window_size()[1] as int),
        vp.spec_window_size()[1] as int,
        vp.spec_window_size()[0] as int,
    )
}

/// A cell coordinate scaled by a tile size derived from the screen size
/// stays on the screen.
proof fn lemma_cell_coordinate_bound(i: int, w: int, p: int)
    requires
        0 <= i < w,
        0 <= p,
    ensures
        0 <= i * (p / w),
        i * (p / w) <= p,
{
    assert(0 <= i * (p / w) && i * (p / w) <= p) by (nonlinear_arith)
        requires
            0 <= i < w,
            0 <= p,
    ;
}

/// Project the visible window of the current z layer into draw commands.
///
/// The window must fit inside the world along every axis and show at least
/// one tile per axis; together with the viewport invariant this keeps every
/// tile lookup in bounds.
pub fn render_commands(world: &World, vp: &Viewport, screen_w: u32, screen_h: u32) -> (r: Vec<
    DrawCommand,
>)
    requires
        world.wf(),
        vp.inv(),
        vp.spec_world_dims() == world.spec_dims(),
        forall|d: int| 0 <= d < 3 ==> 1 <= #[trigger] vp.spec_window_size()[d],
        forall|d: int|
            0 <= d < 3 ==> #[trigger] vp.spec_window_size()[d] <= world.spec_dims()[d],
    ensures
        r@ == projection(*world, *vp, screen_w as int, screen_h as int),
{
    let win_w = vp.window_size(0);
    let win_h = vp.window_size(1);
    let tw = screen_w / win_w;
    let th = screen_h / win_h;
    let off_x = vp.offset(0);
    let off_y = vp.offset(1);
    let off_z = vp.offset(2);
    proof {
        assert(vp.spec_offsets()[0] <= vp.max_offset(0));
        assert(vp.spec_offsets()[1] <= vp.max_offset(1));
        assert(vp.spec_offsets()[2] <= vp.max_offset(2));
    }
    let mut r: Vec<DrawCommand> = Vec::new();
    let mut i: u32 = 0;
    while i < win_w
        invariant
            world.wf(),
            vp.inv(),
            vp.spec_world_dims() == world.spec_dims(),
            forall|d: int| 0 <= d < 3 ==> 1 <= #[trigger] vp.spec_window_size()[d],
            forall|d: int|
                0 <= d < 3 ==> #[trigger] vp.spec_window_size()[d] <= world.spec_dims()[d],
            win_w == vp.spec_window_size()[0],
            win_h == vp.spec_window_size()[1],
            tw == (screen_w as int) / (win_w as int),
            th == (screen_h as int) / (win_h as int),
            off_x == vp.spec_offsets()[0],
            off_y == vp.spec_offsets()[1],
            off_z == vp.spec_offsets()[2],
            i <= win_w,
            r@ == grid_commands(*world, *vp, tw as int, th as int, win_h as int, i as int),
        decreases win_w - i,
    {
        let mut j: u32 = 0;
        while j < win_h
            invariant
                world.wf(),
                vp.inv(),
                vp.spec_world_dims() == world.spec_dims(),
                forall|d: int| 0 <= d < 3 ==> 1 <= #[trigger] vp.spec_window_size()[d],
                forall|d: int|
                    0 <= d < 3 ==> #[trigger] vp.spec_window_size()[d] <= world.spec_dims()[d],
                win_w == vp.spec_window_size()[0],
                win_h == vp.spec_window_size()[1],
                tw == (screen_w as int) / (win_w as int),
                th == (screen_h as int) / (win_h as int),
                off_x == vp.spec_offsets()[0],
                off_y == vp.spec_offsets()[1],
                off_z == vp.spec_offsets()[2],
                i < win_w,
                j <= win_h,
                r@ == grid_commands(*world, *vp, tw as int, th as int, win_h as int, i as int)
                    + column_commands(*world, *vp, tw as int, th as int, i as int, j as int),
            decreases win_h - j,
        {
            proof {
                assert(vp.spec_offsets()[0] <= vp.max_offset(0));
                assert(vp.spec_offsets()[1] <= vp.max_offset(1));
                assert(vp.spec_offsets()[2] <= vp.max_offset(2));
                lemma_cell_coordinate_bound(i as int, win_w as int, screen_w as int);
                lemma_cell_coordinate_bound(j as int, win_h as int, screen_h as int);
            }
            let t = world.tile_at(off_x + i, off_y + j, off_z);
            let c = resolve(t);
            if c != DisplayCategory::Background {
                let x = i * tw;
                let y = j * th;
                r.push(DrawCommand { x, y, width: tw, height: th, category: c });
            }
            proof {
                assert(r@ =~= grid_commands(*world, *vp, tw as int, th as int, win_h as int, i as int)
                    + column_commands(*world, *vp, tw as int, th as int, i as int, j + 1));
            }
            j = j + 1;
        }
        proof {
            assert(r@ =~= grid_commands(*world, *vp, tw as int, th as int, win_h as int, i + 1));
        }
        i = i + 1;
    }
    r
}

/// A single column of `j` cells yields at most `j` draw commands.
pub proof fn lemma_column_count(w: World, vp: Viewport, tw: int, th: int, i: int, j: int)
    requires
        0 <= j,
    ensures
        column_commands(w, vp, tw, th, i, j).len() <= j,
    decreases j,
{
    if j > 0 {
        lemma_column_count(w, vp, tw, th, i, j - 1);
    }
}

/// The first `i` columns of a window `win_h` cells tall yield at most
/// `i * win_h` draw commands.
pub proof fn lemma_grid_count(w: World, vp: Viewport, tw: int, th: int, win_h: int, i: int)
    requires
        0 <= win_h,
        0 <= i,
    ensures
        grid_commands(w, vp, tw, th, win_h, i).len() <= i * win_h,
    decreases i,
{
    if i > 0 {
        lemma_grid_count(w, vp, tw, th, win_h, i - 1);
        lemma_column_count(w, vp, tw, th, i - 1, win_h);
        assert((i - 1) * win_h + win_h == i * win_h) by (nonlinear_arith);
    }
}

/// A single column of `j` cells, none of them `Background`, yields exactly
/// `j` draw commands.
pub proof fn lemma_column_count_exact(w: World, vp: Viewport, tw: int, th: int, i: int, j: int)
    requires
        0 <= j,
        forall|m: int|
            0 <= m < j ==> #[trigger] cell_category(w, vp, i, m) != DisplayCategory::Background,
    ensures
        column_commands(w, vp, tw, th, i, j).len() == j,
    decreases j,
{
    if j > 0 {
        lemma_column_count_exact(w, vp, tw, th, i, j - 1);
    }
}

/// The first `i` columns of a window `win_h` cells tall, with no
/// `Background` cell among them, yield exactly `i * win_h` draw commands.
pub proof fn lemma_grid_count_exact(
    w: World,
    vp: Viewport,
    tw: int,
    th: int,
    win_h: int,
    i: int,
)
    requires
        0 <= win_h,
        0 <= i,
        forall|k: int, m: int|
            0 <= k < i && 0 <= m < win_h ==> #[trigger] cell_category(w, vp, k, m)
                != DisplayCategory::Background,
    ensures
        grid_commands(w, vp, tw, th, win_h, i).len() == i * win_h,
    decreases i,
{
    if i > 0 {
        lemma_grid_count_exact(w, vp, tw, th, win_h, i - 1);
        lemma_column_count_exact(w, vp, tw, th, i - 1, win_h);
        assert((i - 1) * win_h + win_h == i * win_h) by (nonlinear_arith);
    } else {
        assert(i * win_h == 0) by (nonlinear_arith)
            requires
                i == 0,
        ;
    }
}

/// A render pass visits each of the `window_w * window_h` cells of the
/// window exactly once, so it emits at most that many draw commands —
/// fewer exactly when some visible cell is `Background`, which emits
/// nothing.
pub proof fn lemma_projection_count(w: World, vp: Viewport, screen_w: int, screen_h: int)
    ensures
        projection(w, vp, screen_w, screen_h).len() <= vp.spec_window_size()[0]
            * vp.spec_window_size()[1],
        (forall|k: int, m: int|
            0 <= k < vp.spec_window_size()[0] && 0 <= m < vp.spec_window_size()[1]
                ==> #[trigger] cell_category(w, vp, k, m) != DisplayCategory::Background)
            ==> projection(w, vp, screen_w, screen_h).len() == vp.spec_window_size()[0]
            * vp.spec_window_size()[1],
{
    let tw = screen_w / (vp.spec_window_size()[0] as int);
    let th = screen_h / (vp.spec_window_size()[1] as int);
    let win_w = vp.spec_window_size()[0] as int;
    let win_h = vp.spec_window_size()[1] as int;
    lemma_grid_count(w, vp, tw, th, win_h, win_w);
    if forall|k: int, m: int|
        0 <= k < win_w && 0 <= m < win_h ==> #[trigger] cell_category(w, vp, k, m)
            != DisplayCategory::Background {
        lemma_grid_count_exact(w, vp, tw, th, win_h, win_w);
    }
}

} // verus!
