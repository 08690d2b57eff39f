use mage_cave::render::{render_commands, DrawCommand};
use mage_cave::resolve::DisplayCategory;
use mage_cave::tile::{Floor, Material, Tile, Wall};
use mage_cave::viewport::Viewport;
use mage_cave::world::World;
use mage_cave::{
    SCREEN_PIXELS_X, SCREEN_PIXELS_Y, SCREEN_TILES_X, SCREEN_TILES_Y, SCREEN_TILES_Z, WORLD_X,
    WORLD_Y, WORLD_Z,
};

#[test]
fn a_full_window_emits_exactly_one_command_per_cell() {
    // Every cell of a solid world resolves to Hidden, which is drawn, so a
    // 30 x 20 window emits exactly 600 commands.
    let dims: [u32; 3] = [WORLD_X, WORLD_Y, WORLD_Z];
    let window: [u32; 3] = [SCREEN_TILES_X, SCREEN_TILES_Y, SCREEN_TILES_Z];
    let world = World::filled(dims, Tile::new_solid()).unwrap();
    let vp = Viewport::new(window, dims);
    let cmds = render_commands(&world, &vp, SCREEN_PIXELS_X, SCREEN_PIXELS_Y);
    assert_eq!(cmds.len(), 600);
    // Columns left to right, cells top to bottom, 20 x 20 pixel tiles.
    for i in 0..30u32 {
        for j in 0..20u32 {
            let cmd = cmds[(i * 20 + j) as usize];
            assert_eq!(
                cmd,
                DrawCommand {
                    x: i * 20,
                    y: j * 20,
                    width: 20,
                    height: 20,
                    category: DisplayCategory::Hidden,
                }
            );
        }
    }
}

#[test]
fn background_cells_emit_nothing() {
    let dims: [u32; 3] = [2, 2, 1];
    let void = Tile { discovered: true, floor: Floor::Open, wall: Wall::Open };
    let world = World::filled(dims, void).unwrap();
    let window: [u32; 3] = [2, 2, 1];
    let vp = Viewport::new(window, dims);
    let cmds = render_commands(&world, &vp, 100, 100);
    assert!(cmds.is_empty());
}

#[test]
fn mixed_cells_emit_commands_in_column_order() {
    // Column x = 0 holds a wall over a floor; column x = 1 holds open void
    // over undiscovered rock. Void emits nothing.
    let dims: [u32; 3] = [2, 2, 1];
    let tiles = vec![
        Tile::new_wall(),                                                  // (0, 0)
        Tile { discovered: true, floor: Floor::Open, wall: Wall::Open },   // (1, 0)
        Tile::new_floor(),                                                 // (0, 1)
        Tile::new_solid(),                                                 // (1, 1)
    ];
    let world = World::new(dims, tiles).unwrap();
    let window: [u32; 3] = [2, 2, 1];
    let vp = Viewport::new(window, dims);
    let cmds = render_commands(&world, &vp, 10, 10);
    assert_eq!(
        cmds,
        vec![
            DrawCommand { x: 0, y: 0, width: 5, height: 5, category: DisplayCategory::Obstacle },
            DrawCommand { x: 0, y: 5, width: 5, height: 5, category: DisplayCategory::Passable },
            DrawCommand { x: 5, y: 5, width: 5, height: 5, category: DisplayCategory::Hidden },
        ]
    );
}

#[test]
fn the_projection_follows_the_viewport_offset() {
    // A 3 x 3 x 2 world whose only passable tile sits at (2, 1, 1); a
    // 1 x 1 window finds it exactly when the offset points there.
    let dims: [u32; 3] = [3, 3, 2];
    let mut tiles = vec![Tile::new_solid(); 18];
    tiles[(1 * 3 * 3 + 1 * 3 + 2) as usize] = Tile::new_floor();
    let world = World::new(dims, tiles).unwrap();
    let window: [u32; 3] = [1, 1, 1];
    let mut vp = Viewport::new(window, dims);
    vp.increment_viewport(0, 2);
    vp.increment_viewport(1, 1);
    vp.increment_viewport(2, 1);
    let cmds = render_commands(&world, &vp, 50, 50);
    assert_eq!(
        cmds,
        vec![DrawCommand { x: 0, y: 0, width: 50, height: 50, category: DisplayCategory::Passable }]
    );
    vp.decrement_viewport(2, 1);
    let cmds = render_commands(&world, &vp, 50, 50);
    assert_eq!(
        cmds,
        vec![DrawCommand { x: 0, y: 0, width: 50, height: 50, category: DisplayCategory::Hidden }]
    );
}

#[test]
fn scrolling_to_the_far_corner_stays_in_bounds() {
    let dims: [u32; 3] = [WORLD_X, WORLD_Y, WORLD_Z];
    let window: [u32; 3] = [SCREEN_TILES_X, SCREEN_TILES_Y, SCREEN_TILES_Z];
    let world = World::filled(dims, Tile::new_floor()).unwrap();
    let mut vp = Viewport::new(window, dims);
    for _ in 0..100 {
        vp.increment_viewport(0, 1);
        vp.increment_viewport(1, 1);
        vp.increment_viewport(2, 1);
    }
    assert_eq!(vp.offset(0), 0);
    assert_eq!(vp.offset(1), 10);
    assert_eq!(vp.offset(2), 9);
    let cmds = render_commands(&world, &vp, SCREEN_PIXELS_X, SCREEN_PIXELS_Y);
    assert_eq!(cmds.len(), 600);
    for cmd in cmds {
        assert_eq!(cmd.category, DisplayCategory::Passable);
    }
}
