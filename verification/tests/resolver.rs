use mage_cave::resolve::{resolve, DisplayCategory};
use mage_cave::tile::{Floor, Material, Tile, Wall};

#[test]
fn solid_tile_fields() {
    let t = Tile::new_solid();
    assert!(!t.discovered);
    assert_eq!(t.floor, Floor::Floor(Material::Stone));
    assert_eq!(t.wall, Wall::Wall(Material::Stone));
}

#[test]
fn wall_tile_fields() {
    let t = Tile::new_wall();
    assert!(t.discovered);
    assert_eq!(t.floor, Floor::Floor(Material::Stone));
    assert_eq!(t.wall, Wall::Wall(Material::Stone));
}

#[test]
fn floor_tile_fields() {
    let t = Tile::new_floor();
    assert!(t.discovered);
    assert_eq!(t.floor, Floor::Floor(Material::Stone));
    assert_eq!(t.wall, Wall::Open);
}

#[test]
fn wall_wins_over_floor() {
    let t = Tile {
        discovered: true,
        wall: Wall::Wall(Material::Stone),
        floor: Floor::Floor(Material::Stone),
    };
    assert_eq!(resolve(t), DisplayCategory::Obstacle);
}

#[test]
fn undiscovered_is_hidden_regardless_of_contents() {
    let floors = [
        Floor::Open,
        Floor::Stair(Material::Stone),
        Floor::Stair(Material::Wood),
        Floor::Floor(Material::Stone),
        Floor::Floor(Material::Wood),
    ];
    let walls = [
        Wall::Open,
        Wall::Ramp(Material::Stone),
        Wall::Ramp(Material::Wood),
        Wall::Stair(Material::Stone),
        Wall::Stair(Material::Wood),
        Wall::Wall(Material::Stone),
        Wall::Wall(Material::Wood),
    ];
    for floor in floors {
        for wall in walls {
            let t = Tile { discovered: false, floor, wall };
            assert_eq!(resolve(t), DisplayCategory::Hidden);
        }
    }
}

#[test]
fn any_wall_element_is_an_obstacle() {
    let walls = [
        Wall::Ramp(Material::Stone),
        Wall::Ramp(Material::Wood),
        Wall::Stair(Material::Stone),
        Wall::Stair(Material::Wood),
        Wall::Wall(Material::Stone),
        Wall::Wall(Material::Wood),
    ];
    for wall in walls {
        let t = Tile { discovered: true, floor: Floor::Open, wall };
        assert_eq!(resolve(t), DisplayCategory::Obstacle);
    }
}

#[test]
fn open_wall_shows_floor() {
    let floors = [
        Floor::Stair(Material::Stone),
        Floor::Stair(Material::Wood),
        Floor::Floor(Material::Stone),
        Floor::Floor(Material::Wood),
    ];
    for floor in floors {
        let t = Tile { discovered: true, floor, wall: Wall::Open };
        assert_eq!(resolve(t), DisplayCategory::Passable);
    }
}

#[test]
fn open_wall_over_open_floor_is_background() {
    let t = Tile { discovered: true, floor: Floor::Open, wall: Wall::Open };
    assert_eq!(resolve(t), DisplayCategory::Background);
}

#[test]
fn constructor_categories() {
    assert_eq!(resolve(Tile::new_floor()), DisplayCategory::Passable);
    assert_eq!(resolve(Tile::new_wall()), DisplayCategory::Obstacle);
    assert_eq!(resolve(Tile::new_solid()), DisplayCategory::Hidden);
}

#[test]
fn material_does_not_change_the_category() {
    let stone = Tile {
        discovered: true,
        floor: Floor::Floor(Material::Stone),
        wall: Wall::Wall(Material::Stone),
    };
    let wood = Tile {
        discovered: true,
        floor: Floor::Floor(Material::Wood),
        wall: Wall::Wall(Material::Wood),
    };
    assert_eq!(resolve(stone), resolve(wood));
}
