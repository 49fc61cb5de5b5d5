use tank_maze::maze::{GridPosition, Maze, Tile};

#[test]
fn maze_walls_and_bounds() {
    let m = Maze::new();
    assert_eq!(m.tile_at(GridPosition::new(5, 3)), Some(Tile::Wall));
    assert_eq!(m.tile_at(GridPosition::new(5, 5)), Some(Tile::Wall));
    assert_eq!(m.tile_at(GridPosition::new(8, 4)), Some(Tile::Wall));
    assert_eq!(m.tile_at(GridPosition::new(8, 5)), Some(Tile::Empty));
    assert_eq!(m.tile_at(GridPosition::new(0, 0)), Some(Tile::Empty));
    assert_eq!(m.tile_at(GridPosition::new(-1, 0)), None);
    assert_eq!(m.tile_at(GridPosition::new(0, 10)), None);
    assert_eq!(m.tile_at(GridPosition::new(10, 3)), None);
}

#[test]
fn maze_starts_and_goals() {
    let m = Maze::new();
    assert_eq!(m.p1_start(), GridPosition::new(0, 0));
    assert_eq!(m.p1_goal(), GridPosition::new(9, 9));
    assert_eq!(m.p2_start(), GridPosition::new(9, 0));
    assert_eq!(m.p2_goal(), GridPosition::new(0, 9));
}
