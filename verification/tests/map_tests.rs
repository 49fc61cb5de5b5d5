use tank_maze::game_types::Direction;
use tank_maze::map::{
    get_map_list, hardcoded_map, MapPos, Tile, TileMap, TileType, B, GRID_HEIGHT, GRID_WIDTH, L,
    R, T,
};

#[test]
fn tile_type_reads_low_nibble() {
    assert_eq!(TileType::from_u8(0x00), TileType::Empty);
    assert_eq!(TileType::from_u8(0x01), TileType::Goal);
    assert_eq!(TileType::from_u8(0x02), TileType::Button);
    assert_eq!(TileType::from_u8(0x03), TileType::Flag);
    assert_eq!(TileType::from_u8(0xF2), TileType::Button);
    assert_eq!(TileType::from_u8(0x07), TileType::Empty);
    assert_eq!(TileType::from_u8(0x0F), TileType::Empty);
}

#[test]
fn tile_type_codes() {
    assert_eq!(TileType::Empty.as_u8(), 0);
    assert_eq!(TileType::Goal.as_u8(), 1);
    assert_eq!(TileType::Button.as_u8(), 2);
    assert_eq!(TileType::Flag.as_u8(), 3);
}

#[test]
fn tile_keeps_walls_and_type() {
    let t = Tile::new(T | L, TileType::Flag);
    assert!(t.has_wall_top());
    assert!(t.has_wall_left());
    assert!(!t.has_wall_right());
    assert!(!t.has_wall_bottom());
    assert_eq!(t.tile_type(), TileType::Flag);
    let u = Tile::new(R | B, TileType::Goal);
    assert!(u.has_wall_right());
    assert!(u.has_wall_bottom());
    assert!(!u.has_wall_top());
    assert!(!u.has_wall_left());
    assert_eq!(u.tile_type(), TileType::Goal);
}

#[test]
fn tile_with_stray_low_bits_changes_type() {
    // Wall bytes that touch the type bits mix into the type code.
    let t = Tile::new(0x01, TileType::Button);
    assert_eq!(t.tile_type(), TileType::Flag);
}

fn small_map() -> TileMap {
    // 3 wide, 2 high.
    TileMap::new(
        (3, 2),
        vec![T | L, T, T | R, L | B, B, B | R],
        vec![0, 1, 2, 3, 0, 0x11],
    )
}

#[test]
fn map_new_lays_out_rows() {
    let m = small_map();
    assert_eq!(m.width, 3);
    assert_eq!(m.height, 2);
    assert_eq!(m.tiles.len(), 2);
    assert_eq!(m.tiles[0].len(), 3);
    let t = m.get(MapPos::new(2, 0)).unwrap();
    assert!(t.has_wall_top() && t.has_wall_right());
    assert_eq!(t.tile_type(), TileType::Button);
    let t = m.get(MapPos::new(0, 1)).unwrap();
    assert!(t.has_wall_left() && t.has_wall_bottom());
    assert_eq!(t.tile_type(), TileType::Flag);
    assert_eq!(m.get(MapPos::new(2, 1)).unwrap().tile_type(), TileType::Goal);
}

#[test]
fn map_get_out_of_range_is_none() {
    let m = small_map();
    assert!(m.get(MapPos::new(3, 0)).is_none());
    assert!(m.get(MapPos::new(0, 2)).is_none());
    assert!(m.get(MapPos::new(2, 1)).is_some());
}

#[test]
fn moved_steps_one_tile() {
    let m = hardcoded_map();
    let p = MapPos::new(1, 1);
    assert_eq!(p.moved(&m, Direction::Up), MapPos::new(1, 0));
    assert_eq!(p.moved(&m, Direction::Down), MapPos::new(1, 2));
    assert_eq!(p.moved(&m, Direction::Left), MapPos::new(0, 1));
    assert_eq!(p.moved(&m, Direction::Right), MapPos::new(2, 1));
}

#[test]
fn moved_stops_at_edges() {
    let m = hardcoded_map();
    assert_eq!(MapPos::new(0, 0).moved(&m, Direction::Up), MapPos::new(0, 0));
    assert_eq!(MapPos::new(0, 0).moved(&m, Direction::Left), MapPos::new(0, 0));
    assert_eq!(MapPos::new(4, 4).moved(&m, Direction::Down), MapPos::new(4, 4));
    assert_eq!(MapPos::new(4, 4).moved(&m, Direction::Right), MapPos::new(4, 4));
}

#[test]
fn moved_blocked_by_inner_wall() {
    let m = hardcoded_map();
    // Tile (2, 2) has a wall below it and tile (2, 3) a wall above it.
    assert_eq!(MapPos::new(2, 2).moved(&m, Direction::Down), MapPos::new(2, 2));
    assert_eq!(MapPos::new(2, 3).moved(&m, Direction::Up), MapPos::new(2, 3));
    assert_eq!(MapPos::new(2, 1).moved(&m, Direction::Down), MapPos::new(2, 2));
}

#[test]
fn moved_on_map_without_border_walls() {
    let m = TileMap::new((2, 1), vec![0, 0], vec![0, 0]);
    assert_eq!(MapPos::new(0, 0).moved(&m, Direction::Right), MapPos::new(1, 0));
    assert_eq!(MapPos::new(1, 0).moved(&m, Direction::Right), MapPos::new(1, 0));
    assert_eq!(MapPos::new(1, 0).moved(&m, Direction::Down), MapPos::new(1, 0));
}

#[test]
fn map_list_shapes() {
    let maps = get_map_list();
    assert_eq!(maps[0].width, 5);
    assert_eq!(maps[0].height, 5);
    assert_eq!(maps[1].width, 25);
    assert_eq!(maps[1].height, 25);
    let first = &maps[0];
    assert_eq!(first.get(MapPos::new(1, 0)).unwrap().tile_type(), TileType::Flag);
    assert_eq!(first.get(MapPos::new(4, 0)).unwrap().tile_type(), TileType::Goal);
    assert_eq!(first.get(MapPos::new(1, 2)).unwrap().tile_type(), TileType::Button);
    assert_eq!(first.get(MapPos::new(3, 2)).unwrap().tile_type(), TileType::Button);
    assert_eq!(first.get(MapPos::new(2, 2)).unwrap().tile_type(), TileType::Empty);
    let second = &maps[1];
    let corner = second.get(MapPos::new(24, 24)).unwrap();
    assert!(corner.has_wall_bottom() && corner.has_wall_right());
    assert!(!corner.has_wall_top() && !corner.has_wall_left());
    let inner = second.get(MapPos::new(12, 7)).unwrap();
    assert!(!inner.has_wall_top() && !inner.has_wall_bottom());
    assert!(!inner.has_wall_left() && !inner.has_wall_right());
    assert_eq!(inner.tile_type(), TileType::Empty);
    let edge = second.get(MapPos::new(0, 12)).unwrap();
    assert!(edge.has_wall_left() && !edge.has_wall_right());
}

#[test]
fn hardcoded_map_is_grid_sized() {
    let m = hardcoded_map();
    assert_eq!(m.width, GRID_WIDTH as usize);
    assert_eq!(m.height, GRID_HEIGHT as usize);
}

fn opposite(d: Direction) -> Direction {
    match d {
        Direction::Up => Direction::Down,
        Direction::Down => Direction::Up,
        Direction::Left => Direction::Right,
        Direction::Right => Direction::Left,
    }
}

#[test]
fn moves_on_built_in_maps_can_be_undone() {
    let maps = get_map_list();
    for m in maps.iter() {
        for y in 0..m.height as u16 {
            for x in 0..m.width as u16 {
                let p = MapPos::new(x, y);
                for d in [Direction::Up, Direction::Down, Direction::Left, Direction::Right] {
                    let q = p.moved(m, d);
                    if q != p {
                        assert_eq!(q.moved(m, opposite(d)), p);
                    }
                }
            }
        }
    }
}
