use vstd::prelude::*;

use crate::game_types::Direction;

verus! {

/// Bit marking a wall on the top edge of a tile.
pub const WALL_TOP: u8 = 0x80;
/// Bit marking a wall on the right edge of a tile.
pub const WALL_RIGHT: u8 = 0x40;
/// Bit marking a wall on the bottom edge of a tile.
pub const WALL_BOTTOM: u8 = 0x20;
/// Bit marking a wall on the left edge of a tile.
pub const WALL_LEFT: u8 = 0x10;
/// The four wall bits.
pub const WALL_MASK: u8 = 0xF0;
/// The bits that encode the tile type.
pub const TYPE_MASK: u8 = 0x0F;

/// What stands on a tile.
#[derive(Clone, Copy, Debug, PartialEq, Eq, Structural)]
pub enum TileType {
    Empty,
    Goal,
    Button,
    Flag,
}

impl TileType {
    /// The type encoded by the low four bits of `v`; unknown codes read as `Empty`.
    pub open spec fn from_bits(v: u8) -> TileType {
        let code = v & TYPE_MASK;
        if code == 1 {
            TileType::Goal
        } else if code == 2 {
            TileType::Button
        } else if code == 3 {
            TileType::Flag
        } else {
            TileType::Empty
        }
    }

    /// The code of this type in the low four bits of a tile byte.
    pub open spec fn code(self) -> u8 {
        match self {
            TileType::Empty => 0,
            TileType::Goal => 1,
            TileType::Button => 2,
            TileType::Flag => 3,
        }
    }

    /// Decodes the type held in the low four bits of `v`.
    pub fn from_u8(v: u8) -> (t: TileType)
        ensures
            t == TileType::from_bits(v),
    {
        let code = v & TYPE_MASK;
        if code == 1 {
            TileType::Goal
        } else if code == 2 {
            TileType::Button
        } else if code == 3 {
            TileType::Flag
        } else {
            TileType::Empty
        }
    }

    /// The code of this type, as stored in a tile byte.
    pub fn as_u8(self) -> (b: u8)
        ensures
            b == self.code(),
    {
        match self {
            TileType::Empty => 0,
            TileType::Goal => 1,
            TileType::Button => 2,
            TileType::Flag => 3,
        }
    }
}

/// A map cell packed in one byte: four wall bits above a type code.
#[derive(Clone, Copy, Debug, PartialEq, Eq, Structural)]
pub struct Tile(u8);

impl Tile {
    /// The byte that encodes this tile.
    pub closed spec fn raw(self) -> u8 {
        self.0
    }

    pub open spec fn wall_top(self) -> bool {
        self.raw() & WALL_TOP != 0
    }

    pub open spec fn wall_right(self) -> bool {
        self.raw() & WALL_RIGHT != 0
    }

    pub open spec fn wall_bottom(self) -> bool {
        self.raw() & WALL_BOTTOM != 0
    }

    pub open spec fn wall_left(self) -> bool {
        self.raw() & WALL_LEFT != 0
    }

    pub open spec fn kind(self) -> TileType {
        TileType::from_bits(self.raw())
    }

    /// A tile whose byte is `walls` with the type code of `tile_type` set in.
    pub fn new(walls: u8, tile_type: TileType) -> (t: Tile)
        ensures
            t.raw() == walls | tile_type.code(),
    {
        Tile(walls | tile_type.as_u8())
    }

    pub fn has_wall_top(self) -> (b: bool)
        ensures
            b == self.wall_top(),
    {
        self.0 & WALL_TOP != 0
    }

    pub fn has_wall_right(self) -> (b: bool)
        ensures
            b == self.wall_right(),
    {
        self.0 & WALL_RIGHT != 0
    }

    pub fn has_wall_bottom(self) -> (b: bool)
        ensures
            b == self.wall_bottom(),
    {
        self.0 & WALL_BOTTOM != 0
    }

    pub fn has_wall_left(self) -> (b: bool)
        ensures
            b == self.wall_left(),
    {
        self.0 & WALL_LEFT != 0
    }

    pub fn tile_type(self) -> (t: TileType)
        ensures
            t == self.kind(),
    {
        TileType::from_u8(self.0)
    }
}

/// A tile built from wall bits and a type keeps both: each wall flag is the
/// matching bit of `walls`, and when `walls` leaves the type bits clear the
/// tile reads back the type it was given.
pub proof fn lemma_tile_new_fields(walls: u8, tile_type: TileType)
    ensures
        ((walls | tile_type.code()) & WALL_TOP != 0) == (walls & WALL_TOP != 0),
        ((walls | tile_type.code()) & WALL_RIGHT != 0) == (walls & WALL_RIGHT != 0),
        ((walls | tile_type.code()) & WALL_BOTTOM != 0) == (walls & WALL_BOTTOM != 0),
        ((walls | tile_type.code()) & WALL_LEFT != 0) == (walls & WALL_LEFT != 0),
        walls & TYPE_MASK == 0 ==> TileType::from_bits(walls | tile_type.code()) == tile_type,
{
    let c = tile_type.code();
    assert(c <= 3);
    assert(c <= 3 ==> ((walls | c) & 0x80u8 != 0) == (walls & 0x80u8 != 0)) by (bit_vector);
    assert(c <= 3 ==> ((walls | c) & 0x40u8 != 0) == (walls & 0x40u8 != 0)) by (bit_vector);
    assert(c <= 3 ==> ((walls | c) & 0x20u8 != 0) == (walls & 0x20u8 != 0)) by (bit_vector);
    assert(c <= 3 ==> ((walls | c) & 0x10u8 != 0) == (walls & 0x10u8 != 0)) by (bit_vector);
    assert(c <= 3 && walls & 0x0Fu8 == 0 ==> (walls | c) & 0x0Fu8 == c) by (bit_vector);
}

/// The byte of the tile at column `x`, row `y` of a map `w` tiles wide whose
/// walls and types are given row by row.
pub open spec fn grid_tile_bits(walls: Seq<u8>, types: Seq<u8>, w: int, x: int, y: int) -> u8 {
    walls[y * w + x] | TileType::from_bits(types[y * w + x]).code()
}

proof fn lemma_grid_index(w: int, h: int, x: int, y: int)
    requires
        0 <= x < w,
        0 <= y < h,
    ensures
        0 <= y * w + x < w * h,
        y * w + x + 1 <= w * h,
{
    assert(y * w + x < w * h) by (nonlinear_arith)
        requires
            0 <= x < w,
            0 <= y < h,
    ;
    assert(0 <= y * w) by (nonlinear_arith)
        requires
            0 <= y,
            0 <= w,
    ;
}

/// A rectangular grid of tiles, stored row by row.
#[derive(Clone, Debug)]
pub struct TileMap {
    pub width: usize,
    pub height: usize,
    pub tiles: Vec<Vec<Tile>>,
}

impl TileMap {
    /// Every one of the `height` rows holds `width` tiles.
    pub open spec fn wf(self) -> bool {
        &&& self.tiles@.len() == self.height
        &&& forall|y: int| 0 <= y < self.height ==> #[trigger] self.tiles@[y]@.len() == self.width
    }

    pub open spec fn in_bounds(self, pos: MapPos) -> bool {
        pos.x < self.width && pos.y < self.height
    }

    /// The tile at column `x`, row `y`.
    pub open spec fn tile(self, x: int, y: int) -> Tile {
        self.tiles@[y]@[x]
    }

    /// Whether `pos` names a stored tile.
    pub open spec fn has_tile(self, pos: MapPos) -> bool {
        pos.y < self.tiles@.len() && pos.x < self.tiles@[pos.y as int]@.len()
    }

    /// Builds a `grid_size.0` by `grid_size.1` map whose tile at `(x, y)`
    /// carries the wall bits `walls[y * width + x]` and the type decoded from
    /// `types[y * width + x]`. Both vectors must hold exactly one entry per tile.
    pub fn new(grid_size: (usize, usize), walls: Vec<u8>, types: Vec<u8>) -> (m: TileMap)
        requires
            walls@.len() == grid_size.0 * grid_size.1,
            types@.len() == grid_size.0 * grid_size.1,
        ensures
            m.width == grid_size.0,
            m.height == grid_size.1,
            m.wf(),
            forall|x: int, y: int|
                0 <= x < m.width && 0 <= y < m.height ==> (#[trigger] m.tile(x, y)).raw()
                    == grid_tile_bits(walls@, types@, m.width as int, x, y),
    {
        let width = grid_size.0;
        let height = grid_size.1;
        let n_walls: usize = walls.len();
        let mut tiles: Vec<Vec<Tile>> = Vec::with_capacity(height);
        let mut y: usize = 0;
        while y < height
            invariant
                y <= height,
                width * height <= usize::MAX,
                walls@.len() == width * height,
                types@.len() == width * height,
                tiles@.len() == y,
                forall|yy: int| 0 <= yy < y ==> #[trigger] tiles@[yy]@.len() == width,
                forall|xx: int, yy: int|
                    0 <= xx < width && 0 <= yy < y ==> (#[trigger] tiles@[yy]@[xx]).raw()
                        == grid_tile_bits(walls@, types@, width as int, xx, yy),
            decreases height - y,
        {
            let mut row: Vec<Tile> = Vec::with_capacity(width);
            let mut x: usize = 0;
            while x < width
                invariant
                    x <= width,
                    y < height,
                    width * height <= usize::MAX,
                    walls@.len() == width * height,
                    types@.len() == width * height,
                    row@.len() == x,
                    forall|xx: int|
                        0 <= xx < x ==> (#[trigger] row@[xx]).raw() == grid_tile_bits(
                            walls@,
                            types@,
                            width as int,
                            xx,
                            y as int,
                        ),
                decreases width - x,
            {
                proof {
                    lemma_grid_index(width as int, height as int, x as int, y as int);
                }
                let i = y * width + x;
                row.push(Tile::new(walls[i], TileType::from_u8(types[i])));
                x = x + 1;
            }
            tiles.push(row);
            y = y + 1;
        }
        TileMap { width, height, tiles }
    }

    /// The tile at `pos`, or `None` when `pos` lies outside the stored rows.
    pub fn get(&self, pos: MapPos) -> (t: Option<Tile>)
        ensures
            t == (if self.has_tile(pos) {
                Some(self.tile(pos.x as int, pos.y as int))
            } else {
                None
            }),
    {
        let y = pos.y as usize;
        let x = pos.x as usize;
        if y < self.tiles.len() && x < self.tiles[y].len() {
            Some(self.tiles[y][x])
        } else {
            None
        }
    }
}

/// A tile position: column `x`, row `y`.
#[derive(Clone, Copy, Debug, PartialEq, Eq, Structural)]
pub struct MapPos {
    pub x: u16,
    pub y: u16,
}

impl MapPos {
    pub fn new(x: u16, y: u16) -> (p: MapPos)
        ensures
            p == (MapPos { x, y }),
    {
        MapPos { x, y }
    }

    /// Whether `moved` can run without failing: it reads the tile under the
    /// tank unless the tank already stands on the edge it moves toward, and
    /// one step down or right must stay a `u16`.
    pub open spec fn can_move(self, map: TileMap, dir: Direction) -> bool {
        match dir {
            Direction::Up => self.y == 0 || map.has_tile(self),
            Direction::Down => (map.height as u16) != 0 && (self.y == (map.height as u16) - 1 || (
            map.has_tile(self) && (map.tile(self.x as int, self.y as int).wall_bottom() || self.y
                < u16::MAX))),
            Direction::Left => self.x == 0 || map.has_tile(self),
            Direction::Right => (map.width as u16) != 0 && (self.x == (map.width as u16) - 1 || (
            map.has_tile(self) && (map.tile(self.x as int, self.y as int).wall_right() || self.x
                < u16::MAX))),
        }
    }

    /// Where a tank at `self` ends up after trying one step toward `dir`:
    /// it stays put at the map's edge (the edge is taken from the map's
    /// dimensions cut to 16 bits) or when the tile it stands on has a wall on
    /// that side, and otherwise moves one tile.
    pub open spec fn step(self, map: TileMap, dir: Direction) -> MapPos {
        let here = map.tile(self.x as int, self.y as int);
        match dir {
            Direction::Up => if self.y == 0 || here.wall_top() {
                self
            } else {
                MapPos { x: self.x, y: (self.y - 1) as u16 }
            },
            Direction::Down => if self.y == (map.height as u16) - 1 || here.wall_bottom() {
                self
            } else {
                MapPos { x: self.x, y: (self.y + 1) as u16 }
            },
            Direction::Left => if self.x == 0 || here.wall_left() {
                self
            } else {
                MapPos { x: (self.x - 1) as u16, y: self.y }
            },
            Direction::Right => if self.x == (map.width as u16) - 1 || here.wall_right() {
                self
            } else {
                MapPos { x: (self.x + 1) as u16, y: self.y }
            },
        }
    }

    /// Tries to move one tile toward `dir`; see `step`.
    pub fn moved(self, map: &TileMap, dir: Direction) -> (p: MapPos)
        requires
            self.can_move(*map, dir),
        ensures
            p == self.step(*map, dir),
    {
        match dir {
            Direction::Up => {
                if self.y == 0 || map.get(self).unwrap().has_wall_top() {
                    MapPos::new(self.x, self.y)
                } else {
                    MapPos::new(self.x, self.y - 1)
                }
            },
            Direction::Down => {
                if self.y == map.height as u16 - 1 || map.get(self).unwrap().has_wall_bottom() {
                    MapPos::new(self.x, self.y)
                } else {
                    MapPos::new(self.x, self.y + 1)
                }
            },
            Direction::Left => {
                if self.x == 0 || map.get(self).unwrap().has_wall_left() {
                    MapPos::new(self.x, self.y)
                } else {
                    MapPos::new(self.x - 1, self.y)
                }
            },
            Direction::Right => {
                if self.x == map.width as u16 - 1 || map.get(self).unwrap().has_wall_right() {
                    MapPos::new(self.x, self.y)
                } else {
                    MapPos::new(self.x + 1, self.y)
                }
            },
        }
    }
}

/// On a well-formed map, a position names a stored tile exactly when it lies
/// within the map's width and height, so `get` finds a tile there and only there.
pub proof fn lemma_has_tile_iff_in_bounds(map: TileMap, pos: MapPos)
    requires
        map.wf(),
    ensures
        map.has_tile(pos) <==> map.in_bounds(pos),
{
    if pos.y < map.height {
        assert(map.tiles@[pos.y as int]@.len() == map.width);
    }
}

/// On a well-formed map whose sides fit in 16 bits, a tank standing on the map
/// can always try any move.
pub proof fn lemma_can_move_on_map(pos: MapPos, map: TileMap, dir: Direction)
    requires
        map.wf(),
        map.in_bounds(pos),
        map.width <= u16::MAX,
        map.height <= u16::MAX,
    ensures
        pos.can_move(map, dir),
{
    assert(map.tiles@[pos.y as int]@.len() == map.width);
    assert((map.height as u16) == map.height);
    assert((map.width as u16) == map.width);
}

/// A move never takes a tank off a well-formed map.
pub proof fn lemma_step_stays_on_map(pos: MapPos, map: TileMap, dir: Direction)
    requires
        map.wf(),
        map.in_bounds(pos),
        pos.can_move(map, dir),
    ensures
        map.in_bounds(pos.step(map, dir)),
{
    assert(map.tiles@[pos.y as int]@.len() == map.width);
    if map.height <= u16::MAX {
        assert((map.height as u16) == map.height);
    }
    if map.width <= u16::MAX {
        assert((map.width as u16) == map.width);
    }
}

/// Each type reads back from its own code, and no two types share a code.
pub proof fn lemma_tile_type_codes(t: TileType, u: TileType)
    ensures
        t.code() < 16,
        TileType::from_bits(t.code()) == t,
        t.code() == u.code() ==> t == u,
{
    let c = t.code();
    assert(c <= 3);
    assert(c <= 3 ==> c & 0x0Fu8 == c) by (bit_vector);
}

/// On a well-formed map whose sides fit in 16 bits, a tank stays put
/// exactly when it stands on the edge it moves toward or its tile has a wall
/// on that side; otherwise it moves.
pub proof fn lemma_step_moves_unless_blocked(pos: MapPos, map: TileMap, dir: Direction)
    requires
        map.wf(),
        map.in_bounds(pos),
        map.width <= u16::MAX,
        map.height <= u16::MAX,
    ensures
        ({
            let here = map.tile(pos.x as int, pos.y as int);
            let blocked = match dir {
                Direction::Up => pos.y == 0 || here.wall_top(),
                Direction::Down => pos.y + 1 == map.height || here.wall_bottom(),
                Direction::Left => pos.x == 0 || here.wall_left(),
                Direction::Right => pos.x + 1 == map.width || here.wall_right(),
            };
            (pos.step(map, dir) == pos) == blocked
        }),
{
    assert((map.height as u16) == map.height);
    assert((map.width as u16) == map.width);
}

/// A move changes the position by at most one tile, along `dir`, and a wall
/// on that side of the current tile keeps the tank where it is.
pub proof fn lemma_step_is_one_tile(pos: MapPos, map: TileMap, dir: Direction)
    requires
        pos.can_move(map, dir),
    ensures
        ({
            let p = pos.step(map, dir);
            match dir {
                Direction::Up => p == pos || (p.x == pos.x && p.y + 1 == pos.y),
                Direction::Down => p == pos || (p.x == pos.x && p.y == pos.y + 1),
                Direction::Left => p == pos || (p.y == pos.y && p.x + 1 == pos.x),
                Direction::Right => p == pos || (p.y == pos.y && p.x == pos.x + 1),
            }
        }),
        map.tile(pos.x as int, pos.y as int).wall_top() ==> pos.step(map, Direction::Up) == pos,
        map.tile(pos.x as int, pos.y as int).wall_bottom() ==> pos.step(map, Direction::Down)
            == pos,
        map.tile(pos.x as int, pos.y as int).wall_left() ==> pos.step(map, Direction::Left)
            == pos,
        map.tile(pos.x as int, pos.y as int).wall_right() ==> pos.step(map, Direction::Right)
            == pos,
{
}

/// Shorthand for the top-wall bit in the map data below.
pub const T: u8 = 0x80;
/// Shorthand for the right-wall bit in the map data below.
pub const R: u8 = 0x40;
/// Shorthand for the bottom-wall bit in the map data below.
pub const B: u8 = 0x20;
/// Shorthand for the left-wall bit in the map data below.
pub const L: u8 = 0x10;

/// Columns of the map a game is played on.
pub const GRID_WIDTH: u16 = 5;
/// Rows of the map a game is played on.
pub const GRID_HEIGHT: u16 = 5;

/// Wall bits of the first map, row by row: a walled border with a wall
/// segment below (2, 2) and above (2, 3).
pub open spec fn first_map_walls() -> Seq<u8> {
    seq![
        T | L, T, T, T, T | R,
        L, 0, 0, 0, R,
        L, 0, B, 0, R,
        L, 0, T, 0, R,
        L | B, B, B, B, B | R,
    ]
}

/// Type codes of the first map, row by row: a flag at (1, 0), the goal at
/// (4, 0) and buttons at (1, 2) and (3, 2).
pub open spec fn first_map_types() -> Seq<u8> {
    seq![
        0x0, 0x3, 0x0, 0x0, 0x1,
        0x0, 0x0, 0x0, 0x0, 0x0,
        0x0, 0x2, 0x0, 0x2, 0x0,
        0x0, 0x0, 0x0, 0x0, 0x0,
        0x0, 0x0, 0x0, 0x0, 0x0,
    ]
}

/// Wall bits of the tile at `(x, y)` on the border of a `w` by `h` map with no
/// inner walls.
pub open spec fn border_walls(w: int, h: int, x: int, y: int) -> u8 {
    (if y == 0 { T } else { 0u8 }) | (if x == w - 1 { R } else { 0u8 }) | (if y == h - 1 {
        B
    } else {
        0u8
    }) | (if x == 0 { L } else { 0u8 })
}

/// Wall bits of an open `w` by `h` map with walls only on its border.
fn border_wall_bits(w: usize, h: usize) -> (walls: Vec<u8>)
    requires
        w * h <= usize::MAX,
    ensures
        walls@.len() == w * h,
        forall|x: int, y: int|
            0 <= x < w && 0 <= y < h ==> #[trigger] walls@[y * w + x] == border_walls(
                w as int,
                h as int,
                x,
                y,
            ),
{
    let mut walls: Vec<u8> = Vec::new();
    let mut y: usize = 0;
    while y < h
        invariant
            y <= h,
            w * h <= usize::MAX,
            walls@.len() == y * w,
            forall|xx: int, yy: int|
                0 <= xx < w && 0 <= yy < y ==> #[trigger] walls@[yy * w + xx] == border_walls(
                    w as int,
                    h as int,
                    xx,
                    yy,
                ),
        decreases h - y,
    {
        let mut x: usize = 0;
        while x < w
            invariant
                x <= w,
                y < h,
                w * h <= usize::MAX,
                walls@.len() == y * w + x,
                forall|xx: int, yy: int|
                    0 <= xx < w && 0 <= yy <= y && yy * w + xx < walls@.len()
                        ==> #[trigger] walls@[yy * w + xx] == border_walls(
                        w as int,
                        h as int,
                        xx,
                        yy,
                    ),
            decreases w - x,
        {
            proof {
                lemma_grid_index(w as int, h as int, x as int, y as int);
            }
            let top: u8 = if y == 0 { T } else { 0 };
            let right: u8 = if x == w - 1 { R } else { 0 };
            let bottom: u8 = if y == h - 1 { B } else { 0 };
            let left: u8 = if x == 0 { L } else { 0 };
            let ghost before = walls@;
            walls.push(top | right | bottom | left);
            proof {
                assert forall|xx: int, yy: int|
                    0 <= xx < w && 0 <= yy <= y && yy * w + xx < walls@.len() implies
                    #[trigger] walls@[yy * w + xx] == border_walls(w as int, h as int, xx, yy) by {
                    if yy * w + xx == before.len() {
                        lemma_same_cell(w as int, xx, yy, x as int, y as int);
                    }
                }
            }
            x = x + 1;
        }
        proof {
            assert(walls@.len() == (y + 1) * w) by (nonlinear_arith)
                requires
                    walls@.len() == y * w + w,
            ;
            assert(w * (y + 1) == y * w + w) by (nonlinear_arith);
            assert forall|xx: int, yy: int|
                0 <= xx < w && 0 <= yy < y + 1 implies #[trigger] walls@[yy * w + xx]
                == border_walls(w as int, h as int, xx, yy) by {
                lemma_grid_index(w as int, (y + 1) as int, xx, yy);
            }
        }
        y = y + 1;
    }
    assert(y * w == w * h) by (nonlinear_arith)
        requires
            y == h,
    ;
    walls
}

proof fn lemma_same_cell(w: int, x1: int, y1: int, x2: int, y2: int)
    requires
        0 <= x1 < w,
        0 <= x2 < w,
        0 <= y1,
        0 <= y2,
        y1 * w + x1 == y2 * w + x2,
    ensures
        x1 == x2,
        y1 == y2,
{
    if y1 < y2 {
        assert(y1 * w + w <= y2 * w) by (nonlinear_arith)
            requires
                y1 < y2,
                0 <= w,
        ;
    } else if y2 < y1 {
        assert(y2 * w + w <= y1 * w) by (nonlinear_arith)
            requires
                y2 < y1,
                0 <= w,
        ;
    }
}

/// Which walls each wall byte used by the first built-in map holds.
proof fn lemma_first_map_wall_bytes()
    by (bit_vector)
    ensures
        ((T | L) & T != 0) == true,
        ((T | L) & R != 0) == false,
        ((T | L) & B != 0) == false,
        ((T | L) & L != 0) == true,
        ((T) & T != 0) == true,
        ((T) & R != 0) == false,
        ((T) & B != 0) == false,
        ((T) & L != 0) == false,
        ((T | R) & T != 0) == true,
        ((T | R) & R != 0) == true,
        ((T | R) & B != 0) == false,
        ((T | R) & L != 0) == false,
        ((L) & T != 0) == false,
        ((L) & R != 0) == false,
        ((L) & B != 0) == false,
        ((L) & L != 0) == true,
        ((0u8) & T != 0) == false,
        ((0u8) & R != 0) == false,
        ((0u8) & B != 0) == false,
        ((0u8) & L != 0) == false,
        ((R) & T != 0) == false,
        ((R) & R != 0) == true,
        ((R) & B != 0) == false,
        ((R) & L != 0) == false,
        ((B) & T != 0) == false,
        ((B) & R != 0) == false,
        ((B) & B != 0) == true,
        ((B) & L != 0) == false,
        ((L | B) & T != 0) == false,
        ((L | B) & R != 0) == false,
        ((L | B) & B != 0) == true,
        ((L | B) & L != 0) == true,
        ((B | R) & T != 0) == false,
        ((B | R) & R != 0) == true,
        ((B | R) & B != 0) == true,
        ((B | R) & L != 0) == false,
{
}

/// In the first built-in map, every wall between two neighbouring tiles is
/// marked on both of them.
proof fn lemma_first_map_wall_bits_agree()
    ensures
        forall|x: int, y: int|
            0 <= x < 4 && 0 <= y < 5 ==> ((#[trigger] first_map_walls()[y * 5 + x]) & R != 0) == (
            first_map_walls()[y * 5 + x + 1] & L != 0),
        forall|x: int, y: int|
            0 <= x < 5 && 0 <= y < 4 ==> ((#[trigger] first_map_walls()[y * 5 + x]) & B != 0) == (
            first_map_walls()[y * 5 + x + 5] & T != 0),
{
    lemma_first_map_wall_bytes();
    let w = first_map_walls();
    assert(w[0] == T | L);
    assert(w[1] == T);
    assert(w[2] == T);
    assert(w[3] == T);
    assert(w[4] == T | R);
    assert(w[5] == L);
    assert(w[6] == 0u8);
    assert(w[7] == 0u8);
    assert(w[8] == 0u8);
    assert(w[9] == R);
    assert(w[10] == L);
    assert(w[11] == 0u8);
    assert(w[12] == B);
    assert(w[13] == 0u8);
    assert(w[14] == R);
    assert(w[15] == L);
    assert(w[16] == 0u8);
    assert(w[17] == T);
    assert(w[18] == 0u8);
    assert(w[19] == R);
    assert(w[20] == L | B);
    assert(w[21] == B);
    assert(w[22] == B);
    assert(w[23] == B);
    assert(w[24] == B | R);
    assert forall|x: int, y: int| 0 <= x < 4 && 0 <= y < 5 implies ((#[trigger] w[y * 5 + x]) & R
        != 0) == (w[y * 5 + x + 1] & L != 0) by {
        assert(x == 0 || x == 1 || x == 2 || x == 3);
        assert(y == 0 || y == 1 || y == 2 || y == 3 || y == 4);
    }
    assert forall|x: int, y: int| 0 <= x < 5 && 0 <= y < 4 implies ((#[trigger] w[y * 5 + x]) & B
        != 0) == (w[y * 5 + x + 5] & T != 0) by {
        assert(x == 0 || x == 1 || x == 2 || x == 3 || x == 4);
        assert(y == 0 || y == 1 || y == 2 || y == 3);
    }
}

/// Which walls a border tile holds, given which of its four wall bits are set.
proof fn lemma_border_wall_bits(t: u8, r: u8, b: u8, l: u8)
    by (bit_vector)
    requires
        t == T || t == 0,
        r == R || r == 0,
        b == B || b == 0,
        l == L || l == 0,
    ensures
        ((t | r | b | l) & T != 0) == (t == T),
        ((t | r | b | l) & R != 0) == (r == R),
        ((t | r | b | l) & B != 0) == (b == B),
        ((t | r | b | l) & L != 0) == (l == L),
{
}

/// The wall flags of a border tile of a `w` by `h` map.
proof fn lemma_border_walls_flags(w: int, h: int, x: int, y: int)
    ensures
        (border_walls(w, h, x, y) & T != 0) == (y == 0),
        (border_walls(w, h, x, y) & R != 0) == (x == w - 1),
        (border_walls(w, h, x, y) & B != 0) == (y == h - 1),
        (border_walls(w, h, x, y) & L != 0) == (x == 0),
{
    lemma_border_wall_bits(
        if y == 0 { T } else { 0u8 },
        if x == w - 1 { R } else { 0u8 },
        if y == h - 1 { B } else { 0u8 },
        if x == 0 { L } else { 0u8 },
    );
}

/// Neighbouring tiles agree about the wall between them: a wall on one
/// tile's right is a wall on its right neighbour's left, and a wall below a
/// tile is a wall above the tile under it.
pub open spec fn walls_agree(map: TileMap) -> bool {
    &&& forall|x: int, y: int|
        0 <= x && x + 1 < map.width && 0 <= y < map.height ==> (#[trigger] map.tile(
            x,
            y,
        )).wall_right() == map.tile(x + 1, y).wall_left()
    &&& forall|x: int, y: int|
        0 <= x < map.width && 0 <= y && y + 1 < map.height ==> (#[trigger] map.tile(
            x,
            y,
        )).wall_bottom() == map.tile(x, y + 1).wall_top()
}

/// The direction that undoes a move toward `dir`.
pub open spec fn opposite(dir: Direction) -> Direction {
    match dir {
        Direction::Up => Direction::Down,
        Direction::Down => Direction::Up,
        Direction::Left => Direction::Right,
        Direction::Right => Direction::Left,
    }
}

/// On a well-formed map whose neighbouring tiles agree about their walls
/// (as on both built-in maps), a move that went somewhere is undone by a
/// move the opposite way.
pub proof fn lemma_move_back(pos: MapPos, map: TileMap, dir: Direction)
    requires
        map.wf(),
        walls_agree(map),
        map.in_bounds(pos),
        map.width <= u16::MAX,
        map.height <= u16::MAX,
        pos.step(map, dir) != pos,
    ensures
        pos.step(map, dir).step(map, opposite(dir)) == pos,
{
    assert((map.height as u16) == map.height);
    assert((map.width as u16) == map.width);
    let x = pos.x as int;
    let y = pos.y as int;
    match dir {
        Direction::Up => {
            assert(map.tile(x, y - 1).wall_bottom() == map.tile(x, y).wall_top());
        },
        Direction::Down => {
            assert(map.tile(x, y).wall_bottom() == map.tile(x, y + 1).wall_top());
        },
        Direction::Left => {
            assert(map.tile(x - 1, y).wall_right() == map.tile(x, y).wall_left());
        },
        Direction::Right => {
            assert(map.tile(x, y).wall_right() == map.tile(x + 1, y).wall_left());
        },
    }
}

/// The first built-in map: 5 by 5, with a flag, a goal, two buttons and a
/// short inner wall.
fn first_map() -> (map: TileMap)
    ensures
        map.width == 5,
        map.height == 5,
        map.wf(),
        walls_agree(map),
        forall|x: int, y: int|
            0 <= x < 5 && 0 <= y < 5 ==> (#[trigger] map.tile(x, y)).raw() == grid_tile_bits(
                first_map_walls(),
                first_map_types(),
                5,
                x,
                y,
            ),
{
    let walls0: Vec<u8> = vec![
        T | L, T, T, T, T | R,
        L, 0, 0, 0, R,
        L, 0, B, 0, R,
        L, 0, T, 0, R,
        L | B, B, B, B, B | R,
    ];
    let types0: Vec<u8> = vec![
        0x0, 0x3, 0x0, 0x0, 0x1,
        0x0, 0x0, 0x0, 0x0, 0x0,
        0x0, 0x2, 0x0, 0x2, 0x0,
        0x0, 0x0, 0x0, 0x0, 0x0,
        0x0, 0x0, 0x0, 0x0, 0x0,
    ];
    assert(walls0@ =~= first_map_walls());
    assert(types0@ =~= first_map_types());
    assert(walls0@.len() == 25 && types0@.len() == 25);
    let grid: (usize, usize) = (5, 5);
    assert(grid.0 * grid.1 == 25) by (nonlinear_arith)
        requires
            grid.0 == 5,
            grid.1 == 5,
    ;
    let map = TileMap::new(grid, walls0, types0);
    proof {
        lemma_first_map_wall_bits_agree();
        let fw = first_map_walls();
        let ft = first_map_types();
        assert forall|x: int, y: int|
            0 <= x && x + 1 < map.width && 0 <= y < map.height implies (#[trigger] map.tile(
            x,
            y,
        )).wall_right() == map.tile(x + 1, y).wall_left() by {
            lemma_grid_index(5, 5, x, y);
            lemma_grid_index(5, 5, x + 1, y);
            assert(y * 5 + (x + 1) == y * 5 + x + 1);
            lemma_tile_new_fields(fw[y * 5 + x], TileType::from_bits(ft[y * 5 + x]));
            lemma_tile_new_fields(fw[y * 5 + x + 1], TileType::from_bits(ft[y * 5 + x + 1]));
        }
        assert forall|x: int, y: int|
            0 <= x < map.width && 0 <= y && y + 1 < map.height implies (#[trigger] map.tile(
            x,
            y,
        )).wall_bottom() == map.tile(x, y + 1).wall_top() by {
            lemma_grid_index(5, 5, x, y);
            lemma_grid_index(5, 5, x, y + 1);
            assert((y + 1) * 5 + x == y * 5 + x + 5);
            lemma_tile_new_fields(fw[y * 5 + x], TileType::from_bits(ft[y * 5 + x]));
            lemma_tile_new_fields(fw[y * 5 + x + 5], TileType::from_bits(ft[y * 5 + x + 5]));
        }
    }
    map
}

/// The second built-in map: an open 25 by 25 map walled on its border.
fn second_map() -> (map: TileMap)
    ensures
        map.width == 25,
        map.height == 25,
        map.wf(),
        walls_agree(map),
        forall|x: int, y: int|
            0 <= x < 25 && 0 <= y < 25 ==> (#[trigger] map.tile(x, y)).raw() == border_walls(
                25,
                25,
                x,
                y,
            ),
{
    let walls1 = border_wall_bits(25, 25);
    let types1: Vec<u8> = vec![0u8; 625];
    let second = TileMap::new((25, 25), walls1, types1);
    proof {
        assert forall|x: int, y: int| 0 <= x < 25 && 0 <= y < 25 implies (#[trigger] second.tile(
            x,
            y,
        )).raw() == border_walls(25, 25, x, y) by {
            lemma_grid_index(25, 25, x, y);
            assert(types1@[y * 25 + x] == 0);
            assert(0u8 & TYPE_MASK == 0) by (bit_vector);
            let b = border_walls(25, 25, x, y);
            assert(b | 0u8 == b) by (bit_vector);
        }
        assert forall|x: int, y: int|
            0 <= x && x + 1 < second.width && 0 <= y < second.height implies (
        #[trigger] second.tile(x, y)).wall_right() == second.tile(x + 1, y).wall_left() by {
            lemma_border_walls_flags(25, 25, x, y);
            lemma_border_walls_flags(25, 25, x + 1, y);
        }
        assert forall|x: int, y: int|
            0 <= x < second.width && 0 <= y && y + 1 < second.height implies (
        #[trigger] second.tile(x, y)).wall_bottom() == second.tile(x, y + 1).wall_top() by {
            lemma_border_walls_flags(25, 25, x, y);
            lemma_border_walls_flags(25, 25, x, y + 1);
        }
    }
    second
}

/// The built-in maps: a small 5 by 5 map with a flag, a goal, two buttons
/// and a short inner wall, then an open 25 by 25 map walled on its border.
pub fn get_map_list() -> (maps: [TileMap; 2])
    ensures
        maps@[0].width == 5,
        maps@[0].height == 5,
        maps@[0].wf(),
        walls_agree(maps@[0]),
        forall|x: int, y: int|
            0 <= x < 5 && 0 <= y < 5 ==> (#[trigger] maps@[0].tile(x, y)).raw() == grid_tile_bits(
                first_map_walls(),
                first_map_types(),
                5,
                x,
                y,
            ),
        maps@[1].width == 25,
        maps@[1].height == 25,
        maps@[1].wf(),
        walls_agree(maps@[1]),
        forall|x: int, y: int|
            0 <= x < 25 && 0 <= y < 25 ==> (#[trigger] maps@[1].tile(x, y)).raw()
                == border_walls(25, 25, x, y),
{
    [first_map(), second_map()]
}

/// The map a game is played on: the first built-in map.
pub fn hardcoded_map() -> (map: TileMap)
    ensures
        map.width == GRID_WIDTH,
        map.height == GRID_HEIGHT,
        map.wf(),
        walls_agree(map),
        forall|x: int, y: int|
            0 <= x < 5 && 0 <= y < 5 ==> (#[trigger] map.tile(x, y)).raw() == grid_tile_bits(
                first_map_walls(),
                first_map_types(),
                5,
                x,
                y,
            ),
{
    first_map()
}

} // verus!
