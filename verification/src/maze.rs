use vstd::prelude::*;

verus! {

/// Columns of the maze grid.
pub const MAZE_WIDTH: i32 = 10;
/// Rows of the maze grid.
pub const MAZE_HEIGHT: i32 = 10;

/// A maze cell: open floor or a wall.
#[derive(Clone, Copy, Debug, PartialEq, Eq, Structural)]
pub enum Tile {
    Empty,
    Wall,
}

/// A cell of the maze grid; coordinates may fall outside it.
#[derive(Clone, Copy, Debug, PartialEq, Eq, Structural)]
pub struct GridPosition {
    pub x: i32,
    pub y: i32,
}

impl GridPosition {
    pub fn new(x: i32, y: i32) -> (p: GridPosition)
        ensures
            p == (GridPosition { x, y }),
    {
        GridPosition { x, y }
    }
}

/// Whether `(x, y)` is one of the maze's walls: rows 3 to 5 of column 5 and
/// rows 3 and 4 of column 8.
pub open spec fn is_maze_wall(x: int, y: int) -> bool {
    (x == 5 && 3 <= y <= 5) || (x == 8 && 3 <= y <= 4)
}

/// Whether `pos` lies on the maze grid.
pub open spec fn on_grid(pos: GridPosition) -> bool {
    0 <= pos.x < MAZE_WIDTH && 0 <= pos.y < MAZE_HEIGHT
}

/// A two-player maze with a start and a goal for each player.
pub struct Maze {
    tiles: Vec<Vec<Tile>>,
    p1_start: GridPosition,
    p1_goal: GridPosition,
    p2_start: GridPosition,
    p2_goal: GridPosition,
}

/// The starts and goals of a maze.
pub struct MazeView {
    pub p1_start: GridPosition,
    pub p1_goal: GridPosition,
    pub p2_start: GridPosition,
    pub p2_goal: GridPosition,
}

impl View for Maze {
    type V = MazeView;

    closed spec fn view(&self) -> MazeView {
        MazeView {
            p1_start: self.p1_start,
            p1_goal: self.p1_goal,
            p2_start: self.p2_start,
            p2_goal: self.p2_goal,
        }
    }
}

impl Maze {
    /// The grid holds `MAZE_HEIGHT` rows of `MAZE_WIDTH` cells, walls exactly
    /// where `is_maze_wall` puts them.
    #[verifier::type_invariant]
    spec fn wf(self) -> bool {
        &&& self.tiles@.len() == MAZE_HEIGHT
        &&& forall|y: int| 0 <= y < MAZE_HEIGHT ==> #[trigger] self.tiles@[y]@.len() == MAZE_WIDTH
        &&& forall|x: int, y: int|
            0 <= x < MAZE_WIDTH && 0 <= y < MAZE_HEIGHT ==> #[trigger] self.tiles@[y]@[x] == (
            if is_maze_wall(x, y) {
                Tile::Wall
            } else {
                Tile::Empty
            })
    }

    /// The maze: open floor with two wall segments; player 1 starts top left
    /// and aims for the bottom right, player 2 starts top right and aims for
    /// the bottom left.
    pub fn new() -> (m: Maze)
        ensures
            m@.p1_start == (GridPosition { x: 0, y: 0 }),
            m@.p1_goal == (GridPosition { x: 9, y: 9 }),
            m@.p2_start == (GridPosition { x: 9, y: 0 }),
            m@.p2_goal == (GridPosition { x: 0, y: 9 }),
    {
        let mut tiles: Vec<Vec<Tile>> = Vec::new();
        let mut y: usize = 0;
        while y < 10
            invariant
                y <= 10,
                tiles@.len() == y,
                forall|yy: int| 0 <= yy < y ==> #[trigger] tiles@[yy]@.len() == MAZE_WIDTH,
                forall|xx: int, yy: int|
                    0 <= xx < MAZE_WIDTH && 0 <= yy < y ==> #[trigger] tiles@[yy]@[xx] == (
                    if is_maze_wall(xx, yy) {
                        Tile::Wall
                    } else {
                        Tile::Empty
                    }),
            decreases 10 - y,
        {
            let mut row: Vec<Tile> = Vec::new();
            let mut x: usize = 0;
            while x < 10
                invariant
                    x <= 10,
                    y < 10,
                    row@.len() == x,
                    forall|xx: int|
                        0 <= xx < x ==> #[trigger] row@[xx] == (if is_maze_wall(xx, y as int) {
                            Tile::Wall
                        } else {
                            Tile::Empty
                        }),
                decreases 10 - x,
            {
                let wall = (x == 5 && 3 <= y && y <= 5) || (x == 8 && 3 <= y && y <= 4);
                row.push(if wall { Tile::Wall } else { Tile::Empty });
                x = x + 1;
            }
            tiles.push(row);
            y = y + 1;
        }
        Maze {
            tiles,
            p1_start: GridPosition::new(0, 0),
            p1_goal: GridPosition::new(MAZE_WIDTH - 1, MAZE_HEIGHT - 1),
            p2_start: GridPosition::new(MAZE_WIDTH - 1, 0),
            p2_goal: GridPosition::new(0, MAZE_HEIGHT - 1),
        }
    }

    /// The cell at `pos`: `None` off the grid, else a wall exactly where
    /// `is_maze_wall` puts one.
    pub fn tile_at(&self, pos: GridPosition) -> (t: Option<Tile>)
        ensures
            t == (if on_grid(pos) {
                Some(
                    if is_maze_wall(pos.x as int, pos.y as int) {
                        Tile::Wall
                    } else {
                        Tile::Empty
                    },
                )
            } else {
                None
            }),
            (t == Some(Tile::Wall)) <==> ((pos.x == 5 && pos.y == 3) || (pos.x == 5 && pos.y == 4)
                || (pos.x == 5 && pos.y == 5) || (pos.x == 8 && pos.y == 3) || (pos.x == 8 && pos.y
                == 4)),
    {
        proof {
            use_type_invariant(self);
        }
        if pos.x < 0 || pos.y < 0 || pos.x >= MAZE_WIDTH || pos.y >= MAZE_HEIGHT {
            return None;
        }
        Some(self.tiles[pos.y as usize][pos.x as usize])
    }

    /// Where player 1 starts.
    pub fn p1_start(&self) -> (p: GridPosition)
        ensures
            p == self@.p1_start,
    {
        self.p1_start
    }

    /// Where player 1 must reach.
    pub fn p1_goal(&self) -> (p: GridPosition)
        ensures
            p == self@.p1_goal,
    {
        self.p1_goal
    }

    /// Where player 2 starts.
    pub fn p2_start(&self) -> (p: GridPosition)
        ensures
            p == self@.p2_start,
    {
        self.p2_start
    }

    /// Where player 2 must reach.
    pub fn p2_goal(&self) -> (p: GridPosition)
        ensures
            p == self@.p2_goal,
    {
        self.p2_goal
    }
}

/// The maze has exactly five walls: rows 3 to 5 of column 5 and rows 3 and 4
/// of column 8; every other cell is open.
pub proof fn lemma_maze_walls(x: int, y: int)
    ensures
        is_maze_wall(x, y) <==> ((x == 5 && y == 3) || (x == 5 && y == 4) || (x == 5 && y == 5) || (
        x == 8 && y == 3) || (x == 8 && y == 4)),
{
}

} // verus!
