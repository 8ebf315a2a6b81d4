//! Maze cells, their walls, and the placement of a maze's cells in a chunk.
use vstd::prelude::*;
use vstd::string::StringExecFns;

use crate::layout::{calc_transform_pos, cell_coordinate, CELLS_PER_CHUNK, CELL_SIZE};

verus! {

/// One square of a maze and which of its four sides are walled.
#[derive(Clone, Copy, Debug)]
pub struct Cell {
    pub wall_top: bool,
    pub wall_bottom: bool,
    pub wall_left: bool,
    pub wall_right: bool,
}

impl Default for Cell {
    /// A cell with no walls.
    fn default() -> (res: Self)
        ensures
            !res.wall_top && !res.wall_bottom && !res.wall_left && !res.wall_right,
    {
        Cell { wall_top: false, wall_bottom: false, wall_left: false, wall_right: false }
    }
}

/// The position of a side in the order top, left, bottom, right.
pub open spec fn side_rank(side: WallSide) -> int {
    match side {
        WallSide::Top => 0,
        WallSide::Left => 1,
        WallSide::Bottom => 2,
        WallSide::Right => 3,
    }
}

/// A side of a cell.
#[derive(Clone, Copy, Debug, PartialEq, Eq)]
pub enum WallSide {
    Top,
    Left,
    Bottom,
    Right,
}

/// The walls of a cell, in the order in which they are built: top, left,
/// bottom, right.
pub open spec fn wall_sides(cell: Cell) -> Seq<WallSide> {
    (if cell.wall_top { seq![WallSide::Top] } else { seq![] })
        + (if cell.wall_left { seq![WallSide::Left] } else { seq![] })
        + (if cell.wall_bottom { seq![WallSide::Bottom] } else { seq![] })
        + (if cell.wall_right { seq![WallSide::Right] } else { seq![] })
}

impl Cell {
    /// The walls that stand around this cell, top, left, bottom, right.
    pub fn walls(&self) -> (res: Vec<WallSide>)
        ensures
            res@ == wall_sides(*self),
    {
        let mut res: Vec<WallSide> = Vec::new();
        if self.wall_top {
            res.push(WallSide::Top);
        }
        if self.wall_left {
            res.push(WallSide::Left);
        }
        if self.wall_bottom {
            res.push(WallSide::Bottom);
        }
        if self.wall_right {
            res.push(WallSide::Right);
        }
        assert(res@ =~= wall_sides(*self));
        res
    }
}

/// An axis of the world about which a wall is turned.
#[derive(Clone, Copy, Debug, PartialEq, Eq, Structural)]
pub enum Axis {
    X,
    Z,
}

/// How a wall stands relative to the centre of its cell: the offset of the
/// wall's centre, in world units, and the quarter turns (counter-clockwise)
/// that stand the floor-shaped wall up about `axis`.
#[derive(Clone, Copy, Debug, PartialEq, Eq, Structural)]
pub struct WallPlacement {
    pub dx: i64,
    pub dy: i64,
    pub dz: i64,
    pub axis: Axis,
    pub quarter_turns: u32,
}

/// Half the side of a cell, in world units.
pub open spec fn half_cell() -> int {
    (CELL_SIZE / 2) as int
}

/// Where the wall on `side` of a cell stands: on the edge of the cell,
/// raised by half its height, turned upright.
pub open spec fn wall_placement_spec(side: WallSide) -> WallPlacement {
    let h = half_cell() as i64;
    match side {
        WallSide::Top => WallPlacement { dx: h, dy: h, dz: 0, axis: Axis::Z, quarter_turns: 1 },
        WallSide::Left => WallPlacement { dx: 0, dy: h, dz: h, axis: Axis::X, quarter_turns: 3 },
        WallSide::Bottom => WallPlacement { dx: (-h) as i64, dy: h, dz: 0, axis: Axis::Z, quarter_turns: 3 },
        WallSide::Right => WallPlacement { dx: 0, dy: h, dz: (-h) as i64, axis: Axis::X, quarter_turns: 1 },
    }
}

/// Where the wall on `side` of a cell stands relative to the cell's centre.
pub fn wall_placement(side: WallSide) -> (res: WallPlacement)
    ensures
        res == wall_placement_spec(side),
{
    let h: i64 = (CELL_SIZE / 2) as i64;
    match side {
        WallSide::Top => WallPlacement { dx: h, dy: h, dz: 0, axis: Axis::Z, quarter_turns: 1 },
        WallSide::Left => WallPlacement { dx: 0, dy: h, dz: h, axis: Axis::X, quarter_turns: 3 },
        WallSide::Bottom => WallPlacement { dx: -h, dy: h, dz: 0, axis: Axis::Z, quarter_turns: 3 },
        WallSide::Right => WallPlacement { dx: 0, dy: h, dz: -h, axis: Axis::X, quarter_turns: 1 },
    }
}

/// The side facing `side` across a cell.
pub open spec fn opposite(side: WallSide) -> WallSide {
    match side {
        WallSide::Top => WallSide::Bottom,
        WallSide::Bottom => WallSide::Top,
        WallSide::Left => WallSide::Right,
        WallSide::Right => WallSide::Left,
    }
}

/// Opposite walls of a cell are mirror images through the cell's vertical
/// axis: opposite horizontal offsets, the same height, the same axis of
/// turning and turns that together make a full turn. Every wall stands on the
/// cell's edge, half a cell from its centre.
pub proof fn lemma_opposite_walls_mirror(side: WallSide)
    ensures
        ({
            let a = wall_placement_spec(side);
            let b = wall_placement_spec(opposite(side));
            &&& a.dx == -b.dx && a.dz == -b.dz && a.dy == b.dy
            &&& a.axis == b.axis && a.quarter_turns + b.quarter_turns == 4
            &&& (a.dx == 0) != (a.dz == 0)
            &&& a.dx + a.dz == half_cell() || a.dx + a.dz == -half_cell()
        }),
{
}

/// The name of the wall on `side` of a cell.
pub fn wall_name(side: WallSide) -> (res: String)
    ensures
        res@ == (match side {
            WallSide::Top => "Top Wall"@,
            WallSide::Left => "Left Wall"@,
            WallSide::Bottom => "Bottom Wall"@,
            WallSide::Right => "Right Wall"@,
        }),
{
    match side {
        WallSide::Top => String::from_str("Top Wall"),
        WallSide::Left => String::from_str("Left Wall"),
        WallSide::Bottom => String::from_str("Bottom Wall"),
        WallSide::Right => String::from_str("Right Wall"),
    }
}

/// The walls of a cell are exactly its walled sides, each once, in the
/// order top, left, bottom, right.
pub proof fn lemma_walls_are_the_cells_own(cell: Cell)
    ensures
        wall_sides(cell).contains(WallSide::Top) <==> cell.wall_top,
        wall_sides(cell).contains(WallSide::Left) <==> cell.wall_left,
        wall_sides(cell).contains(WallSide::Bottom) <==> cell.wall_bottom,
        wall_sides(cell).contains(WallSide::Right) <==> cell.wall_right,
        forall|i: int, j: int|
            0 <= i < j < wall_sides(cell).len() ==> side_rank(#[trigger] wall_sides(cell)[i]) < side_rank(
                #[trigger] wall_sides(cell)[j],
            ),
{
    let w = wall_sides(cell);
    let t: Seq<WallSide> = if cell.wall_top { seq![WallSide::Top] } else { seq![] };
    let l: Seq<WallSide> = if cell.wall_left { seq![WallSide::Left] } else { seq![] };
    let b: Seq<WallSide> = if cell.wall_bottom { seq![WallSide::Bottom] } else { seq![] };
    let r: Seq<WallSide> = if cell.wall_right { seq![WallSide::Right] } else { seq![] };
    assert(w =~= t + l + b + r);
    if cell.wall_top { assert(w[0] == WallSide::Top); }
    if cell.wall_left { assert(w[t.len() as int] == WallSide::Left); }
    if cell.wall_bottom { assert(w[(t.len() + l.len()) as int] == WallSide::Bottom); }
    if cell.wall_right { assert(w[(t.len() + l.len() + b.len()) as int] == WallSide::Right); }
    assert forall|i: int| 0 <= i < w.len() implies
        (i < t.len() ==> #[trigger] w[i] == WallSide::Top)
        && (t.len() <= i < t.len() + l.len() ==> w[i] == WallSide::Left)
        && (t.len() + l.len() <= i < t.len() + l.len() + b.len() ==> w[i] == WallSide::Bottom)
        && (t.len() + l.len() + b.len() <= i ==> w[i] == WallSide::Right) by {}
}

/// Where one cell of a chunk's maze is built, and with which walls.
#[derive(Debug)]
pub struct CellPlacement {
    /// Row of the cell in the maze (along the world x axis).
    pub row: usize,
    /// Column of the cell in the maze (along the world z axis).
    pub col: usize,
    /// x coordinate of the cell's centre, from the chunk's centre.
    pub x: i64,
    /// z coordinate of the cell's centre, from the chunk's centre.
    pub z: i64,
    /// The walls to build around the cell.
    pub walls: Vec<WallSide>,
}

/// The mathematical content of a `CellPlacement`.
pub struct PlacementView {
    pub row: int,
    pub col: int,
    pub x: int,
    pub z: int,
    pub walls: Seq<WallSide>,
}

impl View for CellPlacement {
    type V = PlacementView;

    open spec fn view(&self) -> PlacementView {
        PlacementView {
            row: self.row as int,
            col: self.col as int,
            x: self.x as int,
            z: self.z as int,
            walls: self.walls@,
        }
    }
}

/// The placements of the cells of one maze row, in column order.
pub open spec fn row_placements(cells: Seq<Cell>, row: int) -> Seq<PlacementView> {
    Seq::new(
        cells.len(),
        |col: int|
            PlacementView {
                row,
                col,
                x: cell_coordinate(row),
                z: cell_coordinate(col),
                walls: wall_sides(cells[col]),
            },
    )
}

/// The placements of all cells of a maze, row after row.
pub open spec fn chunk_placements(maze: Seq<Seq<Cell>>) -> Seq<PlacementView>
    decreases maze.len(),
{
    if maze.len() == 0 {
        seq![]
    } else {
        chunk_placements(maze.drop_last()) + row_placements(maze.last(), maze.len() - 1)
    }
}

/// The rows of a maze, each as the sequence of its cells.
pub open spec fn maze_view(maze: Seq<Vec<Cell>>) -> Seq<Seq<Cell>> {
    maze.map_values(|row: Vec<Cell>| row@)
}

/// The placements of a placement list.
pub open spec fn placements_view(placements: Seq<CellPlacement>) -> Seq<PlacementView> {
    placements.map_values(|p: CellPlacement| p@)
}

/// How many cells the first `r` rows of a maze hold.
pub open spec fn cells_before(maze: Seq<Seq<Cell>>, r: int) -> int
    decreases r,
{
    if r <= 0 {
        0
    } else {
        cells_before(maze, r - 1) + maze[r - 1].len()
    }
}

/// Counting the cells of the first rows depends only on those rows.
proof fn lemma_cells_before_prefix(a: Seq<Seq<Cell>>, b: Seq<Seq<Cell>>, r: int)
    requires
        0 <= r <= a.len(),
        r <= b.len(),
        forall|i: int| 0 <= i < r ==> a[i] == b[i],
    ensures
        cells_before(a, r) == cells_before(b, r),
    decreases r,
{
    if r > 0 {
        lemma_cells_before_prefix(a, b, r - 1);
    }
}

/// More rows hold at least as many cells.
proof fn lemma_cells_before_monotone(maze: Seq<Seq<Cell>>, a: int, b: int)
    requires
        0 <= a <= b <= maze.len(),
    ensures
        cells_before(maze, a) <= cells_before(maze, b),
    decreases b - a,
{
    if a < b {
        lemma_cells_before_monotone(maze, a, b - 1);
    }
}

/// The placements of a maze hold one entry for every cell, row after row:
/// the cell in row `r` and column `c` comes after all cells of the rows
/// before `r` and the `c` cells before it in its row, and its entry names
/// that row and column, the coordinates of their centres, and exactly the
/// cell's own walls.
pub proof fn lemma_chunk_placements_cover_cells(maze: Seq<Seq<Cell>>)
    ensures
        chunk_placements(maze).len() == cells_before(maze, maze.len() as int),
        forall|r: int, c: int|
            #![trigger maze[r][c]]
            0 <= r < maze.len() && 0 <= c < maze[r].len() ==> chunk_placements(maze)[cells_before(maze, r) + c]
                == (PlacementView {
                row: r,
                col: c,
                x: cell_coordinate(r),
                z: cell_coordinate(c),
                walls: wall_sides(maze[r][c]),
            }),
    decreases maze.len(),
{
    if maze.len() > 0 {
        let d = maze.drop_last();
        let n = maze.len() - 1;
        lemma_chunk_placements_cover_cells(d);
        lemma_cells_before_prefix(d, maze, n);
        assert forall|r: int, c: int|
            #![trigger maze[r][c]]
            0 <= r < maze.len() && 0 <= c < maze[r].len() implies chunk_placements(maze)[cells_before(maze, r) + c]
                == (PlacementView {
                row: r,
                col: c,
                x: cell_coordinate(r),
                z: cell_coordinate(c),
                walls: wall_sides(maze[r][c]),
            }) by {
            let whole = chunk_placements(maze);
            let front = chunk_placements(d);
            let back = row_placements(maze.last(), n);
            assert(whole == front + back);
            if r < n {
                lemma_cells_before_prefix(d, maze, r);
                lemma_cells_before_prefix(d, maze, r + 1);
                lemma_cells_before_monotone(d, r + 1, n);
                lemma_cells_before_monotone(d, 0, r);
                assert(d[r] == maze[r]);
                assert(d[r][c] == maze[r][c]);
                assert(cells_before(d, r + 1) == cells_before(d, r) + d[r].len());
                assert(front.len() == cells_before(d, n));
                assert(c < d[r].len());
                assert(cells_before(d, r) + c < front.len());
                assert(whole[cells_before(maze, r) + c] == front[cells_before(d, r) + c]);
            } else {
                assert(r == n);
                lemma_cells_before_monotone(maze, 0, r);
                assert(cells_before(maze, r) == cells_before(d, n));
                assert(whole[cells_before(maze, r) + c] == back[c]);
                assert(maze.last() == maze[r]);
            }
        }
    }
}

/// The statement of `lemma_chunk_placements_cover_cells` carried over to
/// a placement list whose view is the placements of a maze.
proof fn lemma_layout_covers_cells(maze: Seq<Vec<Cell>>, out: Seq<CellPlacement>)
    requires
        placements_view(out) == chunk_placements(maze_view(maze)),
    ensures
        out.len() == cells_before(maze_view(maze), maze.len() as int),
        forall|r: int, c: int|
            #![trigger maze[r]@[c]]
            0 <= r < maze.len() && 0 <= c < maze[r]@.len() ==> out[cells_before(maze_view(maze), r) + c]@
                == (PlacementView {
                row: r,
                col: c,
                x: cell_coordinate(r),
                z: cell_coordinate(c),
                walls: wall_sides(maze[r]@[c]),
            }),
{
    let mv = maze_view(maze);
    lemma_chunk_placements_cover_cells(mv);
    assert(placements_view(out).len() == out.len());
    assert forall|r: int, c: int|
        #![trigger maze[r]@[c]]
        0 <= r < maze.len() && 0 <= c < maze[r]@.len() implies out[cells_before(mv, r) + c]@ == (PlacementView {
            row: r,
            col: c,
            x: cell_coordinate(r),
            z: cell_coordinate(c),
            walls: wall_sides(maze[r]@[c]),
        }) by {
        assert(mv[r] == maze[r]@);
        assert(mv[r][c] == maze[r]@[c]);
        lemma_cells_before_monotone(mv, r + 1, mv.len() as int);
        lemma_cells_before_monotone(mv, 0, r);
        assert(cells_before(mv, r + 1) == cells_before(mv, r) + mv[r].len());
        assert(placements_view(out)[cells_before(mv, r) + c] == out[cells_before(mv, r) + c]@);
    }
}

/// Lays out a maze in a chunk: for every cell, row by row, where its centre
/// stands and which walls are built around it.
pub fn chunk_layout(maze: &Vec<Vec<Cell>>) -> (res: Vec<CellPlacement>)
    requires
        maze.len() <= CELLS_PER_CHUNK,
        forall|r: int| 0 <= r < maze.len() ==> #[trigger] maze[r].len() <= CELLS_PER_CHUNK,
    ensures
        placements_view(res@) == chunk_placements(maze_view(maze@)),
        res.len() == cells_before(maze_view(maze@), maze.len() as int),
        forall|r: int, c: int|
            #![trigger maze@[r]@[c]]
            0 <= r < maze.len() && 0 <= c < maze@[r]@.len() ==> res@[cells_before(maze_view(maze@), r) + c]@
                == (PlacementView {
                row: r,
                col: c,
                x: cell_coordinate(r),
                z: cell_coordinate(c),
                walls: wall_sides(maze@[r]@[c]),
            }),
{
    let ghost mv = maze_view(maze@);
    let mut out: Vec<CellPlacement> = Vec::new();
    let mut x: usize = 0;
    while x < maze.len()
        invariant
            x <= maze.len(),
            maze.len() <= CELLS_PER_CHUNK,
            forall|r: int| 0 <= r < maze.len() ==> #[trigger] maze[r].len() <= CELLS_PER_CHUNK,
            mv == maze_view(maze@),
            placements_view(out@) == chunk_placements(mv.take(x as int)),
        decreases maze.len() - x,
    {
        let row = &maze[x];
        let ghost before = placements_view(out@);
        let x_pos = calc_transform_pos(x);
        let mut z: usize = 0;
        while z < row.len()
            invariant
                x < maze.len() <= CELLS_PER_CHUNK,
                row@ == maze@[x as int]@,
                row.len() <= CELLS_PER_CHUNK,
                z <= row.len(),
                x_pos == cell_coordinate(x as int),
                placements_view(out@) == before + row_placements(row@, x as int).take(z as int),
            decreases row.len() - z,
        {
            let z_pos = calc_transform_pos(z);
            let p = CellPlacement { row: x, col: z, x: x_pos, z: z_pos, walls: row[z].walls() };
            let ghost pv = p@;
            let ghost old_out = out@;
            let ghost gp = p;
            out.push(p);
            assert(out@ =~= old_out.push(gp));
            assert(placements_view(out@) =~= placements_view(old_out).push(pv));
            assert(row_placements(row@, x as int).take(z + 1) =~= row_placements(row@, x as int).take(z as int).push(pv));
            assert(placements_view(out@) =~= before + row_placements(row@, x as int).take(z + 1));
            z = z + 1;
        }
        assert(row_placements(row@, x as int).take(row.len() as int) =~= row_placements(row@, x as int));
        assert(mv.take(x + 1).drop_last() =~= mv.take(x as int));
        assert(mv.take(x + 1).last() == mv[x as int]);
        assert(mv[x as int] == row@);
        x = x + 1;
    }
    assert(mv.take(maze.len() as int) =~= mv);
    proof {
        lemma_layout_covers_cells(maze@, out@);
    }
    out
}

} // verus!
