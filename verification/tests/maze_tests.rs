use dungeon_maze::maze::{chunk_layout, wall_name, wall_placement, Axis, Cell, WallSide};

fn cell(top: bool, bottom: bool, left: bool, right: bool) -> Cell {
    Cell { wall_top: top, wall_bottom: bottom, wall_left: left, wall_right: right }
}

#[test]
fn default_cell_has_no_walls() {
    let c = Cell::default();
    assert!(c.walls().is_empty());
}

#[test]
fn walls_come_top_left_bottom_right() {
    let c = cell(true, true, true, true);
    assert_eq!(c.walls(), vec![WallSide::Top, WallSide::Left, WallSide::Bottom, WallSide::Right]);
    let c = cell(false, true, false, true);
    assert_eq!(c.walls(), vec![WallSide::Bottom, WallSide::Right]);
}

#[test]
fn wall_placements() {
    let t = wall_placement(WallSide::Top);
    assert_eq!((t.dx, t.dy, t.dz, t.axis, t.quarter_turns), (2, 2, 0, Axis::Z, 1));
    let l = wall_placement(WallSide::Left);
    assert_eq!((l.dx, l.dy, l.dz, l.axis, l.quarter_turns), (0, 2, 2, Axis::X, 3));
    let b = wall_placement(WallSide::Bottom);
    assert_eq!((b.dx, b.dy, b.dz, b.axis, b.quarter_turns), (-2, 2, 0, Axis::Z, 3));
    let r = wall_placement(WallSide::Right);
    assert_eq!((r.dx, r.dy, r.dz, r.axis, r.quarter_turns), (0, 2, -2, Axis::X, 1));
}

#[test]
fn opposite_walls_mirror() {
    for (a, b) in [(WallSide::Top, WallSide::Bottom), (WallSide::Left, WallSide::Right)] {
        let pa = wall_placement(a);
        let pb = wall_placement(b);
        assert_eq!(pa.dx, -pb.dx);
        assert_eq!(pa.dz, -pb.dz);
        assert_eq!(pa.quarter_turns + pb.quarter_turns, 4);
    }
}

#[test]
fn wall_names() {
    assert_eq!(wall_name(WallSide::Top), "Top Wall");
    assert_eq!(wall_name(WallSide::Left), "Left Wall");
    assert_eq!(wall_name(WallSide::Bottom), "Bottom Wall");
    assert_eq!(wall_name(WallSide::Right), "Right Wall");
}

#[test]
fn layout_of_small_maze() {
    let maze = vec![
        vec![cell(true, false, true, false), cell(false, false, false, true)],
        vec![cell(false, true, false, false)],
    ];
    let placements = chunk_layout(&maze);
    let got: Vec<(usize, usize, i64, i64, Vec<WallSide>)> =
        placements.into_iter().map(|p| (p.row, p.col, p.x, p.z, p.walls)).collect();
    assert_eq!(
        got,
        vec![
            (0, 0, 14, 14, vec![WallSide::Top, WallSide::Left]),
            (0, 1, 14, 10, vec![WallSide::Right]),
            (1, 0, 10, 14, vec![WallSide::Bottom]),
        ]
    );
}

#[test]
fn layout_of_full_chunk() {
    let maze = vec![vec![Cell::default(); 8]; 8];
    let placements = chunk_layout(&maze);
    assert_eq!(placements.len(), 64);
    assert_eq!((placements[63].x, placements[63].z), (-14, -14));
    assert_eq!((placements[9].row, placements[9].col), (1, 1));
}

#[test]
fn layout_of_empty_maze() {
    assert!(chunk_layout(&Vec::new()).is_empty());
}
