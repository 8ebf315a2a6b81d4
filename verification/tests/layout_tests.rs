use dungeon_maze::layout::{calc_transform_pos, cell_offsets, cells_per_chunk, CELLS_PER_CHUNK, CELL_SIZE, CHUNK_SIZE};

#[test]
fn chunk_holds_eight_cells() {
    assert_eq!(cells_per_chunk(CHUNK_SIZE, CELL_SIZE), Some(8));
    assert_eq!(CELLS_PER_CHUNK, 8);
}

#[test]
fn chunk_not_divisible_by_cell() {
    assert_eq!(cells_per_chunk(32, 5), None);
    assert_eq!(cells_per_chunk(32, 0), None);
    assert_eq!(cells_per_chunk(0, 3), Some(0));
}

#[test]
fn transform_positions_of_all_cells() {
    let got: Vec<i64> = (0..8).map(calc_transform_pos).collect();
    assert_eq!(got, vec![14, 10, 6, 2, -2, -6, -10, -14]);
}

#[test]
fn offsets_grow_outwards() {
    assert_eq!(cell_offsets(0), vec![1, -1]);
    assert_eq!(cell_offsets(2), vec![1, -1]);
    assert_eq!(cell_offsets(4), vec![3, 1, -1, -3]);
    assert_eq!(cell_offsets(5), vec![5, 3, 1, -1, -3, -5]);
}

#[test]
fn offsets_are_symmetric_and_one_cell_apart() {
    let o = cell_offsets(8);
    for k in 0..o.len() {
        assert_eq!(o[k], -o[o.len() - 1 - k]);
        if k + 1 < o.len() {
            assert_eq!(o[k] - o[k + 1], 2);
        }
    }
}

#[test]
fn cell_centres_inside_chunk() {
    for i in 0..CELLS_PER_CHUNK {
        let p = calc_transform_pos(i);
        assert!(p.abs() <= (CHUNK_SIZE / 2 - CELL_SIZE / 2) as i64);
    }
}
