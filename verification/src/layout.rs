//! Where the cells of a maze chunk stand inside the chunk.
//!
//! A chunk is a square of `CHUNK_SIZE` world units, split into cells of
//! `CELL_SIZE` units. Positions along one axis are measured from the chunk's
//! centre to a cell's centre; index 0 is the farthest cell on the positive side.
use vstd::prelude::*;

verus! {

/// Side length of a chunk, in world units.
pub const CHUNK_SIZE: u32 = 32;

/// Side length of a cell, in world units.
pub const CELL_SIZE: u32 = 4;

/// Number of cells along one side of a chunk.
pub const CELLS_PER_CHUNK: usize = 8;

/// Offset of the centre of cell `k` from the centre of a row of `count`
/// cells, in half cells; the row runs from the positive side to the negative.
pub open spec fn half_cell_offset(count: int, k: int) -> int {
    count - 1 - 2 * k
}

/// The number of offsets that the construction of `cell_offsets` yields for a
/// request of `count`: two to begin with, then two at a time until at least
/// `count`.
pub open spec fn offsets_len(count: int) -> int {
    if count <= 2 {
        2
    } else if count % 2 == 0 {
        count
    } else {
        count + 1
    }
}

/// How many cells of `cell_size` fit in a chunk of `chunk_size`, or `None`
/// where the chunk is not a whole number of cells.
pub fn cells_per_chunk(chunk_size: u32, cell_size: u32) -> (res: Option<u32>)
    ensures
        res == (if cell_size != 0 && chunk_size % cell_size == 0 {
            Some((chunk_size / cell_size) as u32)
        } else {
            None
        }),
{
    if cell_size != 0 && chunk_size % cell_size == 0 {
        Some(chunk_size / cell_size)
    } else {
        None
    }
}

/// Offsets (in half cells) of the centres of a row of cells from the row's
/// centre, grown outwards from the two middle cells until there are at least
/// `count` of them.
pub fn cell_offsets(count: usize) -> (res: Vec<i64>)
    requires
        count < i64::MAX,
    ensures
        res.len() == offsets_len(count as int),
        forall|k: int| 0 <= k < res.len() ==> #[trigger] res[k] == half_cell_offset(res.len() as int, k),
{
    let mut positions: Vec<i64> = Vec::new();
    positions.push(1);
    positions.push(-1);
    while positions.len() < count
        invariant
            count < i64::MAX,
            2 <= positions.len(),
            positions.len() % 2 == 0,
            positions.len() <= offsets_len(count as int),
            forall|k: int| 0 <= k < positions.len() ==> #[trigger] positions[k] == half_cell_offset(positions.len() as int, k),
        decreases offsets_len(count as int) - positions.len(),
    {
        let ghost before = positions@;
        let first = positions[0];
        positions.insert(0, first + 2);
        let last = positions[positions.len() - 1];
        positions.push(last - 2);
        assert forall|k: int| 0 <= k < positions.len() implies #[trigger] positions[k] == half_cell_offset(positions.len() as int, k) by {
            if 0 < k < positions.len() - 1 {
                assert(positions[k] == before[k - 1]);
            }
        }
    }
    positions
}

/// Coordinate of the centre of cell `index` along one axis of a chunk, in
/// world units from the chunk's centre: its offset in half cells times
/// `CELL_SIZE / 2`, which is 2.
pub open spec fn cell_coordinate(index: int) -> int {
    half_cell_offset(CELLS_PER_CHUNK as int, index) * 2
}

/// `cell_coordinate` counts `CELL_SIZE / 2` world units per half cell.
pub proof fn lemma_cell_coordinate_units(index: int)
    ensures
        cell_coordinate(index) == half_cell_offset(CELLS_PER_CHUNK as int, index) * (CELL_SIZE / 2) as int,
{
    assert((CELL_SIZE / 2) as int == 2);
}

/// In world units, neighbouring cells of a chunk stand `CELL_SIZE` apart and
/// the cells stand symmetrically about the chunk's centre.
pub proof fn lemma_cell_coordinates_spacing(index: int)
    requires
        0 <= index < CELLS_PER_CHUNK,
    ensures
        index + 1 < CELLS_PER_CHUNK ==> cell_coordinate(index) - cell_coordinate(index + 1) == CELL_SIZE as int,
        cell_coordinate(index) == -cell_coordinate(CELLS_PER_CHUNK - 1 - index),
{
}

/// World-axis coordinate of the centre of cell `index` of a chunk, measured
/// from the chunk's centre.
pub fn calc_transform_pos(index: usize) -> (res: i64)
    requires
        index < CELLS_PER_CHUNK,
    ensures
        res == cell_coordinate(index as int),
{
    let positions = cell_offsets(CELLS_PER_CHUNK);
    let half: i64 = (CELL_SIZE / 2) as i64;
    assert(half == 2);
    positions[index] * half
}

/// Cells of a row stand symmetrically about the row's centre: cell `k` from
/// one end is the mirror image of cell `k` from the other end.
pub proof fn lemma_offsets_symmetric(count: int, k: int)
    requires
        0 <= k < count,
    ensures
        half_cell_offset(count, k) == -half_cell_offset(count, count - 1 - k),
{
}

/// Neighbouring cells of a row stand exactly one cell (two half cells) apart.
pub proof fn lemma_offsets_one_cell_apart(count: int, k: int)
    requires
        0 <= k,
        k + 1 < count,
    ensures
        half_cell_offset(count, k) - half_cell_offset(count, k + 1) == 2,
{
}

/// Every cell centre of a chunk lies strictly inside the chunk, at least half
/// a cell away from its border.
pub proof fn lemma_cell_centres_inside_chunk(index: int)
    requires
        0 <= index < CELLS_PER_CHUNK,
    ensures
        -(CHUNK_SIZE as int) / 2 + (CELL_SIZE as int) / 2
            <= cell_coordinate(index)
            <= (CHUNK_SIZE as int) / 2 - (CELL_SIZE as int) / 2,
{
}

} // verus!
