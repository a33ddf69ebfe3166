use vstd::prelude::*;

use std::collections::HashMap;

use crate::chunk_coords::{ChunkCoordinates, ChunkCoords};
use crate::heightmap::{rows_of, with_column, HeightMap, HeightMapU16};

verus! {

broadcast use vstd::std_specs::hash::group_hash_axioms;

/// Whether the chunk `chunk_id` has a neighbour to its right (+x) in a grid of `chunk_rows`
/// columns, that is, whether it is not in the last column.
pub open spec fn has_pos_x_neighbor(chunk_id: int, chunk_rows: int) -> bool {
    chunk_id % chunk_rows + 1 < chunk_rows
}

/// Index of the place to the right (+x) of `chunk_id` in its row; it is the chunk to the right
/// only where `has_pos_x_neighbor` holds.
pub open spec fn neighbor_pos_x(chunk_id: int, chunk_rows: int) -> int {
    (chunk_id / chunk_rows) * chunk_rows + (chunk_id % chunk_rows + 1)
}

/// Index of the chunk below (+y) `chunk_id`.
pub open spec fn neighbor_pos_y(chunk_id: int, chunk_rows: int) -> int {
    (chunk_id / chunk_rows + 1) * chunk_rows + chunk_id % chunk_rows
}

/// Index of the place diagonally across (+x, +y) from `chunk_id`; it is the diagonal chunk only
/// where `has_pos_x_neighbor` holds.
pub open spec fn neighbor_corner(chunk_id: int, chunk_rows: int) -> int {
    (chunk_id / chunk_rows + 1) * chunk_rows + (chunk_id % chunk_rows + 1)
}

/// The height of the diagonal neighbour's first sample; 0 for a chunk in the last column, which
/// has no diagonal neighbour, and 0 when that neighbour has no data.
pub open spec fn stitch_corner_value(maps: Map<u32, Vec<Vec<u16>>>, corner: int, has_right: bool) -> u16 {
    if has_right && maps.contains_key(corner as u32) {
        maps[corner as u32]@[0]@[0]
    } else {
        0
    }
}

/// The stitch row: zeros for a chunk in the last column, which has no neighbour to its right;
/// otherwise the first column of the +x neighbour, `count` values long, zeros when that
/// neighbour lies outside the grid, and `None` when it lies inside the grid but has no data yet.
pub open spec fn stitch_x_row(
    maps: Map<u32, Vec<Vec<u16>>>,
    pos_x: int,
    max_id: int,
    count: nat,
    has_right: bool,
) -> Option<Seq<u16>> {
    if !has_right {
        Some(Seq::new(count, |i: int| 0u16))
    } else if maps.contains_key(pos_x as u32) {
        Some(Seq::new(count, |i: int| maps[pos_x as u32]@[i]@[0]))
    } else if pos_x < max_id {
        None
    } else {
        Some(Seq::new(count, |i: int| 0u16))
    }
}

/// The stitch column: the first row of the +y neighbour, `count` values long, followed by the
/// corner value; zeros and the corner when the neighbour lies outside the grid; `None` when it
/// lies inside the grid but has no data yet.
pub open spec fn stitch_y_col(
    maps: Map<u32, Vec<Vec<u16>>>,
    pos_y: int,
    max_id: int,
    count: nat,
    corner_value: u16,
) -> Option<Seq<u16>> {
    if maps.contains_key(pos_y as u32) {
        Some(Seq::new(count, |i: int| maps[pos_y as u32]@[0]@[i]).push(corner_value))
    } else if pos_y < max_id {
        None
    } else {
        Some(Seq::new(count, |i: int| 0u16).push(corner_value))
    }
}

/// The stitch data of a chunk: both parts, or neither when either neighbour is still missing.
pub open spec fn stitch_data(
    chunk_id: int,
    chunk_rows: int,
    terrain_dimensions: [u32; 2],
    maps: Map<u32, Vec<Vec<u16>>>,
) -> (Option<Seq<u16>>, Option<Seq<u16>>) {
    let max_id = chunk_rows * chunk_rows;
    let count_x = (terrain_dimensions[0] / (chunk_rows as u32)) as nat;
    let count_y = (terrain_dimensions[1] / (chunk_rows as u32)) as nat;
    let has_right = has_pos_x_neighbor(chunk_id, chunk_rows);
    let corner_value = stitch_corner_value(maps, neighbor_corner(chunk_id, chunk_rows), has_right);
    let x_row = stitch_x_row(maps, neighbor_pos_x(chunk_id, chunk_rows), max_id, count_x, has_right);
    let y_col = stitch_y_col(maps, neighbor_pos_y(chunk_id, chunk_rows), max_id, count_y, corner_value);
    if x_row is None || y_col is None {
        (None, None)
    } else {
        (x_row, y_col)
    }
}

/// The inputs on which reading the neighbours stays in bounds: every neighbour that is read
/// has enough rows and columns, and no index that is computed overflows a `u32`.
pub open spec fn stitch_inputs_valid(
    chunk_id: int,
    chunk_rows: int,
    terrain_dimensions: [u32; 2],
    maps: Map<u32, Vec<Vec<u16>>>,
) -> bool {
    let max_id = chunk_rows * chunk_rows;
    let count_x = terrain_dimensions[0] / (chunk_rows as u32);
    let count_y = terrain_dimensions[1] / (chunk_rows as u32);
    let has_right = has_pos_x_neighbor(chunk_id, chunk_rows);
    let pos_x = neighbor_pos_x(chunk_id, chunk_rows);
    let pos_y = neighbor_pos_y(chunk_id, chunk_rows);
    let corner = neighbor_corner(chunk_id, chunk_rows);
    &&& chunk_rows > 0
    &&& chunk_id + chunk_rows <= u32::MAX
    &&& has_right ==> chunk_id + chunk_rows + 1 <= u32::MAX
    &&& max_id <= u32::MAX
    &&& has_right && maps.contains_key(corner as u32) ==> {
        &&& maps[corner as u32]@.len() >= 1
        &&& maps[corner as u32]@[0]@.len() >= 1
    }
    &&& has_right && maps.contains_key(pos_x as u32) ==> {
        &&& maps[pos_x as u32]@.len() >= count_x
        &&& forall|i: int| 0 <= i < count_x ==> #[trigger] maps[pos_x as u32]@[i]@.len() >= 1
    }
    &&& (!has_right || maps.contains_key(pos_x as u32) || pos_x >= max_id) && maps.contains_key(
        pos_y as u32,
    ) && count_y > 0 ==> {
        &&& maps[pos_y as u32]@.len() >= 1
        &&& maps[pos_y as u32]@[0]@.len() >= count_y
    }
}

/// The size of one chunk in whole units: the terrain size divided by the number of chunk rows.
pub fn chunk_dimensions(terrain_dimensions: [u32; 2], chunk_rows: u32) -> (dimensions: [u32; 2])
    requires
        chunk_rows > 0,
    ensures
        dimensions[0] == terrain_dimensions[0] / chunk_rows,
        dimensions[1] == terrain_dimensions[1] / chunk_rows,
{
    [terrain_dimensions[0] / chunk_rows, terrain_dimensions[1] / chunk_rows]
}

/// Whether `compute_stitch_data` may be called on these inputs (see `stitch_inputs_valid`);
/// where this is false, reading the neighbours would go out of bounds or overflow.
pub fn stitch_inputs_are_valid(
    chunk_id: u32,
    chunk_rows: u32,
    terrain_dimensions: [u32; 2],
    chunk_height_maps: &HashMap<u32, HeightMapU16>,
) -> (valid: bool)
    ensures
        valid == stitch_inputs_valid(chunk_id as int, chunk_rows as int, terrain_dimensions, chunk_height_maps@),
{
    if chunk_rows == 0 {
        return false;
    }
    if chunk_id as u64 + chunk_rows as u64 > u32::MAX as u64 {
        return false;
    }
    let has_right = chunk_id % chunk_rows + 1 < chunk_rows;
    if has_right && chunk_id as u64 + chunk_rows as u64 + 1 > u32::MAX as u64 {
        return false;
    }
    proof {
        assert((chunk_rows as u64) * (chunk_rows as u64) <= 0xffff_ffffu64 * 0xffff_ffffu64)
            by (nonlinear_arith)
            requires
                chunk_rows <= 0xffff_ffffu64,
        ;
    }
    if chunk_rows as u64 * chunk_rows as u64 > u32::MAX as u64 {
        return false;
    }
    proof {
        lemma_stitch_neighbors(chunk_id as int, chunk_rows as int);
    }
    let max_id = chunk_rows * chunk_rows;
    let count_x = terrain_dimensions[0] / chunk_rows;
    let count_y = terrain_dimensions[1] / chunk_rows;
    let pos_y = chunk_id + chunk_rows;
    let mut x_present = false;
    let mut pos_x_outside = false;
    if has_right {
        let pos_x = chunk_id + 1;
        let corner = chunk_id + chunk_rows + 1;
        match chunk_height_maps.get(&corner) {
            Some(map) => {
                if map.len() < 1 || map[0].len() < 1 {
                    return false;
                }
            },
            None => {},
        }
        x_present = match chunk_height_maps.get(&pos_x) {
            Some(map) => {
                if (map.len() as u64) < count_x as u64 {
                    return false;
                }
                let mut i: usize = 0;
                while i < count_x as usize
                    invariant
                        neighbor_pos_x(chunk_id as int, chunk_rows as int) == pos_x,
                        has_pos_x_neighbor(chunk_id as int, chunk_rows as int),
                        chunk_rows > 0,
                        count_x == terrain_dimensions[0] / chunk_rows,
                        chunk_height_maps@.contains_key(pos_x),
                        chunk_height_maps@[pos_x] == *map,
                        map@.len() >= count_x,
                        i <= count_x,
                        forall|k: int| 0 <= k < i ==> #[trigger] map@[k]@.len() >= 1,
                    decreases count_x - i,
                {
                    if map[i].len() < 1 {
                        proof {
                            assert(!(chunk_height_maps@[pos_x]@[i as int]@.len() >= 1));
                        }
                        return false;
                    }
                    i = i + 1;
                }
                true
            },
            None => false,
        };
        pos_x_outside = pos_x >= max_id;
    }
    if !has_right || x_present || pos_x_outside {
        match chunk_height_maps.get(&pos_y) {
            Some(map) => {
                if count_y > 0 && (map.len() < 1 || (map[0].len() as u64) < count_y as u64) {
                    return false;
                }
            },
            None => {},
        }
    }
    true
}

/// In index terms, the place to the right (+x) of a chunk is the next index, the chunk below (+y)
/// is one row further, and the place diagonally across is one row and one index further.
pub proof fn lemma_stitch_neighbors(chunk_id: int, chunk_rows: int)
    requires
        chunk_id >= 0,
        chunk_rows > 0,
    ensures
        neighbor_pos_x(chunk_id, chunk_rows) == chunk_id + 1,
        neighbor_pos_y(chunk_id, chunk_rows) == chunk_id + chunk_rows,
        neighbor_corner(chunk_id, chunk_rows) == chunk_id + chunk_rows + 1,
{
    vstd::arithmetic::div_mod::lemma_fundamental_div_mod(chunk_id, chunk_rows);
    assert((chunk_id / chunk_rows + 1) * chunk_rows == (chunk_id / chunk_rows) * chunk_rows
        + chunk_rows) by (nonlinear_arith);
    assert(chunk_rows * (chunk_id / chunk_rows) == (chunk_id / chunk_rows) * chunk_rows)
        by (nonlinear_arith);
}

/// `count` zeros.
fn zero_row(count: usize) -> (row: Vec<u16>)
    ensures
        row@ == Seq::new(count as nat, |i: int| 0u16),
{
    let mut row: Vec<u16> = Vec::new();
    let mut i: usize = 0;
    while i < count
        invariant
            i <= count,
            row@.len() == i,
            forall|k: int| 0 <= k < i ==> #[trigger] row@[k] == 0u16,
        decreases count - i,
    {
        row.push(0);
        i = i + 1;
    }
    proof {
        assert(row@ =~= Seq::new(count as nat, |i: int| 0u16));
    }
    row
}

/// Looks at the chunks adjacent to `chunk_id` in a grid of `chunk_rows` columns (to the right
/// (+x) where it is not in the last column, below (+y), and diagonally across) and returns the
/// row and the column that close the seam with them. A chunk in the last column has nothing to
/// its right: its row is zeros and its corner value 0. `terrain_dimensions` is the terrain size
/// in whole units; a chunk spans `terrain_dimensions / chunk_rows` samples in each direction.
pub fn compute_stitch_data(
    chunk_id: u32,
    chunk_rows: u32,
    terrain_dimensions: [u32; 2],
    chunk_height_maps: &HashMap<u32, HeightMapU16>,
) -> (stitch: (Option<Vec<u16>>, Option<Vec<u16>>))
    requires
        stitch_inputs_valid(chunk_id as int, chunk_rows as int, terrain_dimensions, chunk_height_maps@),
    ensures
        ({
            let expected = stitch_data(chunk_id as int, chunk_rows as int, terrain_dimensions, chunk_height_maps@);
            &&& stitch.0 is Some <==> expected.0 is Some
            &&& stitch.1 is Some <==> expected.1 is Some
            &&& stitch.0 is Some ==> stitch.0.unwrap()@ == expected.0.unwrap()
            &&& stitch.1 is Some ==> stitch.1.unwrap()@ == expected.1.unwrap()
        }),
        ({
            let maps = chunk_height_maps@;
            let right = (chunk_id + 1) as u32;
            let below = (chunk_id + chunk_rows) as u32;
            chunk_id % chunk_rows + 1 < chunk_rows && maps.contains_key(right) ==> {
                &&& stitch.0 is Some <==> (maps.contains_key(below) || chunk_id + chunk_rows
                    >= chunk_rows * chunk_rows)
                &&& stitch.0 is Some ==> stitch.0.unwrap()@ == Seq::new(
                    (terrain_dimensions[0] / chunk_rows) as nat,
                    |i: int| maps[right]@[i]@[0],
                )
            }
        }),
{
    let ghost maps = chunk_height_maps@;
    proof {
        lemma_stitch_neighbors(chunk_id as int, chunk_rows as int);
        lemma_stitch_row_is_right_neighbour_column(
            chunk_id as int,
            chunk_rows as int,
            terrain_dimensions,
            maps,
        );
    }
    let chunk_coords = <ChunkCoords as ChunkCoordinates>::from_chunk_id(chunk_id, chunk_rows);
    let has_pos_x = chunk_coords.x() + 1 < chunk_rows;

    let stitch_chunk_id_pos_y = <ChunkCoords as ChunkCoordinates>::new(
        chunk_coords.x(),
        chunk_coords.y() + 1,
    ).get_chunk_index(chunk_rows);

    let max_chunk_id_plus_one = chunk_rows * chunk_rows;

    let chunk_dimensions = chunk_dimensions(terrain_dimensions, chunk_rows);

    let corner_value: u16 = if has_pos_x {
        let stitch_chunk_id_pos_x_y_corner = <ChunkCoords as ChunkCoordinates>::new(
            chunk_coords.x() + 1,
            chunk_coords.y() + 1,
        ).get_chunk_index(chunk_rows);
        match chunk_height_maps.get(&stitch_chunk_id_pos_x_y_corner) {
            Some(chunk_height_data) => chunk_height_data[0][0],
            None => 0,
        }
    } else {
        0
    };

    let stitch_data_x_row: Vec<u16> = if has_pos_x {
        let stitch_chunk_id_pos_x = <ChunkCoords as ChunkCoordinates>::new(
            chunk_coords.x() + 1,
            chunk_coords.y(),
        ).get_chunk_index(chunk_rows);
        match chunk_height_maps.get(&stitch_chunk_id_pos_x) {
            Some(chunk_height_data) => {
                let count = chunk_dimensions[0] as usize;
                let mut final_vec: Vec<u16> = Vec::new();
                let mut i: usize = 0;
                while i < count
                    invariant
                        count == chunk_dimensions[0],
                        chunk_dimensions[0] == terrain_dimensions[0] / chunk_rows,
                        chunk_height_data@.len() >= count,
                        forall|k: int| 0 <= k < count ==> #[trigger] chunk_height_data@[k]@.len() >= 1,
                        i <= count,
                        final_vec@.len() == i,
                        forall|k: int| 0 <= k < i ==> #[trigger] final_vec@[k] == chunk_height_data@[k]@[0],
                    decreases count - i,
                {
                    final_vec.push(chunk_height_data[i][0]);
                    i = i + 1;
                }
                final_vec
            },
            None => {
                if stitch_chunk_id_pos_x < max_chunk_id_plus_one {
                    return (None, None);
                }
                zero_row(chunk_dimensions[0] as usize)
            },
        }
    } else {
        zero_row(chunk_dimensions[0] as usize)
    };

    let stitch_data_y_col: Vec<u16> = match chunk_height_maps.get(&stitch_chunk_id_pos_y) {
        Some(chunk_height_data) => {
            let count = chunk_dimensions[1] as usize;
            let mut final_vec: Vec<u16> = Vec::new();
            let mut i: usize = 0;
            while i < count
                invariant
                    count == chunk_dimensions[1],
                    count > 0 ==> chunk_height_data@.len() >= 1 && chunk_height_data@[0]@.len() >= count,
                    i <= count,
                    final_vec@.len() == i,
                    forall|k: int| 0 <= k < i ==> #[trigger] final_vec@[k] == chunk_height_data@[0]@[k],
                decreases count - i,
            {
                final_vec.push(chunk_height_data[0][i]);
                i = i + 1;
            }
            final_vec.push(corner_value);
            final_vec
        },
        None => {
            if stitch_chunk_id_pos_y < max_chunk_id_plus_one {
                return (None, None);
            }
            let mut final_vec = zero_row(chunk_dimensions[1] as usize);
            final_vec.push(corner_value);
            final_vec
        },
    };

    proof {
        let expected = stitch_data(chunk_id as int, chunk_rows as int, terrain_dimensions, maps);
        assert(stitch_data_x_row@ =~= expected.0.unwrap());
        assert(stitch_data_y_col@ =~= expected.1.unwrap());
    }
    (Some(stitch_data_x_row), Some(stitch_data_y_col))
}

/// A copy of a height map, row by row.
fn copy_heightmap(map: &HeightMapU16) -> (copy: HeightMapU16)
    ensures
        rows_of(copy@) == rows_of(map@),
{
    let mut copy: Vec<Vec<u16>> = Vec::new();
    let mut i: usize = 0;
    while i < map.len()
        invariant
            i <= map@.len(),
            copy@.len() == i,
            forall|k: int| 0 <= k < i ==> #[trigger] copy@[k]@ == map@[k]@,
        decreases map@.len() - i,
    {
        let row = &map[i];
        let mut new_row: Vec<u16> = Vec::new();
        let mut j: usize = 0;
        while j < row.len()
            invariant
                j <= row@.len(),
                new_row@ == row@.take(j as int),
            decreases row@.len() - j,
        {
            new_row.push(row[j]);
            proof {
                assert(row@.take(j as int + 1) =~= row@.take(j as int).push(row@[j as int]));
            }
            j = j + 1;
        }
        proof {
            assert(row@.take(row@.len() as int) =~= row@);
        }
        copy.push(new_row);
        i = i + 1;
    }
    proof {
        assert(rows_of(copy@) =~= rows_of(map@));
    }
    copy
}

/// The height map that a chunk's mesh is built from: a copy of the chunk's own heights with the
/// stitch row appended below and the stitch column appended on the right. The column holds one
/// value per row of the map with the row appended.
pub fn stitch_heightmap(height_map: &HeightMapU16, x_row: Vec<u16>, y_col: Vec<u16>) -> (stitched: HeightMapU16)
    requires
        y_col@.len() == height_map@.len() + 1,
    ensures
        rows_of(stitched@) == with_column(rows_of(height_map@).push(x_row@), y_col@),
{
    let mut sub_heightmap = copy_heightmap(height_map);
    sub_heightmap.append_x_row(x_row);
    sub_heightmap.append_y_col(y_col);
    sub_heightmap
}

/// Appending a stitch row as long as each row and then a stitch column one longer than the
/// number of rows turns an `h` by `w` height map into an `h + 1` by `w + 1` one: the old
/// samples keep their places, the new last row holds the stitch row and the new last column
/// holds the stitch column.
pub proof fn lemma_stitched_shape(rows: Seq<Seq<u16>>, width: nat, x_row: Seq<u16>, y_col: Seq<u16>)
    requires
        forall|r: int| 0 <= r < rows.len() ==> #[trigger] rows[r].len() == width,
        x_row.len() == width,
        y_col.len() == rows.len() + 1,
    ensures
        ({
            let stitched = with_column(rows.push(x_row), y_col);
            &&& stitched.len() == rows.len() + 1
            &&& forall|r: int| 0 <= r < stitched.len() ==> #[trigger] stitched[r].len() == width + 1
            &&& forall|r: int, c: int|
                0 <= r < rows.len() && 0 <= c < width ==> #[trigger] stitched[r][c] == rows[r][c]
            &&& forall|c: int| 0 <= c < width ==> #[trigger] stitched[rows.len() as int][c] == x_row[c]
            &&& forall|r: int| 0 <= r < stitched.len() ==> #[trigger] stitched[r][width as int] == y_col[r]
        }),
{
    let stitched = with_column(rows.push(x_row), y_col);
    assert forall|r: int| 0 <= r < stitched.len() implies #[trigger] stitched[r].len() == width + 1 by {
        if r < rows.len() {
            assert(rows.push(x_row)[r] == rows[r]);
        }
    }
    assert forall|r: int, c: int|
        0 <= r < rows.len() && 0 <= c < width implies #[trigger] stitched[r][c] == rows[r][c] by {
        assert(rows.push(x_row)[r] == rows[r]);
    }
    assert forall|r: int| 0 <= r < stitched.len() implies #[trigger] stitched[r][width as int] == y_col[r] by {
        if r < rows.len() {
            assert(rows.push(x_row)[r] == rows[r]);
        }
    }
}

/// What the stitched map of a chunk that is not in the last column, and whose three neighbours
/// all have data, holds at its new edges: its new last row is the first column of the +x
/// neighbour, its new last column is the first row of the +y neighbour, and its new corner is
/// the first sample of the diagonal neighbour.
pub proof fn lemma_stitched_edges(
    chunk_id: int,
    chunk_rows: int,
    terrain_dimensions: [u32; 2],
    maps: Map<u32, Vec<Vec<u16>>>,
    rows: Seq<Seq<u16>>,
)
    requires
        stitch_inputs_valid(chunk_id, chunk_rows, terrain_dimensions, maps),
        chunk_id >= 0,
        has_pos_x_neighbor(chunk_id, chunk_rows),
        maps.contains_key((chunk_id + 1) as u32),
        maps.contains_key((chunk_id + chunk_rows) as u32),
        maps.contains_key((chunk_id + chunk_rows + 1) as u32),
        forall|r: int| 0 <= r < rows.len() ==> #[trigger] rows[r].len() == terrain_dimensions[0] / (chunk_rows as u32),
        rows.len() == terrain_dimensions[1] / (chunk_rows as u32),
    ensures
        ({
            let data = stitch_data(chunk_id, chunk_rows, terrain_dimensions, maps);
            let w = terrain_dimensions[0] / (chunk_rows as u32);
            let h = rows.len() as int;
            let right = maps[(chunk_id + 1) as u32]@;
            let below = maps[(chunk_id + chunk_rows) as u32]@;
            let corner = maps[(chunk_id + chunk_rows + 1) as u32]@;
            let stitched = with_column(rows.push(data.0.unwrap()), data.1.unwrap());
            &&& data.0 is Some && data.1 is Some
            &&& forall|c: int| 0 <= c < w ==> #[trigger] stitched[h][c] == right[c]@[0]
            &&& forall|r: int| 0 <= r < h ==> #[trigger] stitched[r][w as int] == below[0]@[r]
            &&& stitched[h][w as int] == corner[0]@[0]
        }),
{
    lemma_stitch_neighbors(chunk_id, chunk_rows);
    let data = stitch_data(chunk_id, chunk_rows, terrain_dimensions, maps);
    let w = terrain_dimensions[0] / (chunk_rows as u32);
    let x_row = data.0.unwrap();
    let y_col = data.1.unwrap();
    assert(x_row.len() == w);
    assert(y_col.len() == rows.len() + 1);
    lemma_stitched_shape(rows, w as nat, x_row, y_col);
}

/// A chunk in the last column has no neighbour to its right, whatever the maps hold: once the
/// chunk below it has data, or lies outside the grid, its stitched map's new last row is all
/// zeros and its new corner is 0, and its new last column holds the first row of the chunk
/// below where that chunk has data.
pub proof fn lemma_right_edge_stitch(
    chunk_id: int,
    chunk_rows: int,
    terrain_dimensions: [u32; 2],
    maps: Map<u32, Vec<Vec<u16>>>,
    rows: Seq<Seq<u16>>,
)
    requires
        stitch_inputs_valid(chunk_id, chunk_rows, terrain_dimensions, maps),
        chunk_id >= 0,
        !has_pos_x_neighbor(chunk_id, chunk_rows),
        maps.contains_key((chunk_id + chunk_rows) as u32) || chunk_id + chunk_rows >= chunk_rows
            * chunk_rows,
        forall|r: int| 0 <= r < rows.len() ==> #[trigger] rows[r].len() == terrain_dimensions[0] / (chunk_rows as u32),
        rows.len() == terrain_dimensions[1] / (chunk_rows as u32),
    ensures
        ({
            let data = stitch_data(chunk_id, chunk_rows, terrain_dimensions, maps);
            let w = terrain_dimensions[0] / (chunk_rows as u32);
            let h = rows.len() as int;
            let below = maps[(chunk_id + chunk_rows) as u32]@;
            let stitched = with_column(rows.push(data.0.unwrap()), data.1.unwrap());
            &&& data.0 is Some && data.1 is Some
            &&& forall|c: int| 0 <= c < w ==> #[trigger] stitched[h][c] == 0
            &&& stitched[h][w as int] == 0
            &&& maps.contains_key((chunk_id + chunk_rows) as u32) ==> forall|r: int|
                0 <= r < h ==> #[trigger] stitched[r][w as int] == below[0]@[r]
        }),
{
    lemma_stitch_neighbors(chunk_id, chunk_rows);
    let data = stitch_data(chunk_id, chunk_rows, terrain_dimensions, maps);
    let w = terrain_dimensions[0] / (chunk_rows as u32);
    let x_row = data.0.unwrap();
    let y_col = data.1.unwrap();
    assert(x_row.len() == w);
    assert(y_col.len() == rows.len() + 1);
    lemma_stitched_shape(rows, w as nat, x_row, y_col);
}

/// The stitch row of a chunk that is not in the last column, and whose right neighbour
/// (`chunk_id + 1`) has data, is that neighbour's first column (row `i`, column 0, for each `i`
/// below `terrain_dimensions[0] / chunk_rows`), whatever lies below the chunk. It is there
/// exactly when the chunk below has data or lies outside the grid (as for every chunk in the
/// bottom row).
pub proof fn lemma_stitch_row_is_right_neighbour_column(
    chunk_id: int,
    chunk_rows: int,
    terrain_dimensions: [u32; 2],
    maps: Map<u32, Vec<Vec<u16>>>,
)
    requires
        stitch_inputs_valid(chunk_id, chunk_rows, terrain_dimensions, maps),
        chunk_id >= 0,
    ensures
        ({
            let data = stitch_data(chunk_id, chunk_rows, terrain_dimensions, maps);
            let count_x = (terrain_dimensions[0] / (chunk_rows as u32)) as nat;
            let right = (chunk_id + 1) as u32;
            let below = (chunk_id + chunk_rows) as u32;
            chunk_id % chunk_rows + 1 < chunk_rows && maps.contains_key(right) ==> {
                &&& data.0 is Some <==> (maps.contains_key(below) || chunk_id + chunk_rows
                    >= chunk_rows * chunk_rows)
                &&& data.0 is Some ==> data.0.unwrap() == Seq::new(
                    count_x,
                    |i: int| maps[right]@[i]@[0],
                )
            }
        }),
{
    lemma_stitch_neighbors(chunk_id, chunk_rows);
}

/// The stitch column of a chunk whose lower neighbour (`chunk_id + chunk_rows`) has data is that
/// neighbour's first row (row 0, column `i`, for each `i` below
/// `terrain_dimensions[1] / chunk_rows`) followed by one corner sample: the first sample of the
/// diagonal neighbour (`chunk_id + chunk_rows + 1`) where the chunk is not in the last column and
/// that neighbour has data, and 0 otherwise. A chunk in the last column has a stitch row of
/// zeros, whatever chunk `chunk_id + 1` holds.
pub proof fn lemma_stitch_column_and_corner(
    chunk_id: int,
    chunk_rows: int,
    terrain_dimensions: [u32; 2],
    maps: Map<u32, Vec<Vec<u16>>>,
)
    requires
        stitch_inputs_valid(chunk_id, chunk_rows, terrain_dimensions, maps),
        chunk_id >= 0,
    ensures
        ({
            let data = stitch_data(chunk_id, chunk_rows, terrain_dimensions, maps);
            let count_x = (terrain_dimensions[0] / (chunk_rows as u32)) as nat;
            let count_y = (terrain_dimensions[1] / (chunk_rows as u32)) as nat;
            let last_column = chunk_id % chunk_rows + 1 == chunk_rows;
            let below = (chunk_id + chunk_rows) as u32;
            let diagonal = (chunk_id + chunk_rows + 1) as u32;
            let corner: u16 = if !last_column && maps.contains_key(diagonal) {
                maps[diagonal]@[0]@[0]
            } else {
                0
            };
            &&& data.1 is Some && maps.contains_key(below) ==> data.1.unwrap() == Seq::new(
                count_y,
                |i: int| maps[below]@[0]@[i],
            ).push(corner)
            &&& data.1 is Some && !maps.contains_key(below) ==> data.1.unwrap() == Seq::new(
                count_y,
                |i: int| 0u16,
            ).push(corner)
            &&& last_column ==> (data.0 is Some <==> (maps.contains_key(below) || chunk_id
                + chunk_rows >= chunk_rows * chunk_rows))
            &&& last_column && data.0 is Some ==> data.0.unwrap() == Seq::new(
                count_x,
                |i: int| 0u16,
            )
        }),
{
    lemma_stitch_neighbors(chunk_id, chunk_rows);
    vstd::arithmetic::div_mod::lemma_mod_bound(chunk_id, chunk_rows);
}

} // verus!
