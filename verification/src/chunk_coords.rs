use vstd::prelude::*;
use vstd::arithmetic::div_mod::lemma_fundamental_div_mod_converse;

verus! {

/// Grid coordinates of a chunk: `[x, y]`, with `x` the column and `y` the row.
pub type ChunkCoords = [u32; 2];

/// The index of the chunk at column `x`, row `y` of a grid with `chunk_rows` columns.
pub open spec fn chunk_index_of(x: int, y: int, chunk_rows: int) -> int {
    y * chunk_rows + x
}

/// Column of the chunk with index `chunk_id` in a grid with `chunk_rows` columns.
pub open spec fn chunk_column_of(chunk_id: int, chunk_rows: int) -> int {
    chunk_id % chunk_rows
}

/// Row of the chunk with index `chunk_id` in a grid with `chunk_rows` columns.
pub open spec fn chunk_row_of(chunk_id: int, chunk_rows: int) -> int {
    chunk_id / chunk_rows
}

/// Integer coordinates of a chunk in the square chunk grid of a terrain.
pub trait ChunkCoordinates: Sized {
    spec fn coord_x(&self) -> u32;

    spec fn coord_y(&self) -> u32;

    fn new(x: u32, y: u32) -> (coords: Self)
        ensures
            coords.coord_x() == x,
            coords.coord_y() == y,
    ;

    fn x(&self) -> (x: u32)
        ensures
            x == self.coord_x(),
    ;

    fn y(&self) -> (y: u32)
        ensures
            y == self.coord_y(),
    ;

    /// Row-major index: `y * chunk_rows + x`.
    fn get_chunk_index(&self, chunk_rows: u32) -> (index: u32)
        requires
            chunk_index_of(self.coord_x() as int, self.coord_y() as int, chunk_rows as int)
                <= u32::MAX,
        ensures
            index == chunk_index_of(self.coord_x() as int, self.coord_y() as int, chunk_rows as int),
    ;

    /// Inverse of `get_chunk_index`: column `chunk_id % chunk_rows`, row `chunk_id / chunk_rows`.
    fn from_chunk_id(chunk_id: u32, chunk_rows: u32) -> (coords: Self)
        requires
            chunk_rows > 0,
        ensures
            coords.coord_x() == chunk_column_of(chunk_id as int, chunk_rows as int),
            coords.coord_y() == chunk_row_of(chunk_id as int, chunk_rows as int),
    ;
}

impl ChunkCoordinates for ChunkCoords {
    open spec fn coord_x(&self) -> u32 {
        self[0]
    }

    open spec fn coord_y(&self) -> u32 {
        self[1]
    }

    fn new(x: u32, y: u32) -> (coords: Self) {
        [x, y]
    }

    fn x(&self) -> (x: u32) {
        self[0]
    }

    fn y(&self) -> (y: u32) {
        self[1]
    }

    fn get_chunk_index(&self, chunk_rows: u32) -> (index: u32) {
        self.y() * chunk_rows + self.x()
    }

    fn from_chunk_id(chunk_id: u32, chunk_rows: u32) -> (coords: Self) {
        let coords_y = chunk_id / chunk_rows;
        let coords_x = chunk_id % chunk_rows;
        [coords_x, coords_y]
    }
}

/// Converting a chunk index to coordinates and back gives the same index.
pub proof fn lemma_chunk_id_round_trip(chunk_id: int, chunk_rows: int)
    requires
        chunk_id >= 0,
        chunk_rows > 0,
    ensures
        chunk_index_of(
            chunk_column_of(chunk_id, chunk_rows),
            chunk_row_of(chunk_id, chunk_rows),
            chunk_rows,
        ) == chunk_id,
{
    vstd::arithmetic::div_mod::lemma_fundamental_div_mod(chunk_id, chunk_rows);
    assert(chunk_rows * (chunk_id / chunk_rows) == (chunk_id / chunk_rows) * chunk_rows)
        by (nonlinear_arith);
}

/// Converting in-grid coordinates (column below `chunk_rows`) to an index and back gives
/// the same coordinates.
pub proof fn lemma_chunk_coords_round_trip(x: int, y: int, chunk_rows: int)
    requires
        0 <= x < chunk_rows,
        y >= 0,
    ensures
        chunk_column_of(chunk_index_of(x, y, chunk_rows), chunk_rows) == x,
        chunk_row_of(chunk_index_of(x, y, chunk_rows), chunk_rows) == y,
{
    lemma_fundamental_div_mod_converse(chunk_index_of(x, y, chunk_rows), chunk_rows, y, x);
}

} // verus!
