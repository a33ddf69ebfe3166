use vstd::prelude::*;

use crate::chunk_coords::{
    chunk_column_of, chunk_index_of, chunk_row_of, lemma_chunk_coords_round_trip,
    lemma_chunk_id_round_trip, ChunkCoordinates, ChunkCoords,
};

verus! {

/// A chunk of the terrain, identified by its index in the chunk grid.
pub struct Chunk {
    pub chunk_id: u32,
}

impl Chunk {
    pub fn new(chunk_id: u32) -> (chunk: Self)
        ensures
            chunk.chunk_id == chunk_id,
    {
        Self { chunk_id }
    }
}

/// Where a chunk is in building its mesh.
#[derive(Clone, Copy, Debug, Default, PartialEq, Eq, Structural)]
pub enum ChunkState {
    #[default]
    Init,
    Building,
    FullyBuilt,
}

/// Whether a chunk's height map image has been decoded into height data.
#[derive(Clone, Copy, Debug, Default, PartialEq, Eq, Structural)]
pub enum TerrainImageDataLoadStatus {
    #[default]
    NotLoaded,
    Loaded,
    NeedsReload,
}

/// Whether a terrain has spawned its chunks.
#[derive(Clone, Copy, Debug, Default, PartialEq, Eq, Structural)]
pub enum TerrainDataStatus {
    #[default]
    NotLoaded,
    Loaded,
}

/// The build bookkeeping of a chunk: its mesh state and the state of its height data.
#[derive(Clone, Copy, Debug, PartialEq, Eq, Structural)]
pub struct ChunkBuildStatus {
    pub chunk_state: ChunkState,
    pub height_map_image_data_load_status: TerrainImageDataLoadStatus,
}

/// The status after a chunk's heights were edited: the height data must be reloaded.
pub open spec fn after_height_edit(status: ChunkBuildStatus) -> ChunkBuildStatus {
    ChunkBuildStatus {
        height_map_image_data_load_status: TerrainImageDataLoadStatus::NeedsReload,
        ..status
    }
}

/// The status after the reload pass: a chunk whose data needs reloading goes back to `Init`
/// with its data counted as loaded; any other chunk is left as it is.
pub open spec fn after_reload_reset(status: ChunkBuildStatus) -> ChunkBuildStatus {
    if status.height_map_image_data_load_status == TerrainImageDataLoadStatus::NeedsReload {
        ChunkBuildStatus {
            chunk_state: ChunkState::Init,
            height_map_image_data_load_status: TerrainImageDataLoadStatus::Loaded,
        }
    } else {
        status
    }
}

/// A chunk's mesh is built when it is in `Init`, its height data and both of its image handles
/// are there, and it is not hidden.
pub open spec fn mesh_build_ready(
    status: ChunkBuildStatus,
    has_height_map_data: bool,
    has_height_map_handle: bool,
    has_splat_handle: bool,
    hidden: bool,
) -> bool {
    &&& status.chunk_state == ChunkState::Init
    &&& has_height_map_data
    &&& has_height_map_handle
    &&& has_splat_handle
    &&& !hidden
}

impl ChunkBuildStatus {
    /// A freshly initialized chunk: no mesh, no height data.
    pub fn new() -> (status: Self)
        ensures
            status.chunk_state == ChunkState::Init,
            status.height_map_image_data_load_status == TerrainImageDataLoadStatus::NotLoaded,
    {
        ChunkBuildStatus {
            chunk_state: ChunkState::Init,
            height_map_image_data_load_status: TerrainImageDataLoadStatus::NotLoaded,
        }
    }

    /// The height map image is decoded when the data is not loaded yet, the chunk has a
    /// height map handle and the image behind it has finished loading.
    pub fn height_data_needs_decode(&self, has_height_map_handle: bool, height_map_image_loaded: bool) -> (decode: bool)
        ensures
            decode == (self.height_map_image_data_load_status
                == TerrainImageDataLoadStatus::NotLoaded && has_height_map_handle
                && height_map_image_loaded),
    {
        match self.height_map_image_data_load_status {
            TerrainImageDataLoadStatus::NotLoaded => has_height_map_handle && height_map_image_loaded,
            _ => false,
        }
    }

    /// After a decode attempt, successful or not, the height data counts as loaded.
    pub fn mark_height_data_loaded(&mut self)
        ensures
            final(self).chunk_state == old(self).chunk_state,
            final(self).height_map_image_data_load_status == TerrainImageDataLoadStatus::Loaded,
    {
        self.height_map_image_data_load_status = TerrainImageDataLoadStatus::Loaded;
    }

    /// A height edit marks the height data as needing a reload.
    pub fn mark_height_data_edited(&mut self)
        ensures
            *final(self) == after_height_edit(*old(self)),
    {
        self.height_map_image_data_load_status = TerrainImageDataLoadStatus::NeedsReload;
    }

    /// The reload pass: see `after_reload_reset`.
    pub fn reset_for_reload(&mut self)
        ensures
            *final(self) == after_reload_reset(*old(self)),
            old(self).height_map_image_data_load_status != TerrainImageDataLoadStatus::NeedsReload
                ==> *final(self) == *old(self),
            old(self).height_map_image_data_load_status == TerrainImageDataLoadStatus::NeedsReload
                ==> final(self).chunk_state == ChunkState::Init
                && final(self).height_map_image_data_load_status
                == TerrainImageDataLoadStatus::Loaded,
    {
        match self.height_map_image_data_load_status {
            TerrainImageDataLoadStatus::NeedsReload => {
                self.chunk_state = ChunkState::Init;
                self.height_map_image_data_load_status = TerrainImageDataLoadStatus::Loaded;
            },
            _ => {},
        }
    }

    /// See `mesh_build_ready`.
    pub fn ready_to_build_mesh(
        &self,
        has_height_map_data: bool,
        has_height_map_handle: bool,
        has_splat_handle: bool,
        hidden: bool,
    ) -> (ready: bool)
        ensures
            ready == mesh_build_ready(
                *self,
                has_height_map_data,
                has_height_map_handle,
                has_splat_handle,
                hidden,
            ),
    {
        match self.chunk_state {
            ChunkState::Init => has_height_map_data && has_height_map_handle && has_splat_handle
                && !hidden,
            _ => false,
        }
    }

    /// A mesh build task was started for the chunk.
    pub fn start_mesh_build(&mut self)
        ensures
            final(self).chunk_state == ChunkState::Building,
            final(self).height_map_image_data_load_status == old(
                self,
            ).height_map_image_data_load_status,
    {
        self.chunk_state = ChunkState::Building;
    }

    /// The chunk's mesh was built and attached.
    pub fn finish_mesh_build(&mut self)
        ensures
            final(self).chunk_state == ChunkState::FullyBuilt,
            final(self).height_map_image_data_load_status == old(
                self,
            ).height_map_image_data_load_status,
    {
        self.chunk_state = ChunkState::FullyBuilt;
    }
}

/// A chunk whose mesh is building or built is never scheduled for another build until an edit
/// of its heights has gone through the reload pass; after that pass it is scheduled again as
/// soon as its data and handles are there and it is visible.
pub proof fn lemma_edit_then_reload_rebuilds(status: ChunkBuildStatus, has_height_map_data: bool, has_height_map_handle: bool, has_splat_handle: bool, hidden: bool)
    ensures
        status.chunk_state != ChunkState::Init ==> !mesh_build_ready(
            status,
            has_height_map_data,
            has_height_map_handle,
            has_splat_handle,
            hidden,
        ),
        after_reload_reset(after_height_edit(status)).chunk_state == ChunkState::Init,
        after_reload_reset(after_height_edit(status)).height_map_image_data_load_status
            == TerrainImageDataLoadStatus::Loaded,
        mesh_build_ready(
            after_reload_reset(after_height_edit(status)),
            has_height_map_data,
            has_height_map_handle,
            has_splat_handle,
            hidden,
        ) == (has_height_map_data && has_height_map_handle && has_splat_handle && !hidden),
{
}

/// The reload pass touches only chunks whose height data needs reloading: any other status,
/// its height data loaded or not loaded, comes out unchanged, so a built chunk that was not
/// edited keeps its mesh and is not scheduled for another build. A chunk that needs reloading
/// goes back to `Init` with its data loaded, and a second pass changes nothing more.
pub proof fn lemma_reload_pass_touches_only_edited_chunks(
    status: ChunkBuildStatus,
    has_height_map_data: bool,
    has_height_map_handle: bool,
    has_splat_handle: bool,
    hidden: bool,
)
    ensures
        status.height_map_image_data_load_status != TerrainImageDataLoadStatus::NeedsReload
            ==> after_reload_reset(status) == status,
        status.height_map_image_data_load_status != TerrainImageDataLoadStatus::NeedsReload
            && status.chunk_state != ChunkState::Init ==> !mesh_build_ready(
            after_reload_reset(status),
            has_height_map_data,
            has_height_map_handle,
            has_splat_handle,
            hidden,
        ),
        status.height_map_image_data_load_status == TerrainImageDataLoadStatus::NeedsReload
            ==> after_reload_reset(status) == (ChunkBuildStatus {
            chunk_state: ChunkState::Init,
            height_map_image_data_load_status: TerrainImageDataLoadStatus::Loaded,
        }),
        after_reload_reset(after_reload_reset(status)) == after_reload_reset(status),
{
}

/// The chunks a terrain spawns: chunk `i` of `chunk_rows * chunk_rows` sits at column
/// `i % chunk_rows`, row `i / chunk_rows`.
pub open spec fn chunk_layout_entry(chunk_id: int, chunk_rows: int) -> (u32, ChunkCoords) {
    (chunk_id as u32, [chunk_column_of(chunk_id, chunk_rows) as u32, chunk_row_of(chunk_id, chunk_rows) as u32])
}

/// The id and grid coordinates of every chunk of a terrain with `chunk_rows` rows and columns,
/// in id order.
pub fn chunk_layout(chunk_rows: u32) -> (layout: Vec<(u32, ChunkCoords)>)
    requires
        chunk_rows * chunk_rows <= u32::MAX,
    ensures
        layout@.len() == chunk_rows * chunk_rows,
        forall|i: int|
            0 <= i < layout@.len() ==> #[trigger] layout@[i] == chunk_layout_entry(i, chunk_rows as int),
{
    let max_chunks = chunk_rows * chunk_rows;
    let mut layout: Vec<(u32, ChunkCoords)> = Vec::new();
    let mut chunk_id: u32 = 0;
    while chunk_id < max_chunks
        invariant
            max_chunks == chunk_rows * chunk_rows,
            chunk_id <= max_chunks,
            layout@.len() == chunk_id,
            forall|i: int|
                0 <= i < chunk_id ==> #[trigger] layout@[i] == chunk_layout_entry(i, chunk_rows as int),
        decreases max_chunks - chunk_id,
    {
        proof {
            assert(chunk_rows > 0) by (nonlinear_arith)
                requires
                    0 <= chunk_id < chunk_rows * chunk_rows,
                    chunk_rows >= 0,
            ;
        }
        let chunk_coords = <ChunkCoords as ChunkCoordinates>::from_chunk_id(chunk_id, chunk_rows);
        layout.push((chunk_id, chunk_coords));
        proof {
            assert(layout@[chunk_id as int] == chunk_layout_entry(chunk_id as int, chunk_rows as int));
        }
        chunk_id = chunk_id + 1;
    }
    layout
}

/// Every cell of the grid appears in the layout exactly once: cell `(x, y)` is the entry at
/// index `y * chunk_rows + x`, and every entry lies inside the grid.
pub proof fn lemma_chunk_layout_covers_grid(chunk_rows: int)
    requires
        chunk_rows > 0,
    ensures
        forall|x: int, y: int|
            0 <= x < chunk_rows && 0 <= y < chunk_rows ==> {
                let i = #[trigger] chunk_index_of(x, y, chunk_rows);
                &&& 0 <= i < chunk_rows * chunk_rows
                &&& chunk_column_of(i, chunk_rows) == x
                &&& chunk_row_of(i, chunk_rows) == y
            },
        forall|i: int|
            0 <= i < chunk_rows * chunk_rows ==> {
                &&& 0 <= #[trigger] chunk_column_of(i, chunk_rows) < chunk_rows
                &&& 0 <= chunk_row_of(i, chunk_rows) < chunk_rows
                &&& chunk_index_of(chunk_column_of(i, chunk_rows), chunk_row_of(i, chunk_rows), chunk_rows) == i
            },
{
    assert forall|x: int, y: int| 0 <= x < chunk_rows && 0 <= y < chunk_rows implies {
        let i = #[trigger] chunk_index_of(x, y, chunk_rows);
        &&& 0 <= i < chunk_rows * chunk_rows
        &&& chunk_column_of(i, chunk_rows) == x
        &&& chunk_row_of(i, chunk_rows) == y
    } by {
        lemma_chunk_coords_round_trip(x, y, chunk_rows);
        assert(0 <= y * chunk_rows + x < chunk_rows * chunk_rows) by (nonlinear_arith)
            requires
                0 <= x < chunk_rows,
                0 <= y < chunk_rows,
        ;
    }
    assert forall|i: int| 0 <= i < chunk_rows * chunk_rows implies {
        &&& 0 <= #[trigger] chunk_column_of(i, chunk_rows) < chunk_rows
        &&& 0 <= chunk_row_of(i, chunk_rows) < chunk_rows
        &&& chunk_index_of(chunk_column_of(i, chunk_rows), chunk_row_of(i, chunk_rows), chunk_rows) == i
    } by {
        lemma_chunk_id_round_trip(i, chunk_rows);
        assert(0 <= i / chunk_rows < chunk_rows) by (nonlinear_arith)
            requires
                0 <= i < chunk_rows * chunk_rows,
                chunk_rows > 0,
        ;
    }
}

} // verus!
