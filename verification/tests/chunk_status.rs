use bevy_mesh_terrain::chunk::{
    ChunkBuildStatus, ChunkState, TerrainDataStatus, TerrainImageDataLoadStatus,
};
use bevy_mesh_terrain::image_data::needs_array_reinterpret;

#[test]
fn new_chunk_status_is_init_and_unloaded() {
    let status = ChunkBuildStatus::new();
    assert_eq!(status.chunk_state, ChunkState::Init);
    assert_eq!(status.height_map_image_data_load_status, TerrainImageDataLoadStatus::NotLoaded);
}

#[test]
fn enum_defaults() {
    assert_eq!(ChunkState::default(), ChunkState::Init);
    assert_eq!(TerrainImageDataLoadStatus::default(), TerrainImageDataLoadStatus::NotLoaded);
    assert_eq!(TerrainDataStatus::default(), TerrainDataStatus::NotLoaded);
}

#[test]
fn height_data_decoded_only_when_not_loaded_and_image_ready() {
    let status = ChunkBuildStatus::new();
    assert!(status.height_data_needs_decode(true, true));
    assert!(!status.height_data_needs_decode(false, true));
    assert!(!status.height_data_needs_decode(true, false));
    let mut loaded = status;
    loaded.mark_height_data_loaded();
    assert_eq!(loaded.height_map_image_data_load_status, TerrainImageDataLoadStatus::Loaded);
    assert_eq!(loaded.chunk_state, ChunkState::Init);
    assert!(!loaded.height_data_needs_decode(true, true));
}

#[test]
fn mesh_built_only_from_init() {
    let mut status = ChunkBuildStatus::new();
    assert!(status.ready_to_build_mesh(true, true, true, false));
    assert!(!status.ready_to_build_mesh(false, true, true, false));
    assert!(!status.ready_to_build_mesh(true, false, true, false));
    assert!(!status.ready_to_build_mesh(true, true, false, false));
    assert!(!status.ready_to_build_mesh(true, true, true, true));
    status.start_mesh_build();
    assert_eq!(status.chunk_state, ChunkState::Building);
    assert!(!status.ready_to_build_mesh(true, true, true, false));
    status.finish_mesh_build();
    assert_eq!(status.chunk_state, ChunkState::FullyBuilt);
    assert!(!status.ready_to_build_mesh(true, true, true, false));
}

#[test]
fn edit_then_reload_rebuilds() {
    let mut status = ChunkBuildStatus::new();
    status.mark_height_data_loaded();
    status.start_mesh_build();
    status.finish_mesh_build();
    status.mark_height_data_edited();
    assert_eq!(status.height_map_image_data_load_status, TerrainImageDataLoadStatus::NeedsReload);
    assert_eq!(status.chunk_state, ChunkState::FullyBuilt);
    status.reset_for_reload();
    assert_eq!(status.chunk_state, ChunkState::Init);
    assert_eq!(status.height_map_image_data_load_status, TerrainImageDataLoadStatus::Loaded);
    assert!(status.ready_to_build_mesh(true, true, true, false));
}

#[test]
fn reload_reset_leaves_other_chunks_alone() {
    let mut status = ChunkBuildStatus::new();
    status.start_mesh_build();
    status.reset_for_reload();
    assert_eq!(status.chunk_state, ChunkState::Building);
    assert_eq!(status.height_map_image_data_load_status, TerrainImageDataLoadStatus::NotLoaded);
}

#[test]
fn array_reinterpret_decision() {
    assert!(needs_array_reinterpret(8, 1));
    assert!(!needs_array_reinterpret(1, 1));
    assert!(!needs_array_reinterpret(8, 8));
    assert!(!needs_array_reinterpret(0, 1));
}
