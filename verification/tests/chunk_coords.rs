use bevy_mesh_terrain::chunk::{chunk_layout, Chunk};
use bevy_mesh_terrain::terrain_config::chunk_render_distance;
use bevy_mesh_terrain::chunk_coords::{ChunkCoordinates, ChunkCoords};

#[test]
fn chunk_coords_accessors() {
    let coords: ChunkCoords = ChunkCoords::new(5, 9);
    assert_eq!(coords.x(), 5);
    assert_eq!(coords.y(), 9);
    assert_eq!(coords, [5, 9]);
}

#[test]
fn chunk_index_is_row_major() {
    let coords: ChunkCoords = ChunkCoords::new(3, 2);
    assert_eq!(coords.get_chunk_index(16), 35);
    assert_eq!(ChunkCoords::new(0, 0).get_chunk_index(16), 0);
    assert_eq!(ChunkCoords::new(15, 15).get_chunk_index(16), 255);
}

#[test]
fn chunk_from_id() {
    assert_eq!(ChunkCoords::from_chunk_id(35, 16), [3, 2]);
    assert_eq!(ChunkCoords::from_chunk_id(0, 16), [0, 0]);
    assert_eq!(ChunkCoords::from_chunk_id(255, 16), [15, 15]);
    assert_eq!(ChunkCoords::from_chunk_id(7, 1), [0, 7]);
}

#[test]
fn chunk_id_round_trip_every_id() {
    for rows in 1..20u32 {
        for id in 0..rows * rows {
            let coords = ChunkCoords::from_chunk_id(id, rows);
            assert_eq!(coords.get_chunk_index(rows), id);
        }
    }
}

#[test]
fn chunk_coords_round_trip_every_cell() {
    for rows in 1..20u32 {
        for y in 0..rows {
            for x in 0..rows {
                let index = ChunkCoords::new(x, y).get_chunk_index(rows);
                assert_eq!(ChunkCoords::from_chunk_id(index, rows), [x, y]);
            }
        }
    }
}

#[test]
fn chunk_layout_of_a_small_grid() {
    let layout = chunk_layout(3);
    assert_eq!(layout.len(), 9);
    assert_eq!(layout[0], (0, [0, 0]));
    assert_eq!(layout[1], (1, [1, 0]));
    assert_eq!(layout[4], (4, [1, 1]));
    assert_eq!(layout[5], (5, [2, 1]));
    assert_eq!(layout[8], (8, [2, 2]));
}

#[test]
fn chunk_layout_covers_every_cell_once() {
    let rows = 16;
    let layout = chunk_layout(rows);
    let mut seen = vec![false; (rows * rows) as usize];
    for (id, coords) in layout.iter() {
        assert!(coords[0] < rows && coords[1] < rows);
        let cell = coords.get_chunk_index(rows) as usize;
        assert_eq!(cell, *id as usize);
        assert!(!seen[cell]);
        seen[cell] = true;
    }
    assert!(seen.iter().all(|s| *s));
}

#[test]
fn chunk_layout_of_empty_grid() {
    assert!(chunk_layout(0).is_empty());
}

#[test]
fn chunk_new_keeps_id() {
    assert_eq!(Chunk::new(42).chunk_id, 42);
}

#[test]
fn chunk_render_distance_in_chunks() {
    assert_eq!(chunk_render_distance(2000, 16), 125);
    assert_eq!(chunk_render_distance(15, 16), 0);
    assert_eq!(chunk_render_distance(100, 7), 14);
}
