# bevy_mesh_terrain (verified core)

The terrain plugin splits a square terrain into a grid of chunks, each with its own 16-bit
height map and RGBA splat maps. This crate holds the logic behind that, with Verus contracts:

- `src/chunk_coords.rs`: chunk index <-> grid coordinates, and the round-trip laws.
- `src/chunk.rs`: the chunk component's id, the chunk build/reload status transitions, the
  chunk layout a terrain spawns.
- `src/heightmap.rs`: decoding R16 image bytes into height rows, appending stitch rows and
  columns, the 16-bit grayscale PNG of a height map, sampling mesh cells.
- `src/stitch.rs`: which neighbour data closes the seams of a chunk, and the stitched map.
- `src/splat.rs`: writing and clearing splat map pixels, and the PNG files of splat maps.
- `src/image_data.rs`: the size, format and bytes of a texture as the logic sees them.
- `src/png_encoding.rs`: the PNG encoders of the `png` and `image` crates, behind trusted items.
- `src/terrain_config.rs`: the integer part of the terrain configuration.

`app/` is the Bevy plugin around it: ECS systems, materials, meshes built from `f32`
geometry, file I/O and colliders.
