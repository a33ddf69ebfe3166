use bevy_mesh_terrain::image_data::{ImageData, PixelFormat};
use bevy_mesh_terrain::splat::{
    encode_chunk_splat_index_map, encode_chunk_splat_map, encode_chunk_splat_strength_map,
    ChunkSplatDataRaw, SplatPixelDataRaw, SplatSaveError,
};

fn rgba(width: u32, height: u32, format: PixelFormat, fill: u8) -> ImageData {
    ImageData::new(width, height, format, vec![fill; (width * height * 4) as usize])
}

fn splat_data() -> ChunkSplatDataRaw {
    let index = rgba(3, 2, PixelFormat::Rgba8Uint, 1);
    let strength = rgba(3, 2, PixelFormat::Rgba8Uint, 2);
    ChunkSplatDataRaw::build_from_images(&index, &strength)
}

#[test]
fn build_from_images_copies_both_maps() {
    let data = splat_data();
    let (index, strength) = data.get_images();
    assert_eq!((index.width, index.height, index.format), (3, 2, PixelFormat::Rgba8Uint));
    assert_eq!(index.data, vec![1; 24]);
    assert_eq!(strength.data, vec![2; 24]);
}

#[test]
fn set_exact_pixel_data_writes_one_layer_of_one_pixel() {
    let mut data = splat_data();
    data.set_exact_pixel_data(2, 1, 3, 77, 200);
    let idx = (1 * 3 + 2) * 4 + 3;
    for (i, byte) in data.splat_index_map_texture.data.iter().enumerate() {
        assert_eq!(*byte, if i == idx { 77 } else { 1 });
    }
    // The strength map holds how strongly the texture is applied.
    for (i, byte) in data.splat_strength_map_texture.data.iter().enumerate() {
        assert_eq!(*byte, if i == idx { 200 } else { 2 });
    }
}

#[test]
fn clear_all_pixel_data_zeroes_all_four_layers() {
    let mut data = splat_data();
    data.clear_all_pixel_data(1, 0);
    let base = 4;
    for (i, byte) in data.splat_index_map_texture.data.iter().enumerate() {
        assert_eq!(*byte, if base <= i && i < base + 4 { 0 } else { 1 });
    }
    for (i, byte) in data.splat_strength_map_texture.data.iter().enumerate() {
        assert_eq!(*byte, if base <= i && i < base + 4 { 0 } else { 2 });
    }
}

#[test]
fn painted_alpha_layer_is_cleared() {
    let mut data = splat_data();
    data.set_exact_pixel_data(2, 1, 3, 9, 255);
    data.clear_all_pixel_data(2, 1);
    let base = (1 * 3 + 2) * 4;
    for layer in 0..4 {
        assert_eq!(data.splat_index_map_texture.data[base + layer], 0);
        assert_eq!(data.splat_strength_map_texture.data[base + layer], 0);
    }
}


#[test]
fn splat_pixel_set_exact() {
    let mut pixel = SplatPixelDataRaw { texture_index: 0, strength: 0 };
    pixel.set_exact_pixel_data(12, 250);
    assert_eq!(pixel, SplatPixelDataRaw { texture_index: 12, strength: 250 });
}

fn decode_rgba(bytes: &[u8]) -> (u32, u32, Vec<u8>) {
    let image = image::load_from_memory_with_format(bytes, image::ImageFormat::Png).unwrap();
    let rgba = image.to_rgba8();
    (rgba.width(), rgba.height(), rgba.into_raw())
}

#[test]
fn splat_map_encodes_accepted_formats() {
    let mut image = rgba(2, 1, PixelFormat::Rgba8Unorm, 0);
    image.data = vec![1, 2, 3, 4, 5, 6, 7, 8];
    let bytes = encode_chunk_splat_map(&image).unwrap();
    assert_eq!(decode_rgba(&bytes), (2, 1, vec![1, 2, 3, 4, 5, 6, 7, 8]));
    let srgb = ImageData::new(2, 1, PixelFormat::Rgba8UnormSrgb, vec![1, 2, 3, 4, 5, 6, 7, 8]);
    assert_eq!(encode_chunk_splat_map(&srgb).unwrap(), bytes);
}

#[test]
fn splat_map_rejects_other_formats() {
    let image = rgba(2, 1, PixelFormat::Rgba8Uint, 0);
    assert_eq!(encode_chunk_splat_map(&image).unwrap_err(), SplatSaveError::UnsupportedFormat);
    let image = rgba(2, 1, PixelFormat::Rgba8Unorm, 0);
    assert_eq!(encode_chunk_splat_index_map(&image).unwrap_err(), SplatSaveError::UnsupportedFormat);
    assert_eq!(encode_chunk_splat_strength_map(&image).unwrap_err(), SplatSaveError::UnsupportedFormat);
}

#[test]
fn splat_index_and_strength_maps_encode_rgba8_uint() {
    let image = ImageData::new(1, 2, PixelFormat::Rgba8Uint, vec![9, 8, 7, 6, 5, 4, 3, 2]);
    let index = encode_chunk_splat_index_map(&image).unwrap();
    let strength = encode_chunk_splat_strength_map(&image).unwrap();
    assert_eq!(decode_rgba(&index), (1, 2, vec![9, 8, 7, 6, 5, 4, 3, 2]));
    assert_eq!(index, strength);
}

#[test]
fn splat_map_uses_only_the_first_pixels() {
    let image = ImageData::new(1, 1, PixelFormat::Rgba8Uint, vec![1, 2, 3, 4, 99, 99]);
    let bytes = encode_chunk_splat_index_map(&image).unwrap();
    assert_eq!(decode_rgba(&bytes), (1, 1, vec![1, 2, 3, 4]));
}

#[test]
fn splat_map_buffer_too_small() {
    let image = ImageData::new(2, 2, PixelFormat::Rgba8Uint, vec![0; 15]);
    assert_eq!(encode_chunk_splat_index_map(&image).unwrap_err(), SplatSaveError::BufferTooSmall);
}

#[test]
fn splat_map_zero_size_fails_to_encode() {
    let image = ImageData::new(0, 4, PixelFormat::Rgba8Unorm, vec![]);
    assert_eq!(encode_chunk_splat_map(&image).unwrap_err(), SplatSaveError::EncodingFailed);
}

#[test]
fn splat_pixel_bounds() {
    let data = splat_data();
    assert!(data.pixel_in_bounds(2, 1, 3));
    assert!(data.pixel_in_bounds(0, 0, 2));
    assert!(!data.pixel_in_bounds(2, 1, 4));
    assert!(!data.pixel_in_bounds(0, 2, 0));
    assert!(data.pixel_in_bounds(3, 0, 0));
    assert!(!data.pixel_in_bounds(0, u32::MAX, 0));
}
