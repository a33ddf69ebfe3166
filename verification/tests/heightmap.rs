use bevy_mesh_terrain::heightmap::{
    can_sample_quad, eyedrop_height, heightmap_png_bytes, sample_quad, HeightMap, HeightMapError, HeightMapU16,
};
use bevy_mesh_terrain::image_data::{ImageData, PixelFormat};
use bevy_mesh_terrain::png_encoding::PngWriteError;

fn r16_image(width: u32, height: u32, data: Vec<u8>) -> ImageData {
    ImageData::new(width, height, PixelFormat::R16Uint, data)
}

#[test]
fn load_from_image_reads_little_endian_rows() {
    let image = r16_image(2, 2, vec![1, 0, 0, 1, 0xff, 0xff, 0x34, 0x12]);
    let map = HeightMapU16::load_from_image(&image).unwrap();
    assert_eq!(*map, vec![vec![1, 256], vec![65535, 0x1234]]);
}

#[test]
fn load_from_image_ignores_extra_bytes() {
    let image = r16_image(1, 1, vec![7, 0, 9, 9, 9]);
    let map = HeightMapU16::load_from_image(&image).unwrap();
    assert_eq!(*map, vec![vec![7]]);
}

#[test]
fn load_from_image_of_empty_image() {
    let image = r16_image(0, 3, vec![]);
    let map = HeightMapU16::load_from_image(&image).unwrap();
    assert_eq!(*map, vec![Vec::<u16>::new(), vec![], vec![]]);
}

#[test]
fn load_from_image_rejects_wrong_format() {
    let image = ImageData::new(1, 1, PixelFormat::Rgba8Unorm, vec![1, 2, 3, 4]);
    assert_eq!(HeightMapU16::load_from_image(&image).unwrap_err(), HeightMapError::LoadingError);
}

#[test]
fn load_from_image_rejects_short_data() {
    let image = r16_image(2, 2, vec![1, 0, 2, 0, 3, 0, 4]);
    assert_eq!(HeightMapU16::load_from_image(&image).unwrap_err(), HeightMapError::LoadingError);
}

#[test]
fn append_x_row_adds_last_row() {
    let mut map: HeightMapU16 = vec![vec![1, 2], vec![3, 4]];
    map.append_x_row(vec![5, 6]);
    assert_eq!(map, vec![vec![1, 2], vec![3, 4], vec![5, 6]]);
}

#[test]
fn append_y_col_extends_every_row() {
    let mut map: HeightMapU16 = vec![vec![1, 2], vec![3, 4]];
    map.append_y_col(vec![9, 8]);
    assert_eq!(map, vec![vec![1, 2, 9], vec![3, 4, 8]]);
}

#[test]
fn eyedrop_reads_inside_square() {
    let map: HeightMapU16 = vec![vec![1, 2], vec![3, 4]];
    assert_eq!(eyedrop_height(&map, 1, 0), Some(2));
    assert_eq!(eyedrop_height(&map, 0, 1), Some(3));
    assert_eq!(eyedrop_height(&map, 2, 0), None);
    assert_eq!(eyedrop_height(&map, 0, 2), None);
}

#[test]
fn sample_quad_corners() {
    let map: HeightMapU16 = vec![vec![1, 2, 3], vec![4, 5, 6], vec![7, 8, 9]];
    assert_eq!(sample_quad(&map, 0, 0, 1), Some([1, 4, 2, 5]));
    assert_eq!(sample_quad(&map, 1, 1, 1), Some([5, 8, 6, 9]));
    assert_eq!(sample_quad(&map, 0, 0, 2), Some([1, 7, 3, 9]));
    assert_eq!(sample_quad(&map, 2, 0, 1), None);
    assert_eq!(sample_quad(&map, 0, 2, 1), None);
}

fn decode_gray16(bytes: &[u8]) -> (u32, u32, Vec<u8>) {
    let decoder = png::Decoder::new(bytes);
    let mut reader = decoder.read_info().unwrap();
    let mut buf = vec![0; reader.output_buffer_size()];
    let info = reader.next_frame(&mut buf).unwrap();
    assert_eq!(info.color_type, png::ColorType::Grayscale);
    assert_eq!(info.bit_depth, png::BitDepth::Sixteen);
    buf.truncate(info.buffer_size());
    (info.width, info.height, buf)
}

#[test]
fn heightmap_png_holds_big_endian_samples() {
    let map: HeightMapU16 = vec![vec![1, 256, 0x1234], vec![65535, 0, 7]];
    let bytes = heightmap_png_bytes(&map).unwrap();
    assert_eq!(&bytes[..8], &[137, 80, 78, 71, 13, 10, 26, 10]);
    let (width, height, samples) = decode_gray16(&bytes);
    assert_eq!((width, height), (3, 2));
    assert_eq!(samples, vec![0, 1, 1, 0, 0x12, 0x34, 0xff, 0xff, 0, 0, 0, 7]);
}

#[test]
fn heightmap_png_differs_with_content() {
    let a = heightmap_png_bytes(&vec![vec![1u16, 2], vec![3, 4]]).unwrap();
    let b = heightmap_png_bytes(&vec![vec![1u16, 2], vec![3, 5]]).unwrap();
    assert_ne!(a, b);
}

#[test]
fn heightmap_png_rejects_empty_map() {
    let map: HeightMapU16 = vec![];
    assert_eq!(heightmap_png_bytes(&map).unwrap_err(), PngWriteError::HeaderRejected);
    let map: HeightMapU16 = vec![vec![], vec![]];
    assert_eq!(heightmap_png_bytes(&map).unwrap_err(), PngWriteError::HeaderRejected);
}

#[test]
fn heightmap_png_rejects_ragged_rows() {
    let map: HeightMapU16 = vec![vec![1, 2], vec![3]];
    assert_eq!(heightmap_png_bytes(&map).unwrap_err(), PngWriteError::DataRejected);
}

#[test]
fn sample_quad_bounds() {
    let map: HeightMapU16 = vec![vec![1, 2, 3], vec![4, 5, 6], vec![7, 8, 9]];
    assert!(can_sample_quad(&map, 0, 0, 1));
    assert!(can_sample_quad(&map, 5, 5, 1));
    assert!(!can_sample_quad(&map, usize::MAX, 0, 1));
    let empty: HeightMapU16 = vec![];
    assert!(!can_sample_quad(&empty, 0, 0, 1));
    let ragged: HeightMapU16 = vec![vec![1, 2, 3], vec![4]];
    assert!(!can_sample_quad(&ragged, 0, 0, 1));
}
