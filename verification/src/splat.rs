use vstd::prelude::*;

use crate::image_data::{same_image, ImageData, PixelFormat};
use crate::png_encoding::{png_encode_rgba8, png_rgba8_encoding};

verus! {

/// Number of layers (bytes) per splat map pixel: R, G, B and A.
pub const SPLAT_LAYERS: usize = 4;

/// Byte offset of layer `layer` of pixel `(x, y)` in an RGBA splat map of the given width.
pub open spec fn splat_byte_index(x: int, y: int, width: int, layer: int) -> int {
    (y * width + x) * 4 + layer
}

/// The raw splat data of a chunk: which texture each layer of a pixel uses (index map) and
/// how strongly (strength map), both RGBA with one byte per layer.
pub struct ChunkSplatDataRaw {
    pub splat_index_map_texture: ImageData,
    pub splat_strength_map_texture: ImageData,
}

/// A pixel may be written when its linear index fits a `u32` and layer `last_layer` of it lies
/// inside both maps; the pixel's row stride is the index map's width.
pub open spec fn splat_pixel_in_bounds(data: ChunkSplatDataRaw, x: u32, y: u32, last_layer: int) -> bool {
    let width = data.splat_index_map_texture.width as int;
    let idx = splat_byte_index(x as int, y as int, width, last_layer);
    &&& (y as int) * width + (x as int) <= u32::MAX
    &&& idx < data.splat_index_map_texture.data@.len()
    &&& idx < data.splat_strength_map_texture.data@.len()
}

/// Both maps keep their size and format.
pub open spec fn splat_maps_keep_shape(before: ChunkSplatDataRaw, after: ChunkSplatDataRaw) -> bool {
    &&& after.splat_index_map_texture.width == before.splat_index_map_texture.width
    &&& after.splat_index_map_texture.height == before.splat_index_map_texture.height
    &&& after.splat_index_map_texture.format == before.splat_index_map_texture.format
    &&& after.splat_strength_map_texture.width == before.splat_strength_map_texture.width
    &&& after.splat_strength_map_texture.height == before.splat_strength_map_texture.height
    &&& after.splat_strength_map_texture.format == before.splat_strength_map_texture.format
}

impl ChunkSplatDataRaw {
    /// Whether layer `last_layer` of pixel `(x, y)` (and so every lower layer) can be written
    /// (see `splat_pixel_in_bounds`).
    pub fn pixel_in_bounds(&self, x: u32, y: u32, last_layer: u8) -> (in_bounds: bool)
        ensures
            in_bounds == splat_pixel_in_bounds(*self, x, y, last_layer as int),
    {
        let width = self.splat_index_map_texture.width as u64;
        proof {
            assert((y as u64) * width <= 0xffff_ffffu64 * 0xffff_ffffu64) by (nonlinear_arith)
                requires
                    y <= 0xffff_ffffu64,
                    width <= 0xffff_ffffu64,
            ;
        }
        let pixel_index = (y as u64) * width + (x as u64);
        if pixel_index > u32::MAX as u64 {
            return false;
        }
        let idx = pixel_index * 4 + last_layer as u64;
        idx < self.splat_index_map_texture.data.len() as u64
            && idx < self.splat_strength_map_texture.data.len() as u64
    }

    /// Writes `texture_type_index` into layer `layer` of pixel `(x, y)` of the index map and
    /// `texture_strength` into the same layer of the same pixel of the strength map. Every other
    /// byte of both maps stays as it was.
    pub fn set_exact_pixel_data(
        &mut self,
        x: u32,
        y: u32,
        layer: u8,
        texture_type_index: u8,
        texture_strength: u8,
    )
        requires
            splat_pixel_in_bounds(*old(self), x, y, layer as int),
        ensures
            ({
                let idx = splat_byte_index(
                    x as int,
                    y as int,
                    old(self).splat_index_map_texture.width as int,
                    layer as int,
                );
                &&& splat_maps_keep_shape(*old(self), *final(self))
                &&& final(self).splat_index_map_texture.data@
                    == old(self).splat_index_map_texture.data@.update(idx, texture_type_index)
                &&& final(self).splat_strength_map_texture.data@
                    == old(self).splat_strength_map_texture.data@.update(idx, texture_strength)
            }),
    {
        proof {
            // the index map's length fits a `usize`, and so does every offset below it
            assert(self.splat_index_map_texture.data@.len() == self.splat_index_map_texture.data.len());
        }
        let width = self.splat_index_map_texture.width;
        let pixel_index = (y * width + x) as usize;
        let index_offset = pixel_index * SPLAT_LAYERS;
        let idx = index_offset + layer as usize;
        self.splat_index_map_texture.data.set(idx, texture_type_index);
        self.splat_strength_map_texture.data.set(idx, texture_strength);
    }

    /// Sets all four layers of pixel `(x, y)` to 0 in both maps; every other byte of both maps
    /// stays as it was.
    pub fn clear_all_pixel_data(&mut self, x: u32, y: u32)
        requires
            splat_pixel_in_bounds(*old(self), x, y, 3),
        ensures
            ({
                let base = splat_byte_index(
                    x as int,
                    y as int,
                    old(self).splat_index_map_texture.width as int,
                    0,
                );
                let old_index = old(self).splat_index_map_texture.data@;
                let old_strength = old(self).splat_strength_map_texture.data@;
                &&& splat_maps_keep_shape(*old(self), *final(self))
                &&& final(self).splat_index_map_texture.data@.len() == old_index.len()
                &&& final(self).splat_strength_map_texture.data@.len() == old_strength.len()
                &&& forall|i: int|
                    0 <= i < old_index.len() ==> #[trigger] final(self).splat_index_map_texture.data@[i]
                        == if base <= i < base + 4 {
                        0u8
                    } else {
                        old_index[i]
                    }
                &&& forall|i: int|
                    0 <= i < old_strength.len() ==> #[trigger] final(self).splat_strength_map_texture.data@[i]
                        == if base <= i < base + 4 {
                        0u8
                    } else {
                        old_strength[i]
                    }
            }),
    {
        let ghost old_index = self.splat_index_map_texture.data@;
        let ghost old_strength = self.splat_strength_map_texture.data@;
        let ghost base = splat_byte_index(x as int, y as int, self.splat_index_map_texture.width as int, 0);
        let mut layer: usize = 0;
        while layer < SPLAT_LAYERS
            invariant
                0 <= layer <= 4,
                splat_maps_keep_shape(*old(self), *self),
                base == splat_byte_index(x as int, y as int, self.splat_index_map_texture.width as int, 0),
                (y as int) * (self.splat_index_map_texture.width as int) + (x as int) <= u32::MAX,
                base + 3 < self.splat_index_map_texture.data@.len(),
                base + 3 < self.splat_strength_map_texture.data@.len(),
                self.splat_index_map_texture.data@.len() == old_index.len(),
                self.splat_strength_map_texture.data@.len() == old_strength.len(),
                forall|i: int|
                    0 <= i < old_index.len() ==> #[trigger] self.splat_index_map_texture.data@[i]
                        == if base <= i < base + layer {
                        0u8
                    } else {
                        old_index[i]
                    },
                forall|i: int|
                    0 <= i < old_strength.len() ==> #[trigger] self.splat_strength_map_texture.data@[i]
                        == if base <= i < base + layer {
                        0u8
                    } else {
                        old_strength[i]
                    },
            decreases 4 - layer,
        {
            proof {
                // the index map's length fits a `usize`, and so does every offset below it
                assert(self.splat_index_map_texture.data@.len() == self.splat_index_map_texture.data.len());
            }
            let width = self.splat_index_map_texture.width;
            let pixel_index = (y * width + x) as usize;
            let index_offset = pixel_index * SPLAT_LAYERS;
            let idx = index_offset + layer;
            self.splat_index_map_texture.data.set(idx, 0);
            self.splat_strength_map_texture.data.set(idx, 0);
            layer = layer + 1;
        }
    }

    /// Splat data made of copies of the two maps.
    pub fn build_from_images(splat_index_map: &ImageData, splat_strength_map: &ImageData) -> (data: Self)
        ensures
            same_image(data.splat_index_map_texture, *splat_index_map),
            same_image(data.splat_strength_map_texture, *splat_strength_map),
    {
        Self {
            splat_index_map_texture: splat_index_map.duplicate(),
            splat_strength_map_texture: splat_strength_map.duplicate(),
        }
    }

    /// The index map and the strength map, in that order.
    pub fn get_images(&self) -> (images: (&ImageData, &ImageData))
        ensures
            *images.0 == self.splat_index_map_texture,
            *images.1 == self.splat_strength_map_texture,
    {
        (&self.splat_index_map_texture, &self.splat_strength_map_texture)
    }
}

/// The texture and strength of one splat layer of a pixel.
#[derive(Clone, Copy, Debug, PartialEq, Eq)]
pub struct SplatPixelDataRaw {
    pub texture_index: u8,
    pub strength: u8,
}

impl SplatPixelDataRaw {
    pub fn set_exact_pixel_data(&mut self, texture_type_index: u8, texture_strength: u8)
        ensures
            final(self).texture_index == texture_type_index,
            final(self).strength == texture_strength,
    {
        self.texture_index = texture_type_index;
        self.strength = texture_strength;
    }
}

/// Why a splat map could not be turned into a PNG file.
#[derive(Clone, Copy, Debug, PartialEq, Eq)]
pub enum SplatSaveError {
    /// The map's pixel format is not one that this map is saved from.
    UnsupportedFormat,
    /// The map holds fewer than `4 * width * height` bytes.
    BufferTooSmall,
    /// The PNG encoder refused the image (zero width or height).
    EncodingFailed,
}

/// Number of bytes of an RGBA8 image of the given size.
pub open spec fn rgba8_len(width: u32, height: u32) -> int {
    4 * (width as int) * (height as int)
}

/// A buffer of `len` bytes holds an RGBA8 image of the given size: the byte count of a row and
/// of the whole image can be computed in a `usize` and does not exceed `len`.
pub open spec fn rgba8_fits(width: u32, height: u32, len: int) -> bool {
    &&& 4 * (width as int) <= usize::MAX
    &&& rgba8_len(width, height) <= len
}

/// The outcome of encoding an RGBA8 map whose format has been accepted: the first
/// `4 * width * height` bytes as a PNG, or the reason it cannot be done.
pub open spec fn rgba8_png_outcome(image: ImageData, bytes: Result<Vec<u8>, SplatSaveError>) -> bool {
    let needed = rgba8_len(image.width, image.height);
    match bytes {
        Ok(png) => {
            &&& rgba8_fits(image.width, image.height, image.data@.len() as int)
            &&& image.width > 0 && image.height > 0
            &&& png@ == png_rgba8_encoding(image.width, image.height, image.data@.take(needed))
        },
        Err(SplatSaveError::BufferTooSmall) => !rgba8_fits(
            image.width,
            image.height,
            image.data@.len() as int,
        ),
        Err(SplatSaveError::EncodingFailed) => rgba8_fits(
            image.width,
            image.height,
            image.data@.len() as int,
        ) && (image.width == 0 || image.height == 0),
        Err(SplatSaveError::UnsupportedFormat) => false,
    }
}

/// The first `4 * width * height` bytes of an RGBA8 map encoded as a PNG file.
fn rgba8_png(image: &ImageData) -> (result: Result<Vec<u8>, SplatSaveError>)
    ensures
        rgba8_png_outcome(*image, result),
{
    let width = image.width;
    let height = image.height;
    let data_len = image.data.len();
    let row_len = match SPLAT_LAYERS.checked_mul(width as usize) {
        Some(row) => row,
        None => {
            return Err(SplatSaveError::BufferTooSmall);
        },
    };
    let needed = match row_len.checked_mul(height as usize) {
        Some(n) => n,
        None => {
            return Err(SplatSaveError::BufferTooSmall);
        },
    };
    if needed > image.data.len() {
        return Err(SplatSaveError::BufferTooSmall);
    }
    let (pixels, _) = image.data.as_slice().split_at(needed);
    match png_encode_rgba8(width, height, pixels) {
        Ok(png) => Ok(png),
        Err(_) => Err(SplatSaveError::EncodingFailed),
    }
}

/// The PNG file a splat map is saved as; only `Rgba8Unorm` and `Rgba8UnormSrgb` maps are saved.
pub fn encode_chunk_splat_map(splat_image: &ImageData) -> (result: Result<Vec<u8>, SplatSaveError>)
    ensures
        match splat_image.format {
            PixelFormat::Rgba8Unorm | PixelFormat::Rgba8UnormSrgb => rgba8_png_outcome(
                *splat_image,
                result,
            ),
            _ => result == Err::<Vec<u8>, SplatSaveError>(SplatSaveError::UnsupportedFormat),
        },
{
    match splat_image.format {
        PixelFormat::Rgba8Unorm | PixelFormat::Rgba8UnormSrgb => rgba8_png(splat_image),
        _ => Err(SplatSaveError::UnsupportedFormat),
    }
}

/// The PNG file a splat index map is saved as; only `Rgba8Uint` maps are saved.
pub fn encode_chunk_splat_index_map(splat_image: &ImageData) -> (result: Result<Vec<u8>, SplatSaveError>)
    ensures
        match splat_image.format {
            PixelFormat::Rgba8Uint => rgba8_png_outcome(*splat_image, result),
            _ => result == Err::<Vec<u8>, SplatSaveError>(SplatSaveError::UnsupportedFormat),
        },
{
    match splat_image.format {
        PixelFormat::Rgba8Uint => rgba8_png(splat_image),
        _ => Err(SplatSaveError::UnsupportedFormat),
    }
}

/// The PNG file a splat strength map is saved as; only `Rgba8Uint` maps are saved.
pub fn encode_chunk_splat_strength_map(splat_image: &ImageData) -> (result: Result<Vec<u8>, SplatSaveError>)
    ensures
        match splat_image.format {
            PixelFormat::Rgba8Uint => rgba8_png_outcome(*splat_image, result),
            _ => result == Err::<Vec<u8>, SplatSaveError>(SplatSaveError::UnsupportedFormat),
        },
{
    match splat_image.format {
        PixelFormat::Rgba8Uint => rgba8_png(splat_image),
        _ => Err(SplatSaveError::UnsupportedFormat),
    }
}

} // verus!
