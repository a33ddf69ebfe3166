use vstd::prelude::*;

use crate::image_data::{ImageData, PixelFormat};
use crate::png_encoding::{png_encode_gray16, png_gray16_encoding, PngWriteError};

verus! {

/// Height data in the format `[y][x]`.
pub type HeightMapU16 = Vec<Vec<u16>>;

#[derive(Clone, Copy, Debug, PartialEq, Eq)]
pub enum HeightMapError {
    LoadingError,
}

/// The value of two little-endian bytes.
pub open spec fn le_u16(lo: u8, hi: u8) -> u16 {
    (lo as int + 256 * (hi as int)) as u16
}

/// Byte offset of pixel `(x, y)` in a tightly packed two-byte-per-pixel image of the given width.
pub open spec fn r16_offset(x: int, y: int, width: int) -> int {
    2 * (y * width + x)
}

/// The height rows stored in the first `2 * width * height` bytes of R16 pixel data.
pub open spec fn decode_r16(width: nat, height: nat, data: Seq<u8>) -> Seq<Seq<u16>> {
    Seq::new(
        height,
        |y: int|
            Seq::new(
                width,
                |x: int|
                    le_u16(
                        data[r16_offset(x, y, width as int)],
                        data[r16_offset(x, y, width as int) + 1],
                    ),
            ),
    )
}

/// An image can be read as a height map when it is R16 and holds two bytes per pixel.
pub open spec fn is_loadable_height_image(image: ImageData) -> bool {
    &&& image.format == PixelFormat::R16Uint
    &&& image.data@.len() >= 2 * (image.width as int) * (image.height as int)
}

/// The rows of a height map as sequences.
pub open spec fn rows_of(map: Seq<Vec<u16>>) -> Seq<Seq<u16>> {
    map.map_values(|row: Vec<u16>| row@)
}

/// Every row is extended by the matching element of `col`.
pub open spec fn with_column(rows: Seq<Seq<u16>>, col: Seq<u16>) -> Seq<Seq<u16>> {
    Seq::new(rows.len(), |i: int| rows[i].push(col[i]))
}

pub trait HeightMap: Sized {
    spec fn height_rows(&self) -> Seq<Seq<u16>>;

    /// Reads an R16 image into rows `[y][x]`; any other format, or too few bytes, is an error.
    fn load_from_image(image: &ImageData) -> (result: Result<Box<Self>, HeightMapError>)
        ensures
            match result {
                Ok(map) => is_loadable_height_image(*image) && map.height_rows() == decode_r16(
                    image.width as nat,
                    image.height as nat,
                    image.data@,
                ),
                Err(e) => !is_loadable_height_image(*image) && e == HeightMapError::LoadingError,
            },
    ;

    /// Adds `row` as a new last row.
    fn append_x_row(&mut self, row: Vec<u16>)
        ensures
            final(self).height_rows() == old(self).height_rows().push(row@),
    ;

    /// Adds `col[i]` at the end of row `i`, for every row.
    fn append_y_col(&mut self, col: Vec<u16>)
        requires
            col@.len() == old(self).height_rows().len(),
        ensures
            final(self).height_rows() == with_column(old(self).height_rows(), col@),
    ;
}

impl HeightMap for HeightMapU16 {
    open spec fn height_rows(&self) -> Seq<Seq<u16>> {
        rows_of(self@)
    }

    fn load_from_image(image: &ImageData) -> (result: Result<Box<Self>, HeightMapError>) {
        let width = image.width;
        let height = image.height;
        let ghost w = width as int;
        let ghost h = height as int;
        let ghost target = decode_r16(width as nat, height as nat, image.data@);

        match image.format {
            PixelFormat::R16Uint => {},
            _ => {
                return Err(HeightMapError::LoadingError);
            },
        }

        let data_len = image.data.len();
        let mut height_map: Vec<Vec<u16>> = Vec::new();
        let mut pos: usize = 0;
        let mut y: u32 = 0;
        while y < height
            invariant
                image.format == PixelFormat::R16Uint,
                width == image.width,
                height == image.height,
                w == width,
                h == height,
                data_len == image.data@.len(),
                target == decode_r16(width as nat, height as nat, image.data@),
                y <= height,
                pos == r16_offset(0, y as int, w),
                pos <= data_len,
                height_map@.len() == y,
                forall|j: int| 0 <= j < y ==> #[trigger] height_map@[j]@ == target[j],
            decreases height - y,
        {
            let mut row: Vec<u16> = Vec::new();
            let mut x: u32 = 0;
            while x < width
                invariant
                    image.format == PixelFormat::R16Uint,
                    width == image.width,
                    height == image.height,
                    w == width,
                    h == height,
                    data_len == image.data@.len(),
                    target == decode_r16(width as nat, height as nat, image.data@),
                    y < height,
                    x <= width,
                    pos == r16_offset(x as int, y as int, w),
                    pos <= data_len,
                    row@.len() == x,
                    forall|i: int| 0 <= i < x ==> #[trigger] row@[i] == target[y as int][i],
                decreases width - x,
            {
                if data_len - pos < 2 {
                    proof {
                        assert(data_len < r16_offset(x as int, y as int, w) + 2);
                        assert((y as int) * w + (x as int) + 1 <= (y as int + 1) * w)
                            by (nonlinear_arith)
                            requires
                                x < w,
                        ;
                        assert((y as int + 1) * w <= h * w) by (nonlinear_arith)
                            requires
                                y < h,
                                w >= 0,
                        ;
                        assert(2 * w * h == 2 * (h * w)) by (nonlinear_arith);
                    }
                    return Err(HeightMapError::LoadingError);
                }
                let b1 = image.data[pos];
                let b2 = image.data[pos + 1];
                let height_value: u16 = (b1 as u16) + (b2 as u16) * 256;
                row.push(height_value);
                proof {
                    assert(row@[x as int] == target[y as int][x as int]);
                }
                pos = pos + 2;
                x = x + 1;
            }
            proof {
                assert(row@ =~= target[y as int]);
                assert((y as int) * w + w == (y as int + 1) * w) by (nonlinear_arith);
            }
            height_map.push(row);
            y = y + 1;
        }
        proof {
            assert(r16_offset(0, h, w) == 2 * (h * w));
            assert(2 * w * h == 2 * (h * w)) by (nonlinear_arith);
            assert(rows_of(height_map@) =~= target);
        }
        Ok(Box::new(height_map))
    }

    fn append_x_row(&mut self, row: Vec<u16>) {
        self.push(row);
        proof {
            assert(rows_of(self@) =~= rows_of(old(self)@).push(row@));
        }
    }

    fn append_y_col(&mut self, col: Vec<u16>) {
        let n = self.len();
        let ghost old_rows = rows_of(self@);
        let mut i: usize = 0;
        while i < n
            invariant
                n == self@.len(),
                n == col@.len(),
                old_rows == rows_of(old(self)@),
                old_rows.len() == n,
                i <= n,
                forall|j: int| 0 <= j < i ==> #[trigger] self@[j]@ == old_rows[j].push(col@[j]),
                forall|j: int| i <= j < n ==> #[trigger] self@[j]@ == old_rows[j],
            decreases n - i,
        {
            let value = col[i];
            let mut row: Vec<u16> = Vec::new();
            std::mem::swap(&mut row, &mut self[i]);
            row.push(value);
            self.set(i, row);
            i = i + 1;
        }
        proof {
            assert(rows_of(self@) =~= with_column(old_rows, col@));
        }
    }
}

/// A height value as two big-endian bytes.
pub open spec fn u16_be_bytes(v: u16) -> Seq<u8> {
    seq![(v / 256) as u8, (v % 256) as u8]
}

/// The values of a row as big-endian bytes.
pub open spec fn row_be_bytes(row: Seq<u16>) -> Seq<u8>
    decreases row.len(),
{
    if row.len() == 0 {
        Seq::empty()
    } else {
        row_be_bytes(row.drop_last()) + u16_be_bytes(row.last())
    }
}

/// All rows, one after the other, as big-endian bytes.
pub open spec fn rows_be_bytes(rows: Seq<Seq<u16>>) -> Seq<u8>
    decreases rows.len(),
{
    if rows.len() == 0 {
        Seq::empty()
    } else {
        rows_be_bytes(rows.drop_last()) + row_be_bytes(rows.last())
    }
}

/// The width a height map is saved with: the length of its first row, or 0 when it has none.
pub open spec fn saved_width(rows: Seq<Seq<u16>>) -> nat {
    if rows.len() == 0 {
        0
    } else {
        rows[0].len()
    }
}

/// The 16-bit grayscale PNG file of a height map: as wide as its first row, as high as its
/// number of rows (both taken modulo 2^32, as a `u32` cast does), holding all values big-endian.
/// The encoder refuses a zero width or height, and data whose length does not match.
pub fn heightmap_png_bytes(map: &HeightMapU16) -> (result: Result<Vec<u8>, PngWriteError>)
    ensures
        ({
            let rows = rows_of(map@);
            let width = saved_width(rows) as u32;
            let height = rows.len() as u32;
            let samples = rows_be_bytes(rows);
            match result {
                Ok(bytes) => {
                    &&& width > 0 && height > 0
                    &&& samples.len() == 2 * (width as int) * (height as int)
                    &&& bytes@ == png_gray16_encoding(width, height, samples)
                },
                Err(PngWriteError::HeaderRejected) => width == 0 || height == 0,
                Err(PngWriteError::DataRejected) => {
                    &&& width > 0 && height > 0
                    &&& samples.len() != 2 * (width as int) * (height as int)
                },
            }
        }),
{
    let height = map.len();
    let width = if height == 0 {
        0
    } else {
        map[0].len()
    };
    let ghost rows = rows_of(map@);
    let mut buffer: Vec<u8> = Vec::new();
    let mut i: usize = 0;
    while i < height
        invariant
            height == map@.len(),
            rows == rows_of(map@),
            i <= height,
            buffer@ == rows_be_bytes(rows.take(i as int)),
        decreases height - i,
    {
        let row = &map[i];
        let mut j: usize = 0;
        while j < row.len()
            invariant
                height == map@.len(),
                rows == rows_of(map@),
                i < height,
                row@ == rows[i as int],
                j <= row@.len(),
                buffer@ == rows_be_bytes(rows.take(i as int)) + row_be_bytes(row@.take(j as int)),
            decreases row@.len() - j,
        {
            let value = row[j];
            buffer.push((value / 256) as u8);
            buffer.push((value % 256) as u8);
            proof {
                assert(row@.take(j as int + 1).drop_last() =~= row@.take(j as int));
                assert(row_be_bytes(row@.take(j as int + 1)) == row_be_bytes(row@.take(j as int))
                    + u16_be_bytes(value));
            }
            j = j + 1;
        }
        proof {
            assert(row@.take(row@.len() as int) =~= row@);
            assert(rows.take(i as int + 1).drop_last() =~= rows.take(i as int));
        }
        i = i + 1;
    }
    proof {
        assert(rows.take(height as int) =~= rows);
    }
    let png_width = width as u32;
    let png_height = height as u32;
    let sample_count = buffer.len();
    proof {
        assert(2 * (png_width as int) * (png_height as int) <= 2 * 0xffff_ffff * 0xffff_ffff)
            by (nonlinear_arith)
            requires
                png_width <= 0xffff_ffff,
                png_height <= 0xffff_ffff,
        ;
    }
    let samples_needed: u128 = 2u128 * (png_width as u128) * (png_height as u128);
    if samples_needed > usize::MAX as u128 {
        // No buffer can hold that many samples: the encoder refuses the data.
        proof {
            assert(png_width > 0 && png_height > 0) by (nonlinear_arith)
                requires
                    2 * (png_width as int) * (png_height as int) > 0,
                    png_width >= 0,
                    png_height >= 0,
            ;
            assert(sample_count as int == buffer@.len());
        }
        return Err(PngWriteError::DataRejected);
    }
    png_encode_gray16(png_width, png_height, &buffer)
}

/// The height under the eyedropper: the sample at `[y][x]` when both coordinates are below
/// the number of rows (the map is taken to be square), `None` otherwise.
pub fn eyedrop_height(height_map: &HeightMapU16, x: usize, y: usize) -> (height: Option<u16>)
    requires
        x < height_map@.len() && y < height_map@.len() ==> x < height_map@[y as int]@.len(),
    ensures
        height == if x < height_map@.len() && y < height_map@.len() {
            Some(height_map@[y as int]@[x as int])
        } else {
            None::<u16>
        },
{
    let img_data_length = height_map.len();
    if x < img_data_length && y < img_data_length {
        Some(height_map[y][x])
    } else {
        None
    }
}

/// The four corner samples of the mesh cell at `(x, z)` spanning `step_size` samples, in the
/// order left-back `[z][x]`, left-front `[z + step][x]`, right-back `[z][x + step]`,
/// right-front `[z + step][x + step]`; `None` when the cell reaches past the width of the first
/// row or past the last row.
pub open spec fn quad_sample(rows: Seq<Seq<u16>>, x: int, z: int, step_size: int) -> Option<[u16; 4]> {
    if x + step_size >= rows[0].len() || z + step_size >= rows.len() {
        None
    } else {
        Some(
            [
                rows[z][x],
                rows[z + step_size][x],
                rows[z][x + step_size],
                rows[z + step_size][x + step_size],
            ],
        )
    }
}

/// The inputs on which sampling a cell stays in bounds: the map has a first row, the indices do
/// not overflow, and when the cell lies inside the first row's width and the row count, both
/// rows it reads are long enough.
pub open spec fn quad_sample_in_bounds(rows: Seq<Seq<u16>>, x: int, z: int, step_size: int) -> bool {
    &&& rows.len() > 0
    &&& x + step_size <= usize::MAX
    &&& z + step_size <= usize::MAX
    &&& (x + step_size < rows[0].len() && z + step_size < rows.len()) ==> {
        &&& rows[z].len() > x + step_size
        &&& rows[z + step_size].len() > x + step_size
    }
}

/// Whether `sample_quad` may be called on these inputs (see `quad_sample_in_bounds`).
pub fn can_sample_quad(height_data: &HeightMapU16, x: usize, z: usize, step_size: usize) -> (ok: bool)
    ensures
        ok == quad_sample_in_bounds(rows_of(height_data@), x as int, z as int, step_size as int),
{
    if height_data.len() == 0 {
        return false;
    }
    if x > usize::MAX - step_size || z > usize::MAX - step_size {
        return false;
    }
    if x + step_size < height_data[0].len() && z + step_size < height_data.len() {
        height_data[z].len() > x + step_size && height_data[z + step_size].len() > x + step_size
    } else {
        true
    }
}

/// See `quad_sample`.
pub fn sample_quad(height_data: &HeightMapU16, x: usize, z: usize, step_size: usize) -> (quad: Option<[u16; 4]>)
    requires
        quad_sample_in_bounds(rows_of(height_data@), x as int, z as int, step_size as int),
    ensures
        quad == quad_sample(rows_of(height_data@), x as int, z as int, step_size as int),
{
    let sub_heightmap_height = height_data.len();
    let sub_heightmap_width = height_data[0].len();
    if x + step_size >= sub_heightmap_width || z + step_size >= sub_heightmap_height {
        return None;
    }
    let lb = height_data[z][x];
    let lf = height_data[z + step_size][x];
    let rb = height_data[z][x + step_size];
    let rf = height_data[z + step_size][x + step_size];
    Some([lb, lf, rb, rf])
}

} // verus!
