use vstd::prelude::*;

verus! {

/// The texture formats that the terrain logic tells apart; every other format is `Other`.
#[derive(Clone, Copy, Debug, PartialEq, Eq)]
pub enum PixelFormat {
    R16Uint,
    Rgba8Unorm,
    Rgba8UnormSrgb,
    Rgba8Uint,
    Other,
}

/// The part of a loaded texture that the terrain logic reads: its size in pixels,
/// its pixel format and its raw bytes (rows top to bottom, pixels left to right).
#[derive(Debug)]
pub struct ImageData {
    pub width: u32,
    pub height: u32,
    pub format: PixelFormat,
    pub data: Vec<u8>,
}

/// Two images with the same size, format and bytes.
pub open spec fn same_image(a: ImageData, b: ImageData) -> bool {
    &&& a.width == b.width
    &&& a.height == b.height
    &&& a.format == b.format
    &&& a.data@ == b.data@
}

impl ImageData {
    pub fn new(width: u32, height: u32, format: PixelFormat, data: Vec<u8>) -> (image: Self)
        ensures
            image.width == width,
            image.height == height,
            image.format == format,
            image.data@ == data@,
    {
        ImageData { width, height, format, data }
    }

    /// A copy of the image: same size, format and bytes.
    pub fn duplicate(&self) -> (copy: Self)
        ensures
            same_image(copy, *self),
    {
        let mut data: Vec<u8> = Vec::new();
        let mut i: usize = 0;
        while i < self.data.len()
            invariant
                i <= self.data@.len(),
                data@ == self.data@.take(i as int),
            decreases self.data@.len() - i,
        {
            data.push(self.data[i]);
            proof {
                assert(self.data@.take(i as int + 1) =~= self.data@.take(i as int).push(self.data@[i as int]));
            }
            i = i + 1;
        }
        proof {
            assert(data@ =~= self.data@);
        }
        ImageData { width: self.width, height: self.height, format: self.format, data }
    }

    pub fn width(&self) -> (width: u32)
        ensures
            width == self.width,
    {
        self.width
    }

    pub fn height(&self) -> (height: u32)
        ensures
            height == self.height,
    {
        self.height
    }
}

/// Whether a texture loaded as a single 2d layer must be reinterpreted as a stacked
/// array texture: more than one layer is wanted and the image has exactly one.
pub fn needs_array_reinterpret(desired_array_layers: u32, depth_or_array_layers: u32) -> (need: bool)
    ensures
        need == (desired_array_layers > 1 && depth_or_array_layers == 1),
{
    desired_array_layers > 1 && depth_or_array_layers == 1
}

} // verus!
