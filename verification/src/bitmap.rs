//! The bitmap of one rasterised page and its encoding as a PNG image.

use vstd::prelude::*;

verus! {

/// Bytes per pixel: red, green, blue, 8 bits each, no alpha.
pub const CHANNELS: usize = 3;

/// Factor by which a page is enlarged in both axes when it is rasterised.
pub const RENDER_SCALE: u8 = 2;

/// Whether a pixel buffer of `len` bytes is exactly the RGB bitmap of
/// `width` by `height` pixels, one row of which can be addressed.
pub open spec fn bitmap_consistent(width: u32, height: u32, len: nat) -> bool {
    &&& CHANNELS * width <= usize::MAX
    &&& len == CHANNELS * width * height
}

/// A page bitmap: RGB triplets, row by row. Its buffer always has the
/// length that its dimensions ask for.
pub struct PageBitmap {
    width: u32,
    height: u32,
    samples: Vec<u8>,
}

/// The mathematical content of a `PageBitmap`.
pub struct BitmapModel {
    pub width: u32,
    pub height: u32,
    pub samples: Seq<u8>,
}

impl View for PageBitmap {
    type V = BitmapModel;

    closed spec fn view(&self) -> BitmapModel {
        BitmapModel { width: self.width, height: self.height, samples: self.samples@ }
    }
}

/// Checks `len` against the dimensions.
pub fn check_consistent(width: u32, height: u32, len: usize) -> (ok: bool)
    ensures
        ok == bitmap_consistent(width, height, len as nat),
{
    let row: u64 = 3 * (width as u64);
    if row > usize::MAX as u64 {
        return false;
    }
    proof {
        assert(row as int * height as int <= 0x3_0000_0000 * 0x1_0000_0000) by (nonlinear_arith)
            requires
                0 <= row as int <= 0x3_0000_0000,
                0 <= height as int <= 0x1_0000_0000,
        ;
        assert(CHANNELS * width * height == row as int * height as int) by (nonlinear_arith)
            requires
                row as int == 3 * width as int,
                CHANNELS == 3,
        ;
    }
    let total: u128 = (row as u128) * (height as u128);
    total == len as u128
}

impl PageBitmap {
    #[verifier::type_invariant]
    spec fn consistent(self) -> bool {
        bitmap_consistent(self.width, self.height, self.samples@.len())
    }

    /// The bitmap of the given dimensions over `samples`, or `None` where
    /// the buffer's length does not match them.
    pub fn from_raw(width: u32, height: u32, samples: Vec<u8>) -> (bitmap: Option<PageBitmap>)
        ensures
            bitmap.is_some() == bitmap_consistent(width, height, samples@.len()),
            bitmap matches Some(b) ==> b@ == (BitmapModel { width, height, samples: samples@ }),
    {
        if check_consistent(width, height, samples.len()) {
            Some(PageBitmap { width, height, samples })
        } else {
            None
        }
    }

    pub fn width(&self) -> (width: u32)
        ensures
            width == self@.width,
    {
        self.width
    }

    pub fn height(&self) -> (height: u32)
        ensures
            height == self@.height,
    {
        self.height
    }

    pub fn samples(&self) -> (samples: &Vec<u8>)
        ensures
            samples@ == self@.samples,
            bitmap_consistent(self@.width, self@.height, samples@.len()),
    {
        proof {
            use_type_invariant(self);
        }
        &self.samples
    }

    /// Gives the dimensions and the buffer back.
    pub fn into_raw(self) -> (raw: (u32, u32, Vec<u8>))
        ensures
            raw.0 == self@.width,
            raw.1 == self@.height,
            raw.2@ == self@.samples,
            bitmap_consistent(raw.0, raw.1, raw.2@.len()),
    {
        proof {
            use_type_invariant(&self);
        }
        (self.width, self.height, self.samples)
    }
}

} // verus!
