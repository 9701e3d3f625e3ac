//! The PNG encoding of a page bitmap.

use crate::bitmap::{bitmap_consistent, PageBitmap};
use vstd::prelude::*;

verus! {

#[verifier::external_type_specification]
#[verifier::external_body]
pub struct ExImageError(image::ImageError);

/// The PNG image that the `image` crate writes for the RGB bitmap of these
/// dimensions over these samples, or `None` where its encoder refuses.
pub uninterp spec fn png_encoding(width: u32, height: u32, samples: Seq<u8>) -> Option<Seq<u8>>;

/// `image::RgbImage::from_raw`, then `image::DynamicImage::write_to` with
/// `image::ImageFormat::Png` into a buffer in memory. `from_raw` gives an
/// image when the byte count of the pixels, computed with checked
/// multiplications in `usize`, is no more than the length of the buffer, and
/// the encoder wants the buffer to be of exactly that length: both hold of
/// a consistent bitmap. The encoder works on the bitmap alone, so its
/// result, the bytes or the refusal, has a name.
#[verifier::external_body]
fn write_png(width: u32, height: u32, samples: Vec<u8>) -> (written: Option<
    Result<Vec<u8>, image::ImageError>,
>)
    requires
        bitmap_consistent(width, height, samples@.len()),
    ensures
        written.is_some(),
        written matches Some(result) ==> png_encoding(width, height, samples@) == match result {
            Ok(bytes) => Some(bytes@),
            Err(_) => None,
        },
{
    let picture = image::RgbImage::from_raw(width, height, samples).map(
        image::DynamicImage::ImageRgb8,
    )?;
    let mut buffer = std::io::Cursor::new(Vec::new());
    match picture.write_to(&mut buffer, image::ImageFormat::Png) {
        Ok(()) => Some(Ok(buffer.into_inner())),
        Err(error) => Some(Err(error)),
    }
}

/// The text of an `image::ImageError`, as its `Display` impl writes it.
#[verifier::external_body]
fn image_error_text(error: &image::ImageError) -> (text: String) {
    error.to_string()
}

/// Why a bitmap did not become a PNG image.
#[derive(Debug, PartialEq, Eq)]
pub enum EncodeError {
    /// The image library did not take the buffer for the dimensions. It
    /// takes the buffer of every bitmap.
    NotAssembled,
    /// The encoder failed; the text is the encoder's.
    NotEncoded { detail: String },
}

/// Encodes a page bitmap as a PNG image. A bitmap is consistent, so the
/// image library takes its buffer; the bytes are the encoder's, and so is
/// the refusal.
pub fn encode_png(bitmap: PageBitmap) -> (encoded: Result<Vec<u8>, EncodeError>)
    ensures
        match encoded {
            Ok(bytes) => png_encoding(bitmap@.width, bitmap@.height, bitmap@.samples) == Some(
                bytes@,
            ),
            Err(error) => error is NotEncoded && png_encoding(
                bitmap@.width,
                bitmap@.height,
                bitmap@.samples,
            ) is None,
        },
{
    let (width, height, samples) = bitmap.into_raw();
    match write_png(width, height, samples) {
        None => Err(EncodeError::NotAssembled),
        Some(Ok(bytes)) => Ok(bytes),
        Some(Err(error)) => Err(EncodeError::NotEncoded { detail: image_error_text(&error) }),
    }
}

} // verus!
