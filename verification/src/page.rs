//! One page: what its processing came to, and its place in the response.

use crate::bitmap::{bitmap_consistent, PageBitmap};
use crate::imaging::{encode_png, png_encoding, EncodeError};
use crate::ocr::recognition_result;
use crate::text::{is_normalized, normalize};
use vstd::prelude::*;

verus! {

/// The recognised text of one page. Pages count from 1.
#[derive(Debug, PartialEq, Eq)]
pub struct PageResult {
    pub page: usize,
    pub text: String,
}

/// The mathematical content of a `PageResult`.
pub struct PageEntry {
    pub page: nat,
    pub text: Seq<char>,
}

impl View for PageResult {
    type V = PageEntry;

    open spec fn view(&self) -> PageEntry {
        PageEntry { page: self.page as nat, text: self.text@ }
    }
}

/// The content of each result, in order.
pub open spec fn entries(results: Seq<PageResult>) -> Seq<PageEntry> {
    results.map_values(|result: PageResult| result@)
}

/// What is returned for a document whose pages were all recognised.
#[derive(Debug, PartialEq, Eq)]
pub struct OcrResponse {
    pub results: Vec<PageResult>,
    pub page_count: usize,
}

/// The mathematical content of an `OcrResponse`.
pub struct ResponseModel {
    pub results: Seq<PageEntry>,
    pub page_count: nat,
}

impl View for OcrResponse {
    type V = ResponseModel;

    open spec fn view(&self) -> ResponseModel {
        ResponseModel { results: entries(self.results@), page_count: self.page_count as nat }
    }
}

/// The pages are numbered 1, 2, 3, ... in the order in which they stand.
pub open spec fn numbered(results: Seq<PageEntry>) -> bool {
    forall|i: int| 0 <= i < results.len() ==> (#[trigger] results[i]).page == i + 1
}

/// Every text is in normal form.
pub open spec fn all_normalized(results: Seq<PageEntry>) -> bool {
    forall|i: int| 0 <= i < results.len() ==> is_normalized((#[trigger] results[i]).text)
}

impl ResponseModel {
    /// A complete response: one result for each page of the document, the
    /// pages numbered from 1 without a gap, every text in normal form.
    pub open spec fn complete(self) -> bool {
        &&& self.results.len() == self.page_count
        &&& numbered(self.results)
        &&& all_normalized(self.results)
    }
}

/// What the processing of one page came to.
#[derive(Debug, PartialEq, Eq)]
pub enum PageOutcome {
    /// The page could not be loaded from the document.
    LoadFailed { detail: String },
    /// The renderer failed on the page.
    RasterizeFailed { detail: String },
    /// The pixel buffer does not match the dimensions of the bitmap.
    AssemblyFailed,
    /// The bitmap could not be encoded as an image.
    EncodeFailed { detail: String },
    /// The recognition failed.
    OcrFailed { detail: String },
    /// The text that was recognised on the page. The pipeline normalises it
    /// when it takes the outcome.
    Text { text: String },
}

/// The mathematical content of a `PageOutcome`.
pub enum OutcomeModel {
    LoadFailed { detail: Seq<char> },
    RasterizeFailed { detail: Seq<char> },
    AssemblyFailed,
    EncodeFailed { detail: Seq<char> },
    OcrFailed { detail: Seq<char> },
    Text { text: Seq<char> },
}

impl View for PageOutcome {
    type V = OutcomeModel;

    open spec fn view(&self) -> OutcomeModel {
        match *self {
            PageOutcome::LoadFailed { detail } => OutcomeModel::LoadFailed { detail: detail@ },
            PageOutcome::RasterizeFailed { detail } => OutcomeModel::RasterizeFailed {
                detail: detail@,
            },
            PageOutcome::AssemblyFailed => OutcomeModel::AssemblyFailed,
            PageOutcome::EncodeFailed { detail } => OutcomeModel::EncodeFailed { detail: detail@ },
            PageOutcome::OcrFailed { detail } => OutcomeModel::OcrFailed { detail: detail@ },
            PageOutcome::Text { text } => OutcomeModel::Text { text: text@ },
        }
    }
}

/// Makes the image that the engine is to read from the rasterised bitmap of
/// a page: checks the buffer against the dimensions and encodes the bitmap
/// as a PNG image.
///
/// A buffer that does not match the dimensions gives `AssemblyFailed` and
/// nothing else does. A consistent bitmap that the encoder refuses gives
/// `EncodeFailed`; every other one gives its PNG image.
pub fn encode_page(width: u32, height: u32, samples: Vec<u8>) -> (encoded: Result<
    Vec<u8>,
    PageOutcome,
>)
    ensures
        match encoded {
            Ok(image_bytes) => bitmap_consistent(width, height, samples@.len()) && png_encoding(
                width,
                height,
                samples@,
            ) == Some(image_bytes@),
            Err(outcome) => if bitmap_consistent(width, height, samples@.len()) {
                outcome@ is EncodeFailed && png_encoding(width, height, samples@) is None
            } else {
                outcome@ == OutcomeModel::AssemblyFailed
            },
        },
{
    let bitmap = match PageBitmap::from_raw(width, height, samples) {
        Some(bitmap) => bitmap,
        None => {
            return Err(PageOutcome::AssemblyFailed);
        },
    };
    match encode_png(bitmap) {
        Ok(image_bytes) => Ok(image_bytes),
        Err(EncodeError::NotAssembled) => Err(PageOutcome::AssemblyFailed),
        Err(EncodeError::NotEncoded { detail }) => Err(PageOutcome::EncodeFailed { detail }),
    }
}

/// The outcome of a page whose image went to the engine: the text that the
/// engine printed, normalised, or the engine's failure.
pub open spec fn recognised_model(printed: Result<String, String>) -> OutcomeModel {
    match printed {
        Ok(raw) => OutcomeModel::Text { text: normalize(raw@) },
        Err(detail) => OutcomeModel::OcrFailed { detail: detail@ },
    }
}

/// Turns what the engine came to on the image of a page into the outcome of
/// the page. A failure of the engine is a failure of the page, never a text.
pub fn recognised_page(printed: Result<String, String>) -> (outcome: PageOutcome)
    ensures
        outcome@ == recognised_model(printed),
        outcome@ matches OutcomeModel::Text { text } ==> is_normalized(text),
{
    match recognition_result(printed) {
        Ok(text) => PageOutcome::Text { text },
        Err(error) => PageOutcome::OcrFailed { detail: error.detail },
    }
}

} // verus!
