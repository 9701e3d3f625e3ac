//! Document-to-text pipeline: the rules that turn the pages of a fetched PDF
//! into per-page recognised text, with the text normaliser, the bitmap
//! consistency check, the error taxonomy and the request state machine.

pub mod bitmap;
pub mod decimal;
pub mod error;
pub mod imaging;
pub mod laws;
pub mod ocr;
pub mod page;
pub mod pipeline;
pub mod text;
