//! The failures of a request, their class, status and message.

use crate::decimal::{decimal, decimal_digits};
use vstd::prelude::*;
use vstd::string::StringExecFns;

verus! {

/// HTTP status of a request that was answered in full.
pub const STATUS_OK: u16 = 200;

/// HTTP status of a failure attributed to what the caller sent.
pub const STATUS_BAD_REQUEST: u16 = 400;

/// HTTP status of a failure while the document was processed.
pub const STATUS_INTERNAL_ERROR: u16 = 500;

/// The two classes of failure.
#[derive(Clone, Copy, Debug, PartialEq, Eq, Structural)]
pub enum ErrorClass {
    /// Missing or invalid body, unreachable or unreadable location.
    Input,
    /// Decoding, page loading, rasterising, image assembly, encoding, OCR.
    Processing,
}

/// Why a request failed. Page numbers count from 1.
#[derive(Debug, PartialEq, Eq)]
pub enum PipelineError {
    InvalidBody,
    FetchFailed { detail: String },
    ReadFailed { detail: String },
    DecodeFailed { detail: String },
    PageLoadFailed { page: usize, detail: String },
    RasterizeFailed { page: usize, detail: String },
    ImageAssemblyFailed { page: usize },
    EncodeFailed { page: usize, detail: String },
    OcrFailed { page: usize, detail: String },
}

/// The mathematical content of a `PipelineError`.
pub enum ErrorModel {
    InvalidBody,
    FetchFailed { detail: Seq<char> },
    ReadFailed { detail: Seq<char> },
    DecodeFailed { detail: Seq<char> },
    PageLoadFailed { page: nat, detail: Seq<char> },
    RasterizeFailed { page: nat, detail: Seq<char> },
    ImageAssemblyFailed { page: nat },
    EncodeFailed { page: nat, detail: Seq<char> },
    OcrFailed { page: nat, detail: Seq<char> },
}

impl ErrorModel {
    /// Failures before the document is in hand are the caller's; all later
    /// ones count as processing failures, a document that cannot be decoded
    /// included.
    pub open spec fn class(self) -> ErrorClass {
        match self {
            ErrorModel::InvalidBody => ErrorClass::Input,
            ErrorModel::FetchFailed { .. } => ErrorClass::Input,
            ErrorModel::ReadFailed { .. } => ErrorClass::Input,
            _ => ErrorClass::Processing,
        }
    }

    pub open spec fn status(self) -> u16 {
        match self.class() {
            ErrorClass::Input => STATUS_BAD_REQUEST,
            ErrorClass::Processing => STATUS_INTERNAL_ERROR,
        }
    }

    /// The page that the failure belongs to, where it belongs to one.
    pub open spec fn page(self) -> Option<nat> {
        match self {
            ErrorModel::PageLoadFailed { page, .. } => Some(page),
            ErrorModel::RasterizeFailed { page, .. } => Some(page),
            ErrorModel::ImageAssemblyFailed { page } => Some(page),
            ErrorModel::EncodeFailed { page, .. } => Some(page),
            ErrorModel::OcrFailed { page, .. } => Some(page),
            _ => None,
        }
    }

    /// The text reported to the caller.
    pub open spec fn message(self) -> Seq<char> {
        match self {
            ErrorModel::InvalidBody => "JSON inválido ou ausente"@,
            ErrorModel::FetchFailed { detail } => "Falha ao baixar PDF: "@ + detail,
            ErrorModel::ReadFailed { detail } => "Erro ao ler resposta: "@ + detail,
            ErrorModel::DecodeFailed { detail } => "Não foi possível carregar o PDF: "@ + detail,
            ErrorModel::PageLoadFailed { page, detail } => "Erro ao carregar página "@
                + decimal_digits(page) + ": "@ + detail,
            ErrorModel::RasterizeFailed { page, detail } => "Erro ao gerar pixmap da página "@
                + decimal_digits(page) + ": "@ + detail,
            ErrorModel::ImageAssemblyFailed { page } => "Falha ao criar imagem da página "@
                + decimal_digits(page),
            ErrorModel::EncodeFailed { page, detail } => "Erro ao salvar imagem da página "@
                + decimal_digits(page) + ": "@ + detail,
            ErrorModel::OcrFailed { page, detail } => "Erro ao processar OCR (página "@
                + decimal_digits(page) + "): "@ + detail,
        }
    }
}

impl View for PipelineError {
    type V = ErrorModel;

    open spec fn view(&self) -> ErrorModel {
        match *self {
            PipelineError::InvalidBody => ErrorModel::InvalidBody,
            PipelineError::FetchFailed { detail } => ErrorModel::FetchFailed { detail: detail@ },
            PipelineError::ReadFailed { detail } => ErrorModel::ReadFailed { detail: detail@ },
            PipelineError::DecodeFailed { detail } => ErrorModel::DecodeFailed { detail: detail@ },
            PipelineError::PageLoadFailed { page, detail } => ErrorModel::PageLoadFailed {
                page: page as nat,
                detail: detail@,
            },
            PipelineError::RasterizeFailed { page, detail } => ErrorModel::RasterizeFailed {
                page: page as nat,
                detail: detail@,
            },
            PipelineError::ImageAssemblyFailed { page } => ErrorModel::ImageAssemblyFailed {
                page: page as nat,
            },
            PipelineError::EncodeFailed { page, detail } => ErrorModel::EncodeFailed {
                page: page as nat,
                detail: detail@,
            },
            PipelineError::OcrFailed { page, detail } => ErrorModel::OcrFailed {
                page: page as nat,
                detail: detail@,
            },
        }
    }
}

/// `prefix`, the page number in decimal, `infix`, then `detail`.
fn page_message(prefix: &str, page: usize, infix: &str, detail: &str) -> (text: String)
    ensures
        text@ == prefix@ + decimal_digits(page as nat) + infix@ + detail@,
{
    let mut text = prefix.to_owned();
    text.append(decimal(page).as_str());
    text.append(infix);
    text.append(detail);
    text
}

impl PipelineError {
    pub fn class(&self) -> (class: ErrorClass)
        ensures
            class == self@.class(),
    {
        match self {
            PipelineError::InvalidBody => ErrorClass::Input,
            PipelineError::FetchFailed { .. } => ErrorClass::Input,
            PipelineError::ReadFailed { .. } => ErrorClass::Input,
            _ => ErrorClass::Processing,
        }
    }

    /// 400 for an input failure, 500 for a processing failure.
    pub fn status(&self) -> (status: u16)
        ensures
            status == self@.status(),
    {
        match self.class() {
            ErrorClass::Input => STATUS_BAD_REQUEST,
            ErrorClass::Processing => STATUS_INTERNAL_ERROR,
        }
    }

    /// The page that the failure belongs to, counted from 1.
    pub fn page(&self) -> (page: Option<usize>)
        ensures
            page.is_some() == self@.page().is_some(),
            page matches Some(p) ==> self@.page() == Some(p as nat),
    {
        match self {
            PipelineError::PageLoadFailed { page, .. } => Some(*page),
            PipelineError::RasterizeFailed { page, .. } => Some(*page),
            PipelineError::ImageAssemblyFailed { page } => Some(*page),
            PipelineError::EncodeFailed { page, .. } => Some(*page),
            PipelineError::OcrFailed { page, .. } => Some(*page),
            _ => None,
        }
    }

    /// The text reported to the caller.
    pub fn message(&self) -> (text: String)
        ensures
            text@ == self@.message(),
    {
        match self {
            PipelineError::InvalidBody => "JSON inválido ou ausente".to_owned(),
            PipelineError::FetchFailed { detail } => {
                let mut text = "Falha ao baixar PDF: ".to_owned();
                text.append(detail.as_str());
                text
            },
            PipelineError::ReadFailed { detail } => {
                let mut text = "Erro ao ler resposta: ".to_owned();
                text.append(detail.as_str());
                text
            },
            PipelineError::DecodeFailed { detail } => {
                let mut text = "Não foi possível carregar o PDF: ".to_owned();
                text.append(detail.as_str());
                text
            },
            PipelineError::PageLoadFailed { page, detail } => page_message(
                "Erro ao carregar página ",
                *page,
                ": ",
                detail.as_str(),
            ),
            PipelineError::RasterizeFailed { page, detail } => page_message(
                "Erro ao gerar pixmap da página ",
                *page,
                ": ",
                detail.as_str(),
            ),
            PipelineError::ImageAssemblyFailed { page } => {
                let mut text = "Falha ao criar imagem da página ".to_owned();
                text.append(decimal(*page).as_str());
                text
            },
            PipelineError::EncodeFailed { page, detail } => page_message(
                "Erro ao salvar imagem da página ",
                *page,
                ": ",
                detail.as_str(),
            ),
            PipelineError::OcrFailed { page, detail } => page_message(
                "Erro ao processar OCR (página ",
                *page,
                "): ",
                detail.as_str(),
            ),
        }
    }
}

} // verus!
