//! The recognition engine seen from the pipeline: the profile that it is run
//! with, and what becomes of its outcome. Running the engine is the
//! caller's part.

use crate::text::{clean_ocr_text, is_normalized, normalize};
use vstd::prelude::*;

verus! {

/// What the recognition engine is run with.
#[derive(Debug, PartialEq, Eq)]
pub struct OcrProfile {
    /// Name of the language model.
    pub language: String,
    /// Resolution that the engine is told to assume, in dots per inch.
    pub dpi: Option<i32>,
    /// Page segmentation mode.
    pub segmentation_mode: Option<i32>,
    /// OCR engine mode.
    pub engine_mode: Option<i32>,
    /// Engine variables, each a name and a value. No name occurs twice.
    pub config_variables: Vec<(String, String)>,
}

/// No two of the variables have the same name.
pub open spec fn names_distinct(variables: Seq<(String, String)>) -> bool {
    forall|i: int, j: int|
        0 <= i < j < variables.len() ==> (#[trigger] variables[i]).0@ != (#[trigger] variables[j]).0@
}

impl OcrProfile {
    /// A profile is well formed where each engine variable is set once.
    pub open spec fn well_formed(&self) -> bool {
        names_distinct(self.config_variables@)
    }

    /// The profile for documents in Portuguese: 300 dpi, one uniform block
    /// of text (mode 6), the default engine (mode 3), text output switched on.
    pub fn portuguese() -> (profile: OcrProfile)
        ensures
            profile.language@ == "por"@,
            profile.dpi == Some(300i32),
            profile.segmentation_mode == Some(6i32),
            profile.engine_mode == Some(3i32),
            profile.config_variables@.len() == 1,
            profile.config_variables@[0].0@ == "tessedit_create_txt"@,
            profile.config_variables@[0].1@ == "1"@,
            profile.well_formed(),
    {
        let mut config_variables: Vec<(String, String)> = Vec::new();
        config_variables.push(("tessedit_create_txt".to_owned(), "1".to_owned()));
        OcrProfile {
            language: "por".to_owned(),
            dpi: Some(300),
            segmentation_mode: Some(6),
            engine_mode: Some(3),
            config_variables,
        }
    }

    /// Tells whether the profile is well formed.
    pub fn has_distinct_names(&self) -> (distinct: bool)
        ensures
            distinct == self.well_formed(),
    {
        let n = self.config_variables.len();
        let mut j: usize = 0;
        while j < n
            invariant
                n == self.config_variables.len(),
                j <= n,
                forall|a: int, b: int|
                    0 <= a < b < j ==> (#[trigger] self.config_variables@[a]).0@ != (
                    #[trigger] self.config_variables@[b]).0@,
            decreases n - j,
        {
            let mut i: usize = 0;
            while i < j
                invariant
                    n == self.config_variables.len(),
                    i <= j < n,
                    forall|a: int|
                        0 <= a < i ==> (#[trigger] self.config_variables@[a]).0@
                            != self.config_variables@[j as int].0@,
                decreases j - i,
            {
                if self.config_variables[i].0 == self.config_variables[j].0 {
                    return false;
                }
                i += 1;
            }
            j += 1;
        }
        true
    }
}

/// The recognition failed; the text is the failing part's own.
#[derive(Debug, PartialEq, Eq)]
pub struct OcrError {
    pub detail: String,
}

/// What a recognition comes to, given what the engine came to: the text
/// that it printed is normalised, and its failure stays a failure with the
/// same text.
pub fn recognition_result(printed: Result<String, String>) -> (result: Result<String, OcrError>)
    ensures
        match printed {
            Ok(raw) => result matches Ok(text) && text@ == normalize(raw@),
            Err(detail) => result matches Err(error) && error.detail@ == detail@,
        },
        result matches Ok(text) ==> is_normalized(text@),
{
    match printed {
        Ok(raw) => Ok(clean_ocr_text(raw.as_str())),
        Err(detail) => Err(OcrError { detail }),
    }
}

} // verus!
