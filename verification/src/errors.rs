//! Classified extraction failures.
//!
//! Every failure names the JSON path at which extraction stopped, so that a
//! caller can see exactly where the response shape diverged from the one the
//! extractor expects.

use vstd::prelude::*;

verus! {

/// Why extraction of a thread failed.
///
/// * `MalformedResponse` — a required structural node (array or object) is
///   absent or of the wrong container kind.
/// * `MissingField` — a required field is absent.
/// * `TypeMismatch` — a field or discriminator exists but has an unexpected
///   type or value (this includes the tweet type-discriminator check).
/// * `UnknownMediaType` — a media entry's type tag is neither photo nor video.
/// * `MissingVariants` — a video media entry has no renditions to select from.
#[derive(Debug, PartialEq, Eq)]
pub enum ExtractError {
    MalformedResponse { path: String },
    MissingField { path: String },
    TypeMismatch { path: String, expected: String, actual: String },
    UnknownMediaType { value: String },
    MissingVariants,
}

/// The mathematical shape of an [`ExtractError`]: the same variants over
/// character sequences.
pub enum ExtractErrorView {
    MalformedResponse { path: Seq<char> },
    MissingField { path: Seq<char> },
    TypeMismatch { path: Seq<char>, expected: Seq<char>, actual: Seq<char> },
    UnknownMediaType { value: Seq<char> },
    MissingVariants,
}

impl View for ExtractError {
    type V = ExtractErrorView;

    open spec fn view(&self) -> ExtractErrorView {
        match self {
            ExtractError::MalformedResponse { path } => ExtractErrorView::MalformedResponse {
                path: path@,
            },
            ExtractError::MissingField { path } => ExtractErrorView::MissingField { path: path@ },
            ExtractError::TypeMismatch { path, expected, actual } => ExtractErrorView::TypeMismatch {
                path: path@,
                expected: expected@,
                actual: actual@,
            },
            ExtractError::UnknownMediaType { value } => ExtractErrorView::UnknownMediaType {
                value: value@,
            },
            ExtractError::MissingVariants => ExtractErrorView::MissingVariants,
        }
    }
}

} // verus!
