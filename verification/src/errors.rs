//! The closed set of failure kinds that the pipeline can report.
//!
//! Every stage returns one of these variants to its caller instead of
//! recovering locally, so the caller can still tell the failure sources
//! apart. Variants wrap the underlying cause where one exists.

use vstd::prelude::*;

verus! {

/// `image::ImageError`, the error type of the image codec crate, carried
/// through opaquely.
#[verifier::external_type_specification]
#[verifier::external_body]
pub struct ExImageError(image::ImageError);

/// `reqwest::Error`, the error type of the HTTP client crate, carried
/// through opaquely.
#[verifier::external_type_specification]
#[verifier::external_body]
pub struct ExReqwestError(reqwest::Error);

/// `std::io::Error`, carried through opaquely.
#[verifier::external_type_specification]
#[verifier::external_body]
pub struct ExIoError(std::io::Error);

/// One case per failure kind of the pipeline, each wrapping its
/// underlying cause where one exists.
#[derive(Debug)]
pub enum ImageDataErrors {
    DifferentImageFormats,
    BufferToSmall,
    UnableToReadImageFromPath(std::io::Error),
    UnableToDecodeImage(image::ImageError),
    UnableToFormatImage(String),
    UnableToSaveImage(image::ImageError),
    DownloadError(reqwest::Error),
}

} // verus!
