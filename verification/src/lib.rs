//! Multipart upload ingestion and single-result selection pipeline.
//!
//! An HTTP front end (outside this library) receives a `multipart/form-data`
//! request, spools each part to disk under a size cap, and converts each
//! uploaded audio file to an image. This library holds the decision logic of
//! that pipeline: validating the multipart boundary, classifying spool
//! outcomes, keeping the registry of saved files, deriving output paths,
//! dispatching conversions, and selecting the first successful artifact.

use vstd::prelude::*;

pub mod boundary;
pub mod convert;
pub mod errors;
pub mod laws;
pub mod parts;
pub mod registry;
pub mod select;

verus! {

/// Fixed greeting served at the root route.
pub fn greeting() -> (s: &'static str)
    ensures
        s@ == "Hello world! "@,
{
    "Hello world! "
}

} // verus!
