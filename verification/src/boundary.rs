//! Boundary validation: the first gate of the pipeline.
//!
//! A request is admitted only when its content type's base media type is
//! exactly `multipart/form-data` and its parameter list carries a `boundary`
//! parameter with a non-empty value. The boundary token then delimits the
//! parts of the body. Validation has no side effects and runs before any part
//! is spooled.

use vstd::prelude::*;
use vstd::string::StringExecFns;

use crate::errors::UploadError;

verus! {

/// One parameter of the request's content-type header.
pub struct Param {
    pub key: String,
    pub value: String,
}

/// The value of the first `boundary` parameter, if any.
pub open spec fn boundary_of(params: Seq<Param>) -> Option<Seq<char>>
    decreases params.len(),
{
    if params.len() == 0 {
        None
    } else if params[0].key@ == "boundary"@ {
        Some(params[0].value@)
    } else {
        boundary_of(params.drop_first())
    }
}

/// What validation decides for a given media type and parameter list:
/// the boundary token, or the protocol error the request is rejected with.
pub open spec fn validation_of(media: Seq<char>, params: Seq<Param>) -> Result<
    Seq<char>,
    UploadError,
> {
    if media != "multipart/form-data"@ {
        Err(UploadError::UnsupportedMediaType)
    } else {
        match boundary_of(params) {
            None => Err(UploadError::MissingBoundary),
            Some(b) => if b.len() == 0 {
                Err(UploadError::MissingBoundary)
            } else {
                Ok(b)
            },
        }
    }
}

/// Validates the request's content type and extracts the boundary token.
///
/// Returns `Ok` with the boundary exactly when the media type is
/// `multipart/form-data` and the first `boundary` parameter has a non-empty
/// value; `Err(UnsupportedMediaType)` on any other media type; and
/// `Err(MissingBoundary)` when no such parameter is present or its value is
/// empty.
pub fn validate_boundary(media_type: &String, params: &Vec<Param>) -> (r: Result<
    String,
    UploadError,
>)
    ensures
        match r {
            Ok(b) => validation_of(media_type@, params@) == Ok::<Seq<char>, UploadError>(b@),
            Err(e) => validation_of(media_type@, params@) == Err::<Seq<char>, UploadError>(e),
        },
{
    let form_data = String::from_str("multipart/form-data");
    if !(*media_type == form_data) {
        return Err(UploadError::UnsupportedMediaType);
    }
    let boundary_key = String::from_str("boundary");
    let mut i: usize = 0;
    proof {
        assert(params@.skip(0) =~= params@);
    }
    while i < params.len()
        invariant
            i <= params@.len(),
            media_type@ == "multipart/form-data"@,
            boundary_key@ == "boundary"@,
            boundary_of(params@) == boundary_of(params@.skip(i as int)),
            forall|j: int| 0 <= j < i ==> params@[j].key@ != "boundary"@,
        decreases params@.len() - i,
    {
        proof {
            assert(params@.skip(i as int)[0] == params@[i as int]);
            assert(params@.skip(i as int).drop_first() =~= params@.skip(i + 1));
        }
        if params[i].key == boundary_key {
            proof {
                assert(params@.skip(i as int).len() > 0);
                assert(boundary_of(params@.skip(i as int)) == Some(params@[i as int].value@));
            }
            if params[i].value.as_str().is_empty() {
                return Err(UploadError::MissingBoundary);
            }
            return Ok(params[i].value.clone());
        }
        i += 1;
    }
    proof {
        assert(params@.skip(params@.len() as int) =~= Seq::<Param>::empty());
    }
    Err(UploadError::MissingBoundary)
}

} // verus!
