//! Response selection: first successfully converted artifact wins.
//!
//! The selector scans the conversion outcomes in registry order and returns
//! the path of the first success; later outcomes never change the response.
//! When no outcome is a success — every registered file failed to convert, or
//! nothing was registered at all — the request ends with `NoArtifact`.

use vstd::prelude::*;

use crate::convert::ConversionOutcome;
use crate::errors::UploadError;

verus! {

/// Whether index `i` is the first success in `rs`.
pub open spec fn is_first_success(rs: Seq<ConversionOutcome>, i: int) -> bool {
    &&& 0 <= i < rs.len()
    &&& rs[i] is Converted
    &&& forall|j: int| 0 <= j < i ==> !(rs[j] is Converted)
}

/// The artifact path a successful outcome carries.
pub open spec fn converted_path(o: ConversionOutcome) -> Seq<char> {
    match o {
        ConversionOutcome::Converted(p) => p@,
        ConversionOutcome::Failed(_) => Seq::empty(),
    }
}

/// At most one index is the first success: the selected response is pinned
/// down by the outcome sequence.
pub proof fn lemma_first_success_unique(rs: Seq<ConversionOutcome>, i: int, j: int)
    requires
        is_first_success(rs, i),
        is_first_success(rs, j),
    ensures
        i == j,
{
}

/// Picks the artifact of the first successful conversion, in registry order.
///
/// Returns `Ok` with that artifact's path exactly when some outcome is a
/// success; later outcomes play no part. Returns `Err(NoArtifact)` exactly
/// when no outcome is a success.
pub fn select_artifact(results: &Vec<ConversionOutcome>) -> (r: Result<String, UploadError>)
    ensures
        match r {
            Ok(p) => (exists|i: int| is_first_success(results@, i)) && (forall|i: int|
                is_first_success(results@, i) ==> p@ == converted_path(results@[i])),
            Err(e) => e == UploadError::NoArtifact && forall|i: int|
                0 <= i < results@.len() ==> !(results@[i] is Converted),
        },
{
    let mut i: usize = 0;
    while i < results.len()
        invariant
            i <= results@.len(),
            forall|j: int| 0 <= j < i ==> !(results@[j] is Converted),
        decreases results@.len() - i,
    {
        match &results[i] {
            ConversionOutcome::Converted(p) => {
                let found = p.clone();
                proof {
                    assert(is_first_success(results@, i as int));
                    assert forall|k: int|
                        is_first_success(results@, k) implies found@ == converted_path(
                        results@[k],
                    ) by {
                        lemma_first_success_unique(results@, k, i as int);
                    }
                }
                return Ok(found);
            },
            ConversionOutcome::Failed(_) => {},
        }
        i += 1;
    }
    Err(UploadError::NoArtifact)
}

} // verus!
