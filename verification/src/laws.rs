//! The pipeline's guarantees, stated and proved over the models that the
//! components' contracts speak of.

use vstd::prelude::*;

use crate::boundary::Param;
use crate::boundary::boundary_of;
use crate::boundary::validation_of;
use crate::convert::ConversionOutcome;
use crate::convert::out_path_spec;
use crate::errors::UploadError;
use crate::parts::FileRecord;
use crate::parts::PART_SIZE_LIMIT;
use crate::parts::Part;
use crate::parts::SpoolOutcome;
use crate::parts::file_ref_of;
use crate::parts::registrable;
use crate::registry::registry_of;
use crate::select::converted_path;
use crate::select::is_first_success;

verus! {

/// The selected artifact is the first successful conversion in arrival order,
/// regardless of later files' outcomes: any outcome sequence that agrees up to
/// and including the first success selects the same artifact.
pub proof fn lemma_first_success_ignores_later(
    r1: Seq<ConversionOutcome>,
    r2: Seq<ConversionOutcome>,
    i: int,
)
    requires
        is_first_success(r1, i),
        r2.len() > i,
        forall|j: int| 0 <= j <= i ==> r2[j] == r1[j],
    ensures
        is_first_success(r2, i),
        converted_path(r2[i]) == converted_path(r1[i]),
{
    assert(forall|j: int| 0 <= j < i ==> !(r2[j] is Converted));
}

/// When each successful outcome carries the output path derived from its
/// file's original filename, the selected artifact is exactly the one derived
/// from the first successfully converted file, and every file before it in
/// registry order failed.
pub proof fn lemma_response_is_first_converted_file(
    reg: Seq<FileRecord>,
    rs: Seq<ConversionOutcome>,
    i: int,
)
    requires
        rs.len() == reg.len(),
        forall|j: int|
            0 <= j < rs.len() ==> (#[trigger] rs[j] matches ConversionOutcome::Converted(p) ==> p@
                == out_path_spec(reg[j].filename)),
        is_first_success(rs, i),
    ensures
        converted_path(rs[i]) == out_path_spec(reg[i].filename),
        forall|j: int| 0 <= j < i ==> !(rs[j] is Converted),
{
}

/// A request whose content type is `application/json` is always rejected with
/// the protocol error for an unsupported media type, whatever its parameters:
/// no part of it is ever spooled, and the response status is 400.
pub proof fn lemma_json_always_rejected(media: Seq<char>, params: Seq<Param>)
    requires
        media == "application/json"@,
    ensures
        validation_of(media, params) == Err::<Seq<char>, UploadError>(
            UploadError::UnsupportedMediaType,
        ),
        UploadError::UnsupportedMediaType.status_spec() == 400,
{
    reveal_strlit("application/json");
    reveal_strlit("multipart/form-data");
    assert(media.len() == 16);
    assert("multipart/form-data"@.len() == 19);
}

/// A parameter list with no `boundary` key yields no boundary token.
pub proof fn lemma_boundary_of_none(params: Seq<Param>)
    requires
        forall|i: int| 0 <= i < params.len() ==> params[i].key@ != "boundary"@,
    ensures
        boundary_of(params) is None,
    decreases params.len(),
{
    if params.len() > 0 {
        assert(forall|i: int|
            0 <= i < params.drop_first().len() ==> params.drop_first()[i].key@ != "boundary"@);
        lemma_boundary_of_none(params.drop_first());
    }
}

/// A `multipart/form-data` request with no `boundary` parameter is always
/// rejected with the protocol error for a missing boundary, and the response
/// status is 400.
pub proof fn lemma_missing_boundary_rejected(media: Seq<char>, params: Seq<Param>)
    requires
        media == "multipart/form-data"@,
        forall|i: int| 0 <= i < params.len() ==> params[i].key@ != "boundary"@,
    ensures
        validation_of(media, params) == Err::<Seq<char>, UploadError>(UploadError::MissingBoundary),
        UploadError::MissingBoundary.status_spec() == 400,
{
    lemma_boundary_of_none(params);
}

/// A part that is not registrable leaves the registry exactly as it was:
/// absence from the registry is the only signal.
pub proof fn lemma_unregistrable_part_leaves_registry(parts: Seq<Part>, p: Part)
    requires
        !registrable(p),
    ensures
        registry_of(parts.push(p)) == registry_of(parts),
{
    assert(parts.push(p).drop_last() =~= parts);
}

/// A file part that exceeds the 20 MiB size limit — classified `Partial` or
/// `Failed` by the spooler, or even reported complete with an oversize file
/// reference — never produces a registry entry.
pub proof fn lemma_oversize_part_never_registered(parts: Seq<Part>, p: Part)
    requires
        p.outcome is Partial || p.outcome is Failed || (file_ref_of(p.outcome) matches Some(fr)
            && fr.1 > PART_SIZE_LIMIT),
    ensures
        registry_of(parts.push(p)) == registry_of(parts),
{
    lemma_unregistrable_part_leaves_registry(parts, p);
}

/// A part whose filename is the literal placeholder "None" is never
/// registered, even when spooling succeeded.
pub proof fn lemma_none_filename_never_registered(parts: Seq<Part>, p: Part)
    requires
        p.header.filename matches Some(f) && f@ == "None"@,
    ensures
        registry_of(parts.push(p)) == registry_of(parts),
{
    lemma_unregistrable_part_leaves_registry(parts, p);
}

/// When every conversion failed — or nothing was registered at all — no index
/// is a first success, so selection can only end with `NoArtifact`, whose
/// response status is 500.
pub proof fn lemma_all_failures_yield_no_artifact(rs: Seq<ConversionOutcome>)
    requires
        forall|i: int| 0 <= i < rs.len() ==> !(rs[i] is Converted),
    ensures
        forall|i: int| !is_first_success(rs, i),
        UploadError::NoArtifact.status_spec() == 500,
{
}

/// The pipeline is deterministic: the same ordered part sequence folds to the
/// same registry, and the same ordered converter outcomes select the same
/// artifact. Whether re-uploading identical bytes reproduces identical
/// artifact content additionally rests on the external converter computing a
/// function of the input file's content.
pub proof fn lemma_pipeline_deterministic(
    parts1: Seq<Part>,
    parts2: Seq<Part>,
    rs1: Seq<ConversionOutcome>,
    rs2: Seq<ConversionOutcome>,
)
    requires
        parts1 =~= parts2,
        rs1 =~= rs2,
    ensures
        registry_of(parts1) == registry_of(parts2),
        forall|i: int| is_first_success(rs1, i) <==> is_first_success(rs2, i),
        forall|i: int| 0 <= i < rs1.len() ==> converted_path(rs1[i]) == converted_path(rs2[i]),
{
}

} // verus!
