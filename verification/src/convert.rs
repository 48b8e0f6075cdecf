//! Conversion dispatch: one job per registered file, in registry order.
//!
//! The converter itself (audio in, image out) is an external collaborator
//! that works on the filesystem; this module holds the verified half of the
//! dispatcher: deriving each job's deterministic output path from the
//! client-supplied filename, and classifying each job's outcome. A single
//! conversion failure is recorded and never aborts the batch; the dispatcher
//! runs eagerly over the whole registry.

use vstd::prelude::*;
use vstd::string::StringExecFns;

use crate::registry::UploadRegistry;

verus! {

/// The output path a filename is converted under: the rendered image lives in
/// the shared output directory under the original name with the image
/// extension appended.
pub open spec fn out_path_spec(name: Seq<char>) -> Seq<char> {
    "/tmp/"@ + name + ".png"@
}

/// Derives the deterministic output path for one uploaded filename.
pub fn output_path_for(filename: &String) -> (r: String)
    ensures
        r@ == out_path_spec(filename@),
{
    let mut p = String::from_str("/tmp/");
    p.append(filename.as_str());
    p.append(".png");
    p
}

/// One unit of the dispatcher's work: read the spooled bytes at
/// `source_path`, render them, and write the artifact at `output_path`.
pub struct ConversionJob {
    pub source_path: String,
    pub output_path: String,
}

/// What converting one registered file produced: the artifact's path, or the
/// cause of the failure. One outcome per saved file, in registry order.
pub enum ConversionOutcome {
    Converted(String),
    Failed(String),
}

/// Plans the whole batch: one job per registered file, in registry order,
/// each reading that file's temp path and writing the output path derived
/// from its original filename.
pub fn conversion_plan(registry: &UploadRegistry) -> (plan: Vec<ConversionJob>)
    ensures
        plan@.len() == registry@.len(),
        forall|i: int|
            0 <= i < plan@.len() ==> plan@[i].source_path@ == registry@[i].temp_path
                && plan@[i].output_path@ == out_path_spec(registry@[i].filename),
{
    let mut plan: Vec<ConversionJob> = Vec::new();
    let n = registry.len();
    let mut i: usize = 0;
    while i < n
        invariant
            n == registry@.len(),
            i <= n,
            plan@.len() == i,
            forall|j: int|
                0 <= j < i ==> plan@[j].source_path@ == registry@[j].temp_path
                    && plan@[j].output_path@ == out_path_spec(registry@[j].filename),
        decreases n - i,
    {
        let file = registry.get(i);
        let job = ConversionJob {
            source_path: file.temp_path.clone(),
            output_path: output_path_for(&file.filename),
        };
        plan.push(job);
        i += 1;
    }
    plan
}

/// Classifies one job's outcome, as the front end reports it: `done` with the
/// artifact written at the job's output path, or a failure with its cause.
pub fn record_outcome(job: &ConversionJob, done: bool, cause: String) -> (r: ConversionOutcome)
    ensures
        done ==> (r matches ConversionOutcome::Converted(p) && p@ == job.output_path@),
        !done ==> (r matches ConversionOutcome::Failed(c) && c@ == cause@),
{
    if done {
        ConversionOutcome::Converted(job.output_path.clone())
    } else {
        ConversionOutcome::Failed(cause)
    }
}

} // verus!
