//! The upload registry: the ordered bookkeeping of successfully spooled files.
//!
//! For each part, in arrival order, a registry entry is appended exactly when
//! the part is registrable (see [`crate::parts::registrable`]): spooling
//! completed with a file reference within the size limit and the part carries
//! a filename other than the literal "None". All other outcomes leave the
//! registry unchanged; absence from the registry is the only signal.
//!
//! Invariant: no two entries reference the same temp path. A part whose file
//! reference repeats a path already registered is skipped, which upholds the
//! invariant without raising an error.

use vstd::prelude::*;
use vstd::string::StringExecFns;

use crate::parts::FileRecord;
use crate::parts::PART_SIZE_LIMIT;
use crate::parts::Part;
use crate::parts::SpoolOutcome;
use crate::parts::SpoolPayload;
use crate::parts::record_of;
use crate::parts::registrable;

verus! {

/// One successfully spooled upload: the client-supplied filename, the temp
/// path the bytes were spooled to, and their size.
pub struct SavedFile {
    pub filename: String,
    pub temp_path: String,
    pub size_bytes: u64,
}

impl SavedFile {
    /// The mathematical model of this saved file.
    pub open spec fn record(self) -> FileRecord {
        FileRecord {
            filename: self.filename@,
            temp_path: self.temp_path@,
            size: self.size_bytes as nat,
        }
    }
}

/// Ordered accumulation of saved files: insertion order equals the arrival
/// order of the parts in the multipart stream. No deduplication by filename.
pub struct UploadRegistry {
    entries: Vec<SavedFile>,
}

/// Whether some record in `rs` already references `path`.
pub open spec fn has_temp_path(rs: Seq<FileRecord>, path: Seq<char>) -> bool {
    exists|i: int| 0 <= i < rs.len() && rs[i].temp_path == path
}

/// The registry a sequence of parts folds to, in arrival order: each
/// registrable part whose temp path is still fresh appends its record.
pub open spec fn registry_of(parts: Seq<Part>) -> Seq<FileRecord>
    decreases parts.len(),
{
    if parts.len() == 0 {
        Seq::empty()
    } else {
        let prefix = registry_of(parts.drop_last());
        let p = parts.last();
        if registrable(p) && !has_temp_path(prefix, record_of(p).temp_path) {
            prefix.push(record_of(p))
        } else {
            prefix
        }
    }
}

impl View for UploadRegistry {
    type V = Seq<FileRecord>;

    closed spec fn view(&self) -> Seq<FileRecord> {
        self.entries@.map_values(|e: SavedFile| e.record())
    }
}

impl UploadRegistry {
    /// Well-formedness: temp paths are pairwise distinct, and every entry came
    /// from a registrable part (filename is not "None", size within limit).
    pub open spec fn wf(self) -> bool {
        &&& forall|i: int, j: int|
            0 <= i < j < self@.len() ==> self@[i].temp_path != self@[j].temp_path
        &&& forall|i: int|
            0 <= i < self@.len() ==> self@[i].filename != "None"@ && self@[i].size
                <= PART_SIZE_LIMIT
    }

    /// An empty registry.
    pub fn new() -> (r: UploadRegistry)
        ensures
            r@ == Seq::<FileRecord>::empty(),
            r.wf(),
    {
        UploadRegistry { entries: Vec::new() }
    }

    /// How many files are registered.
    pub fn len(&self) -> (n: usize)
        ensures
            n == self@.len(),
    {
        self.entries.len()
    }

    /// The `i`-th saved file, in arrival order.
    pub fn get(&self, i: usize) -> (f: &SavedFile)
        requires
            i < self@.len(),
        ensures
            f.record() == self@[i as int],
    {
        &self.entries[i]
    }

    /// Whether some entry already references `path`.
    pub fn contains_path(&self, path: &String) -> (r: bool)
        ensures
            r == has_temp_path(self@, path@),
    {
        let mut i: usize = 0;
        while i < self.entries.len()
            invariant
                i <= self@.len(),
                self@.len() == self.entries@.len(),
                forall|j: int| 0 <= j < i ==> self@[j].temp_path != path@,
            decreases self@.len() - i,
        {
            if self.entries[i].temp_path == *path {
                assert(self@[i as int].temp_path == path@);
                return true;
            }
            i += 1;
        }
        false
    }

    /// Registers one part: appends its record exactly when the part is
    /// registrable and its temp path is not yet present; otherwise leaves the
    /// registry unchanged.
    pub fn register_part(&mut self, part: &Part)
        requires
            old(self).wf(),
        ensures
            final(self).wf(),
            final(self)@ == if registrable(*part) && !has_temp_path(
                old(self)@,
                record_of(*part).temp_path,
            ) {
                old(self)@.push(record_of(*part))
            } else {
                old(self)@
            },
    {
        match (&part.outcome, &part.header.filename) {
            (SpoolOutcome::Complete(SpoolPayload::FileRef { path, size_bytes }), Some(fname)) => {
                let placeholder = String::from_str("None");
                if *fname == placeholder || *size_bytes > PART_SIZE_LIMIT || self.contains_path(
                    path,
                ) {
                    return ;
                }
                let entry = SavedFile {
                    filename: fname.clone(),
                    temp_path: path.clone(),
                    size_bytes: *size_bytes,
                };
                assert(entry.record() == record_of(*part));
                self.entries.push(entry);
                assert(self@ =~= old(self)@.push(record_of(*part)));
            },
            _ => {},
        }
    }
}

/// Folds a whole sequence of parts into a registry, in arrival order.
pub fn build_registry(parts: &Vec<Part>) -> (r: UploadRegistry)
    ensures
        r.wf(),
        r@ == registry_of(parts@),
{
    let mut reg = UploadRegistry::new();
    let ghost all = parts@;
    let mut i: usize = 0;
    while i < parts.len()
        invariant
            i <= all.len(),
            parts@ == all,
            reg.wf(),
            reg@ == registry_of(all.take(i as int)),
        decreases all.len() - i,
    {
        reg.register_part(&parts[i]);
        proof {
            assert(all.take(i + 1).drop_last() =~= all.take(i as int));
            assert(all.take(i + 1).last() == all[i as int]);
        }
        i += 1;
    }
    proof {
        assert(all.take(all.len() as int) =~= all);
    }
    reg
}

} // verus!
