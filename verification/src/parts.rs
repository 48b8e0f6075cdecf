//! Multipart parts and the spooling policy.
//!
//! Each part of a `multipart/form-data` body is spooled to disk by the HTTP
//! front end under a fixed policy: at most [`PART_SIZE_LIMIT`] bytes per part,
//! and a zero in-memory threshold (every byte goes straight to disk). The
//! outcome of spooling one part is classified here, and the classification
//! decides whether the part enters the upload registry.

use vstd::prelude::*;

verus! {

/// Maximum number of bytes one part may hold: 20 MiB.
pub const PART_SIZE_LIMIT: u64 = 20 * 1024 * 1024;

/// In-memory buffering threshold for spooling: zero, so every part's data is
/// written straight to disk and never held fully in memory.
pub const MEMORY_THRESHOLD: u64 = 0;

/// The header of one multipart part: the field's name, and its filename when
/// the part carries a file.
pub struct PartHeader {
    pub name: String,
    /// Absent for non-file fields.
    pub filename: Option<String>,
}

/// What spooling one part produced when it ran to completion. With a zero
/// memory threshold every payload is in practice a `FileRef`; the inline
/// variants are kept for generality.
pub enum SpoolPayload {
    InlineText(String),
    InlineBytes(Vec<u8>),
    FileRef { path: String, size_bytes: u64 },
}

/// The classified outcome of spooling one part. Exactly one variant per part.
pub enum SpoolOutcome {
    /// The part's data fit the size limit and spooling finished without error.
    Complete(SpoolPayload),
    /// The stream produced some data before truncation, the size limit, or an
    /// error cut it short.
    Partial { partial: Option<SpoolPayload>, reason: String },
    /// An I/O or protocol error occurred before any data was produced.
    Failed { cause: String },
}

/// One part as the front end hands it over: its header and its spool outcome.
pub struct Part {
    pub header: PartHeader,
    pub outcome: SpoolOutcome,
}

/// The file reference a spool outcome carries, if any: its temp path and size.
pub open spec fn file_ref_of(o: SpoolOutcome) -> Option<(Seq<char>, u64)> {
    match o {
        SpoolOutcome::Complete(SpoolPayload::FileRef { path, size_bytes }) => Some(
            (path@, size_bytes),
        ),
        _ => None,
    }
}

/// The part's filename, if present.
pub open spec fn filename_of(h: PartHeader) -> Option<Seq<char>> {
    match h.filename {
        Some(f) => Some(f@),
        None => None,
    }
}

/// Whether a part earns a registry entry: spooling completed with a file
/// reference within the size limit, and the part carries a filename other
/// than the literal placeholder "None".
pub open spec fn registrable(p: Part) -> bool {
    match (file_ref_of(p.outcome), filename_of(p.header)) {
        (Some((_path, size)), Some(name)) => name != "None"@ && size <= PART_SIZE_LIMIT,
        _ => false,
    }
}

/// The mathematical model of a saved file: what the registry remembers of a
/// registrable part.
pub ghost struct FileRecord {
    pub filename: Seq<char>,
    pub temp_path: Seq<char>,
    pub size: nat,
}

/// The record a registrable part contributes to the registry.
pub open spec fn record_of(p: Part) -> FileRecord
    recommends
        registrable(p),
{
    match (file_ref_of(p.outcome), filename_of(p.header)) {
        (Some((path, size)), Some(name)) => FileRecord {
            filename: name,
            temp_path: path,
            size: size as nat,
        },
        _ => FileRecord { filename: Seq::empty(), temp_path: Seq::empty(), size: 0 },
    }
}

} // verus!
