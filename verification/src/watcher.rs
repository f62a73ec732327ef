//! The ingestion watcher's decisions. The watcher consumes filesystem
//! notifications: only file-creation events are acted on, every other kind
//! is ignored. For a new file it reads the content (a zero-length read is a
//! transient condition — the writer may still be filling the file — so it
//! is retried, never stored), transcodes it to the canonical storage
//! format, and stores it under the source's stem; the source is deleted
//! only when the delete-original toggle is set.
//!
//! Receiving notifications, reading, writing and deleting are the caller's;
//! this module decides, for each notification and read, exactly what to do.

use vstd::prelude::*;
use crate::encoding::ImageEncoding;
use crate::transcoder::{TranscodeError, Transcoder, transcode_spec};

verus! {

/// The kind of a filesystem notification, as the watcher distinguishes
/// them.
#[derive(Debug, Clone, Copy, PartialEq, Eq, Structural)]
pub enum FsEventKind {
    /// A new file appeared.
    CreateFile,
    /// Something else was created (a directory, a link).
    CreateOther,
    /// Any other event: modify, remove, rename, metadata.
    Other,
}

/// Only new-file arrivals are ingested; every other notification is
/// ignored and the watcher keeps listening.
pub fn should_ingest(kind: FsEventKind) -> (r: bool)
    ensures
        r == (kind == FsEventKind::CreateFile),
{
    match kind {
        FsEventKind::CreateFile => true,
        FsEventKind::CreateOther => false,
        FsEventKind::Other => false,
    }
}

/// A store the watcher asks its caller to perform.
#[derive(Debug)]
pub struct StorePlan {
    /// The stem to store under: the source file's stem.
    pub name: String,
    /// The extension to store under: the canonical format's.
    pub extension: String,
    /// The canonical bytes to write.
    pub bytes: Vec<u8>,
    /// Whether to remove the source file afterwards.
    pub delete_source: bool,
}

/// What one read of a newly created file leads to.
#[derive(Debug)]
pub enum IngestOutcome {
    /// The read came back empty: the writer may still be filling the file.
    /// Nothing is stored; the caller retries the read.
    NotReady,
    /// The content could not be transcoded; the caller reports it and keeps
    /// watching — one bad file never ends the watch loop.
    Failed(TranscodeError),
    /// Store the transcoded bytes.
    Store(StorePlan),
}

/// Decides what to do with the content read from a newly created file:
/// an empty read is never stored (and only an empty read is retried); any
/// other content is transcoded to the canonical storage format with the
/// source extension as fallback hint and no operations, and is stored
/// under the source's stem with the canonical extension.
pub fn plan_ingest(
    stem: &str,
    extension: &str,
    bytes: &Vec<u8>,
    storage_format: ImageEncoding,
    delete_original: bool,
) -> (r: IngestOutcome)
    ensures
        (r is NotReady) <==> bytes@.len() == 0,
        r matches IngestOutcome::Failed(e) ==> transcode_spec(
            bytes@,
            extension@,
            storage_format,
            Seq::empty(),
        ) == Err::<Seq<u8>, TranscodeError>(e),
        r matches IngestOutcome::Store(p) ==> {
            &&& transcode_spec(bytes@, extension@, storage_format, Seq::empty()) matches Ok(out)
                && p.bytes@ == out
            &&& p.name@ == stem@
            &&& p.extension@ == storage_format.spec_bare_extension()
            &&& p.delete_source == delete_original
        },
{
    if bytes.len() == 0 {
        return IngestOutcome::NotReady;
    }
    let hint = extension.to_owned();
    match Transcoder.transcode(bytes.as_slice(), hint, storage_format, None) {
        Ok(out) => IngestOutcome::Store(
            StorePlan {
                name: stem.to_owned(),
                extension: storage_format.bare_extension().to_owned(),
                bytes: out,
                delete_source: delete_original,
            },
        ),
        Err(e) => IngestOutcome::Failed(e),
    }
}

} // verus!
