use vstd::prelude::*;

verus! {

/// Failure of the transformation policy. It is a deterministic function of
/// the input, so retrying does not help.
#[derive(Clone, Copy, Debug, PartialEq, Eq)]
pub enum ImageError {
    /// The image could not be decoded, resized or encoded as configured.
    ProcessError(&'static str),
}

/// Why an upload failed.
#[derive(Clone, Copy, Debug, PartialEq, Eq, Structural)]
pub enum UploadError {
    /// The transformation policy failed; nothing was sent anywhere.
    Process,
    /// The object store refused the put; nothing was persisted.
    Store,
    /// The metadata record could not be inserted; the stored object was
    /// deleted again.
    Metadata,
    /// The metadata record could not be inserted and the compensating delete
    /// failed too: the object is orphaned and needs manual cleanup.
    CompensationFailed,
}

/// Why a delete failed.
#[derive(Clone, Copy, Debug, PartialEq, Eq, Structural)]
pub enum DeleteError {
    /// The record belongs to another domain's container; nothing was deleted.
    Mismatch,
    /// The metadata catalog failed to look up or delete the record.
    Metadata,
    /// The object store failed to delete the object (any record is already gone).
    Store,
}

/// Why signing failed.
#[derive(Clone, Copy, Debug, PartialEq, Eq, Structural)]
pub enum SignError {
    /// No record of this domain has the id.
    NotFound,
    /// The catalog lookup or the presigning failed.
    Transport,
}

} // verus!
