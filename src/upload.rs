//! Dual-write upload: put the object, record it, and delete it again when the
//! record cannot be written.
use crate::errors::{ImageError, UploadError};
use crate::format::content_type_of;
use crate::keys::{fresh_key, is_uuid_v4_text};
use crate::service::{bytes_result, transform_outcome, ImageService};
use crate::store::{ObjectRef, StoreOp};
use image::DynamicImage;
use vstd::prelude::*;

verus! {

#[derive(Clone, Copy, Debug, PartialEq, Eq, Structural)]
pub enum UploadState {
    Putting,
    Recording,
    Compensating,
    Finished,
}

#[derive(Clone, Copy, Debug, PartialEq, Eq, Structural)]
pub enum UploadEvent {
    /// Whether the put succeeded.
    Put(bool),
    /// The id of the inserted record, or `None` when the insert failed.
    Inserted(Option<i32>),
    /// Whether the compensating delete succeeded.
    Compensated(bool),
}

/// The reference a successful upload hands out.
#[derive(Clone, Copy, Debug, PartialEq, Eq, Structural)]
pub enum Uploaded {
    /// The object key itself.
    Key,
    /// The id of the record that was inserted for the object.
    Record(i32),
}

#[derive(Clone, Copy, Debug, PartialEq, Eq)]
pub enum UploadStep {
    Run(StoreOp),
    Finish(Result<Uploaded, UploadError>),
}

/// Whether `e` answers the request issued in state `s`.
pub open spec fn upload_accepts(s: UploadState, e: UploadEvent) -> bool {
    ||| s is Putting && e is Put
    ||| s is Recording && e is Inserted
    ||| s is Compensating && e is Compensated
}

/// The transition table of an upload; uploads with `with_record` record metadata.
pub open spec fn upload_next(with_record: bool, s: UploadState, e: UploadEvent) -> (UploadState, UploadStep) {
    match (s, e) {
        (UploadState::Putting, UploadEvent::Put(ok)) => if !ok {
            (UploadState::Finished, UploadStep::Finish(Err(UploadError::Store)))
        } else if with_record {
            (UploadState::Recording, UploadStep::Run(StoreOp::InsertRecord))
        } else {
            (UploadState::Finished, UploadStep::Finish(Ok(Uploaded::Key)))
        },
        (UploadState::Recording, UploadEvent::Inserted(r)) => match r {
            Some(id) => (UploadState::Finished, UploadStep::Finish(Ok(Uploaded::Record(id)))),
            None => (UploadState::Compensating, UploadStep::Run(StoreOp::DeleteObject)),
        },
        (UploadState::Compensating, UploadEvent::Compensated(ok)) => (
            UploadState::Finished,
            UploadStep::Finish(Err(if ok { UploadError::Metadata } else { UploadError::CompensationFailed })),
        ),
        _ => (s, UploadStep::Finish(Err(UploadError::Store))),
    }
}

/// An upload in progress: the object to put and where the saga stands.
pub struct Upload {
    pub container: String,
    pub key: String,
    pub body: Vec<u8>,
    pub content_type: &'static str,
    pub with_record: bool,
    pub state: UploadState,
}

impl Upload {
    /// Takes the outcome of the last request and returns the next one.
    pub fn advance(&mut self, e: UploadEvent) -> (r: UploadStep)
        requires
            upload_accepts(old(self).state, e),
        ensures
            (final(self).state, r) == upload_next(old(self).with_record, old(self).state, e),
            final(self).container == old(self).container,
            final(self).key == old(self).key,
            final(self).body == old(self).body,
            final(self).content_type == old(self).content_type,
            final(self).with_record == old(self).with_record,
    {
        match (self.state, e) {
            (UploadState::Putting, UploadEvent::Put(ok)) => {
                if !ok {
                    self.state = UploadState::Finished;
                    UploadStep::Finish(Err(UploadError::Store))
                } else if self.with_record {
                    self.state = UploadState::Recording;
                    UploadStep::Run(StoreOp::InsertRecord)
                } else {
                    self.state = UploadState::Finished;
                    UploadStep::Finish(Ok(Uploaded::Key))
                }
            },
            (UploadState::Recording, UploadEvent::Inserted(r)) => match r {
                Some(id) => {
                    self.state = UploadState::Finished;
                    UploadStep::Finish(Ok(Uploaded::Record(id)))
                },
                None => {
                    self.state = UploadState::Compensating;
                    UploadStep::Run(StoreOp::DeleteObject)
                },
            },
            (UploadState::Compensating, UploadEvent::Compensated(ok)) => {
                self.state = UploadState::Finished;
                if ok {
                    UploadStep::Finish(Err(UploadError::Metadata))
                } else {
                    UploadStep::Finish(Err(UploadError::CompensationFailed))
                }
            },
            _ => UploadStep::Finish(Err(UploadError::Store)),
        }
    }

    /// The reference the caller keeps for a successful upload.
    pub fn reference(&self, u: Uploaded) -> (r: ObjectRef)
        ensures
            u is Key ==> (r matches ObjectRef::Key(k) && k@ == self.key@),
            u matches Uploaded::Record(id) ==> r == ObjectRef::Record(id),
    {
        match u {
            Uploaded::Key => ObjectRef::Key(self.key.clone()),
            Uploaded::Record(id) => ObjectRef::Record(id),
        }
    }
}

impl ImageService {
    /// Starts an upload of the already transformed `processed` under `key`.
    ///
    /// A failed transformation ends the upload before any request is made;
    /// otherwise the first request is the put.
    pub(crate) fn prepare_upload(
        &self,
        key: String,
        processed: Result<Vec<u8>, ImageError>,
        with_record: bool,
    ) -> (r: Result<(Upload, UploadStep), UploadError>)
        ensures
            processed is Err ==> r == Err::<(Upload, UploadStep), UploadError>(UploadError::Process),
            processed matches Ok(body) ==> (r matches Ok((u, st)) && {
                &&& u.container@ == self@.container
                &&& u.key == key
                &&& u.body == body
                &&& u.content_type@ == content_type_of(self@.format)
                &&& u.with_record == with_record
                &&& u.state == UploadState::Putting
                &&& st == UploadStep::Run(StoreOp::PutObject)
            }),
    {
        match processed {
            Err(_) => Err(UploadError::Process),
            Ok(body) => {
                let u = Upload {
                    container: self.bucket_name().to_string(),
                    key,
                    body,
                    content_type: self.image_content_type(),
                    with_record,
                    state: UploadState::Putting,
                };
                Ok((u, UploadStep::Run(StoreOp::PutObject)))
            },
        }
    }

    /// Starts an upload of `image`: mints a fresh key, then applies the
    /// transformation policy. uploads with `with_record` record metadata after the put.
    pub fn upload_image(&self, image: DynamicImage, with_record: bool) -> (r: Result<(Upload, UploadStep), UploadError>)
        ensures
            r matches Err(e) ==> e == UploadError::Process,
            transform_outcome(self@, image, match r {
                Ok((u, _)) => Ok(u.body@),
                Err(_) => Err(()),
            }),
            r matches Ok((u, st)) ==> {
                &&& u.container@ == self@.container
                &&& is_uuid_v4_text(u.key@)
                &&& u.content_type@ == content_type_of(self@.format)
                &&& u.with_record == with_record
                &&& u.state == UploadState::Putting
                &&& st == UploadStep::Run(StoreOp::PutObject)
            },
    {
        let key = fresh_key();
        let processed = self.process_image(image);
        self.prepare_upload(key, processed, with_record)
    }
}

} // verus!
