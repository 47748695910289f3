//! Deletion: the metadata record goes first, then the object.
use crate::errors::DeleteError;
use crate::lookup::{classify, classify_lookup, Lookup};
use crate::service::ImageService;
use crate::store::{ImageRecord, ObjectRef, StoreOp};
use vstd::prelude::*;

verus! {

#[derive(Clone, Copy, Debug, PartialEq, Eq, Structural)]
pub enum DeleteState {
    LookingUp,
    DroppingRecord,
    DroppingObject,
    Finished,
}

/// What a driver reports back during a delete.
#[derive(Clone, Debug)]
pub enum DeleteEvent {
    /// The record with the id, if there is one.
    Looked(Option<ImageRecord>),
    LookupFailed,
    /// Whether the record delete succeeded (an absent record counts as deleted).
    RecordDropped(bool),
    /// Whether the object delete succeeded (an absent object counts as deleted).
    ObjectDropped(bool),
}

/// The part of a delete event that decides the next step.
#[derive(Clone, Copy, Debug, PartialEq, Eq, Structural)]
pub enum DeleteSignal {
    Looked(Lookup),
    LookupFailed,
    RecordDropped(bool),
    ObjectDropped(bool),
}

#[derive(Clone, Copy, Debug, PartialEq, Eq)]
pub enum DeleteStep {
    Run(StoreOp),
    Finish(Result<(), DeleteError>),
}

pub open spec fn delete_signal(e: DeleteEvent, container: Seq<char>) -> DeleteSignal {
    match e {
        DeleteEvent::Looked(found) => DeleteSignal::Looked(classify(found, container)),
        DeleteEvent::LookupFailed => DeleteSignal::LookupFailed,
        DeleteEvent::RecordDropped(ok) => DeleteSignal::RecordDropped(ok),
        DeleteEvent::ObjectDropped(ok) => DeleteSignal::ObjectDropped(ok),
    }
}

/// The object key a delete holds after event `e`: an owned record supplies it.
pub open spec fn key_after(key: Seq<char>, e: DeleteEvent, container: Seq<char>) -> Seq<char> {
    match e {
        DeleteEvent::Looked(Some(rec)) => if rec.container@ == container {
            rec.key@
        } else {
            key
        },
        _ => key,
    }
}

/// Whether `g` answers the request issued in state `s`.
pub open spec fn delete_accepts(s: DeleteState, g: DeleteSignal) -> bool {
    ||| s is LookingUp && (g is Looked || g is LookupFailed)
    ||| s is DroppingRecord && g is RecordDropped
    ||| s is DroppingObject && g is ObjectDropped
}

/// The transition table of a delete.
pub open spec fn delete_next(s: DeleteState, g: DeleteSignal) -> (DeleteState, DeleteStep) {
    match (s, g) {
        (DeleteState::LookingUp, DeleteSignal::Looked(l)) => match l {
            Lookup::Absent => (DeleteState::Finished, DeleteStep::Finish(Ok(()))),
            Lookup::Foreign => (DeleteState::Finished, DeleteStep::Finish(Err(DeleteError::Mismatch))),
            Lookup::Owned => (DeleteState::DroppingRecord, DeleteStep::Run(StoreOp::DeleteRecord)),
        },
        (DeleteState::LookingUp, DeleteSignal::LookupFailed) => (
            DeleteState::Finished,
            DeleteStep::Finish(Err(DeleteError::Metadata)),
        ),
        (DeleteState::DroppingRecord, DeleteSignal::RecordDropped(ok)) => if ok {
            (DeleteState::DroppingObject, DeleteStep::Run(StoreOp::DeleteObject))
        } else {
            (DeleteState::Finished, DeleteStep::Finish(Err(DeleteError::Metadata)))
        },
        (DeleteState::DroppingObject, DeleteSignal::ObjectDropped(ok)) => (
            DeleteState::Finished,
            DeleteStep::Finish(if ok { Ok(()) } else { Err(DeleteError::Store) }),
        ),
        _ => (s, DeleteStep::Finish(Err(DeleteError::Metadata))),
    }
}

/// A delete in progress.
pub struct Delete {
    /// This domain's container.
    pub container: String,
    /// The object key, once known.
    pub key: String,
    /// The record id, for a reference by record.
    pub record: Option<i32>,
    pub state: DeleteState,
}

impl Delete {
    /// Takes the outcome of the last request and returns the next one.
    pub fn advance(&mut self, e: DeleteEvent) -> (r: DeleteStep)
        requires
            delete_accepts(old(self).state, delete_signal(e, old(self).container@)),
        ensures
            (final(self).state, r) == delete_next(old(self).state, delete_signal(e, old(self).container@)),
            final(self).container == old(self).container,
            final(self).record == old(self).record,
            final(self).key@ == key_after(old(self).key@, e, old(self).container@),
    {
        match e {
            DeleteEvent::Looked(found) => match classify_lookup(&found, &self.container) {
                Lookup::Absent => {
                    self.state = DeleteState::Finished;
                    DeleteStep::Finish(Ok(()))
                },
                Lookup::Foreign => {
                    self.state = DeleteState::Finished;
                    DeleteStep::Finish(Err(DeleteError::Mismatch))
                },
                Lookup::Owned => {
                    match found {
                        Some(rec) => {
                            self.key = rec.key;
                        },
                        None => {},
                    }
                    self.state = DeleteState::DroppingRecord;
                    DeleteStep::Run(StoreOp::DeleteRecord)
                },
            },
            DeleteEvent::LookupFailed => {
                self.state = DeleteState::Finished;
                DeleteStep::Finish(Err(DeleteError::Metadata))
            },
            DeleteEvent::RecordDropped(ok) => {
                if ok {
                    self.state = DeleteState::DroppingObject;
                    DeleteStep::Run(StoreOp::DeleteObject)
                } else {
                    self.state = DeleteState::Finished;
                    DeleteStep::Finish(Err(DeleteError::Metadata))
                }
            },
            DeleteEvent::ObjectDropped(ok) => {
                self.state = DeleteState::Finished;
                if ok {
                    DeleteStep::Finish(Ok(()))
                } else {
                    DeleteStep::Finish(Err(DeleteError::Store))
                }
            },
        }
    }
}

impl ImageService {
    /// Starts deleting the image `reference` of this domain.
    ///
    /// A raw key is deleted from this domain's container directly; a record
    /// is looked up first, so that it can be checked to belong to this domain.
    pub fn delete_image(&self, reference: &ObjectRef) -> (r: (Delete, DeleteStep))
        ensures
            r.0.container@ == self@.container,
            reference matches ObjectRef::Key(k) ==> {
                &&& r.0.key@ == k@
                &&& r.0.record is None
                &&& r.0.state == DeleteState::DroppingObject
                &&& r.1 == DeleteStep::Run(StoreOp::DeleteObject)
            },
            reference matches ObjectRef::Record(id) ==> {
                &&& r.0.record == Some(*id)
                &&& r.0.state == DeleteState::LookingUp
                &&& r.1 == DeleteStep::Run(StoreOp::LookupRecord)
            },
    {
        let container = self.bucket_name().to_string();
        match reference {
            ObjectRef::Key(k) => (
                Delete { container, key: k.clone(), record: None, state: DeleteState::DroppingObject },
                DeleteStep::Run(StoreOp::DeleteObject),
            ),
            ObjectRef::Record(id) => (
                Delete { container, key: String::new(), record: Some(*id), state: DeleteState::LookingUp },
                DeleteStep::Run(StoreOp::LookupRecord),
            ),
        }
    }
}

} // verus!
