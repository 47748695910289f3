//! Time-limited read URLs, minted with the external client.
use crate::errors::SignError;
use crate::lookup::{classify, classify_lookup, Lookup};
use crate::service::ImageService;
use crate::store::{ImageRecord, ObjectRef, StoreOp};
use vstd::prelude::*;

verus! {

/// How long a presigned URL stays valid, in seconds.
pub const PRESIGN_TTL_SECS: u64 = 3600;

/// A URL that grants read access to one object until `valid_until`.
#[derive(Clone, Debug, PartialEq, Eq)]
pub struct PresignedUrl {
    pub uri: String,
    /// Expiry, in seconds since the Unix epoch.
    pub valid_until: u64,
}

#[derive(Clone, Copy, Debug, PartialEq, Eq, Structural)]
pub enum SignState {
    LookingUp,
    Signing,
    Finished,
}

/// What a driver reports back while signing.
#[derive(Clone, Debug)]
pub enum SignEvent {
    /// The record with the id, if there is one.
    Looked(Option<ImageRecord>),
    LookupFailed,
    /// The presigned URI, and the time it was issued (seconds since the Unix epoch).
    Presigned(String, u64),
    PresignFailed,
}

/// The part of a sign event that decides the next step.
#[derive(Clone, Copy, Debug, PartialEq, Eq, Structural)]
pub enum SignSignal {
    Looked(Lookup),
    LookupFailed,
    Presigned,
    PresignFailed,
}

/// The shape of a sign step, without the URL it may carry.
#[derive(Clone, Copy, Debug, PartialEq, Eq)]
pub enum SignMove {
    Run(StoreOp),
    Finish(Result<(), SignError>),
}

#[derive(Debug)]
pub enum SignStep {
    Run(StoreOp),
    Finish(Result<PresignedUrl, SignError>),
}

impl SignStep {
    pub open spec fn shape(self) -> SignMove {
        match self {
            SignStep::Run(op) => SignMove::Run(op),
            SignStep::Finish(Ok(_)) => SignMove::Finish(Ok(())),
            SignStep::Finish(Err(e)) => SignMove::Finish(Err(e)),
        }
    }
}

pub open spec fn sign_signal(e: SignEvent, container: Seq<char>) -> SignSignal {
    match e {
        SignEvent::Looked(found) => SignSignal::Looked(classify(found, container)),
        SignEvent::LookupFailed => SignSignal::LookupFailed,
        SignEvent::Presigned(_, _) => SignSignal::Presigned,
        SignEvent::PresignFailed => SignSignal::PresignFailed,
    }
}

/// Whether `g` answers the request issued in state `s`.
pub open spec fn sign_accepts(s: SignState, g: SignSignal) -> bool {
    ||| s is LookingUp && (g is Looked || g is LookupFailed)
    ||| s is Signing && (g is Presigned || g is PresignFailed)
}

/// The transition table of signing.
pub open spec fn sign_next(s: SignState, g: SignSignal) -> (SignState, SignMove) {
    match (s, g) {
        (SignState::LookingUp, SignSignal::Looked(l)) => match l {
            Lookup::Owned => (SignState::Signing, SignMove::Run(StoreOp::Presign)),
            _ => (SignState::Finished, SignMove::Finish(Err(SignError::NotFound))),
        },
        (SignState::LookingUp, SignSignal::LookupFailed) => (
            SignState::Finished,
            SignMove::Finish(Err(SignError::Transport)),
        ),
        (SignState::Signing, SignSignal::Presigned) => (SignState::Finished, SignMove::Finish(Ok(()))),
        (SignState::Signing, SignSignal::PresignFailed) => (
            SignState::Finished,
            SignMove::Finish(Err(SignError::Transport)),
        ),
        _ => (s, SignMove::Finish(Err(SignError::Transport))),
    }
}

/// A signing in progress.
pub struct Sign {
    /// This domain's container.
    pub container: String,
    /// The object key, once known.
    pub key: String,
    /// The record id, for a reference by record.
    pub record: Option<i32>,
    pub state: SignState,
}

impl Sign {
    /// Takes the outcome of the last request and returns the next one.
    pub fn advance(&mut self, e: SignEvent) -> (r: SignStep)
        requires
            sign_accepts(old(self).state, sign_signal(e, old(self).container@)),
            e matches SignEvent::Presigned(_, at) ==> at <= u64::MAX - PRESIGN_TTL_SECS,
        ensures
            (final(self).state, r.shape()) == sign_next(old(self).state, sign_signal(e, old(self).container@)),
            final(self).container == old(self).container,
            final(self).record == old(self).record,
            e matches SignEvent::Looked(Some(rec)) ==> final(self).key@ == (if rec.container@
                == old(self).container@ {
                rec.key@
            } else {
                old(self).key@
            }),
            !(e is Looked) ==> final(self).key == old(self).key,
            e matches SignEvent::Presigned(uri, at) ==> (r matches SignStep::Finish(Ok(u)) && u.uri
                == uri && u.valid_until == at + PRESIGN_TTL_SECS),
    {
        match e {
            SignEvent::Looked(found) => match classify_lookup(&found, &self.container) {
                Lookup::Owned => {
                    match found {
                        Some(rec) => {
                            self.key = rec.key;
                        },
                        None => {},
                    }
                    self.state = SignState::Signing;
                    SignStep::Run(StoreOp::Presign)
                },
                _ => {
                    self.state = SignState::Finished;
                    SignStep::Finish(Err(SignError::NotFound))
                },
            },
            SignEvent::LookupFailed => {
                self.state = SignState::Finished;
                SignStep::Finish(Err(SignError::Transport))
            },
            SignEvent::Presigned(uri, at) => {
                self.state = SignState::Finished;
                SignStep::Finish(Ok(PresignedUrl { uri, valid_until: at + PRESIGN_TTL_SECS }))
            },
            SignEvent::PresignFailed => {
                self.state = SignState::Finished;
                SignStep::Finish(Err(SignError::Transport))
            },
        }
    }
}

impl ImageService {
    /// Starts signing the image `reference` of this domain.
    ///
    /// A raw key is signed in this domain's container directly; a record is
    /// looked up first, so that it can be checked to belong to this domain.
    pub fn get_presigned_url(&self, reference: &ObjectRef) -> (r: (Sign, SignStep))
        ensures
            r.0.container@ == self@.container,
            reference matches ObjectRef::Key(k) ==> {
                &&& r.0.key@ == k@
                &&& r.0.record is None
                &&& r.0.state == SignState::Signing
                &&& r.1.shape() == SignMove::Run(StoreOp::Presign)
            },
            reference matches ObjectRef::Record(id) ==> {
                &&& r.0.record == Some(*id)
                &&& r.0.state == SignState::LookingUp
                &&& r.1.shape() == SignMove::Run(StoreOp::LookupRecord)
            },
    {
        let container = self.bucket_name().to_string();
        match reference {
            ObjectRef::Key(k) => (
                Sign { container, key: k.clone(), record: None, state: SignState::Signing },
                SignStep::Run(StoreOp::Presign),
            ),
            ObjectRef::Record(id) => (
                Sign { container, key: String::new(), record: Some(*id), state: SignState::LookingUp },
                SignStep::Run(StoreOp::LookupRecord),
            ),
        }
    }
}

} // verus!
