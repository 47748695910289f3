//! Object storage mediation for image domains.
//!
//! Each image domain (avatars, person photos, test uploads, ...) owns one
//! storage container and one transformation policy. The library decides every
//! step of provisioning, uploading, deleting and signing as a small state
//! machine; a driver performs the step against the object store or the
//! metadata catalog and hands the outcome back. `laws` states what holds when
//! these machines run against a store that behaves as `store::StoreModel`
//! describes.
pub mod errors;
pub mod format;
pub mod codec;
pub mod keys;
pub mod service;
pub mod domains;
pub mod store;
pub mod lookup;
pub mod provision;
pub mod upload;
pub mod removal;
pub mod signing;
pub mod laws;
pub mod validators;
pub mod account;
pub mod person;
