use image::DynamicImage;
use image_service::domains::ImageServices;
use image_service::errors::{DeleteError, SignError, UploadError};
use image_service::format::TargetFormat;
use image_service::provision::{EnsureContainer, ProbeOutcome, ProvisionError, ProvisionEvent, ProvisionStep};
use image_service::removal::{Delete, DeleteEvent, DeleteStep};
use image_service::service::ImageService;
use image_service::signing::{PresignedUrl, Sign, SignEvent, SignStep, PRESIGN_TTL_SECS};
use image_service::store::{Endpoint, ImageRecord, ObjectRef, StoreOp};
use image_service::upload::{Upload, UploadEvent, UploadStep};
use std::collections::{HashMap, HashSet};

/// An in-memory object store and catalog with injectable failures.
#[derive(Default)]
struct Fake {
    containers: HashSet<String>,
    objects: HashSet<(String, String)>,
    records: HashMap<i32, (String, String)>,
    next_id: i32,
    creates: usize,
    fail_create: bool,
    fail_put: bool,
    fail_insert: bool,
    fail_delete_object: bool,
    fail_delete_record: bool,
    /// Requests in the order they were performed.
    log: Vec<StoreOp>,
}

impl Fake {
    fn ensure(&mut self, name: &str) -> Result<(), ProvisionError> {
        let (mut saga, mut step) = EnsureContainer::start();
        loop {
            match step {
                ProvisionStep::Finish(r) => return r,
                ProvisionStep::Run(op) => {
                    self.log.push(op);
                    let e = match op {
                        StoreOp::ProbeContainer => ProvisionEvent::Probed(if self.containers.contains(name) {
                            ProbeOutcome::Exists
                        } else {
                            ProbeOutcome::Missing
                        }),
                        StoreOp::CreateContainer => {
                            self.creates += 1;
                            if !self.fail_create {
                                self.containers.insert(name.to_string());
                            }
                            ProvisionEvent::Created(!self.fail_create)
                        }
                        _ => unreachable!(),
                    };
                    step = saga.advance(e);
                }
            }
        }
    }

    fn upload(&mut self, mut u: Upload, mut step: UploadStep) -> Result<ObjectRef, UploadError> {
        loop {
            match step {
                UploadStep::Finish(r) => return r.map(|x| u.reference(x)),
                UploadStep::Run(op) => {
                    self.log.push(op);
                    let place = (u.container.clone(), u.key.clone());
                    let e = match op {
                        StoreOp::PutObject => {
                            if !self.fail_put {
                                self.objects.insert(place);
                            }
                            UploadEvent::Put(!self.fail_put)
                        }
                        StoreOp::InsertRecord => {
                            if self.fail_insert {
                                UploadEvent::Inserted(None)
                            } else {
                                self.next_id += 1;
                                self.records.insert(self.next_id, place);
                                UploadEvent::Inserted(Some(self.next_id))
                            }
                        }
                        StoreOp::DeleteObject => {
                            if !self.fail_delete_object {
                                self.objects.remove(&place);
                            }
                            UploadEvent::Compensated(!self.fail_delete_object)
                        }
                        _ => unreachable!(),
                    };
                    step = u.advance(e);
                }
            }
        }
    }

    fn record(&self, id: i32) -> Option<ImageRecord> {
        self.records.get(&id).map(|(c, k)| ImageRecord { id, container: c.clone(), key: k.clone(), created_at: 0 })
    }

    fn delete(&mut self, (mut d, mut step): (Delete, DeleteStep)) -> Result<(), DeleteError> {
        loop {
            match step {
                DeleteStep::Finish(r) => return r,
                DeleteStep::Run(op) => {
                    self.log.push(op);
                    let e = match op {
                        StoreOp::LookupRecord => DeleteEvent::Looked(self.record(d.record.unwrap())),
                        StoreOp::DeleteRecord => {
                            if !self.fail_delete_record {
                                self.records.remove(&d.record.unwrap());
                            }
                            DeleteEvent::RecordDropped(!self.fail_delete_record)
                        }
                        StoreOp::DeleteObject => {
                            if !self.fail_delete_object {
                                self.objects.remove(&(d.container.clone(), d.key.clone()));
                            }
                            DeleteEvent::ObjectDropped(!self.fail_delete_object)
                        }
                        _ => unreachable!(),
                    };
                    step = d.advance(e);
                }
            }
        }
    }

    fn sign(&mut self, (mut s, mut step): (Sign, SignStep), endpoint: &str) -> Result<PresignedUrl, SignError> {
        loop {
            match step {
                SignStep::Finish(r) => return r,
                SignStep::Run(op) => {
                    self.log.push(op);
                    let e = match op {
                        StoreOp::LookupRecord => SignEvent::Looked(self.record(s.record.unwrap())),
                        StoreOp::Presign => {
                            assert_eq!(op.endpoint(), Endpoint::External);
                            SignEvent::Presigned(format!("{}/{}/{}?X-Amz-Expires=3600", endpoint, s.container, s.key), 1_000)
                        }
                        _ => unreachable!(),
                    };
                    step = s.advance(e);
                }
            }
        }
    }
}

fn svc(name: &str) -> ImageService {
    ImageService::new("", name, Some(TargetFormat::Png), Some((4, 4)), None)
}

fn start(s: &ImageService, with_record: bool) -> (Upload, UploadStep) {
    s.upload_image(DynamicImage::new_rgb8(8, 8), with_record).unwrap()
}

#[test]
fn provisioning_twice_creates_once() {
    let mut f = Fake::default();
    assert_eq!(f.ensure("avatar"), Ok(()));
    assert_eq!(f.ensure("avatar"), Ok(()));
    assert_eq!(f.creates, 1);
    assert_eq!(
        f.log,
        vec![StoreOp::ProbeContainer, StoreOp::CreateContainer, StoreOp::ProbeContainer]
    );
}

#[test]
fn provisioning_existing_container_creates_nothing() {
    let mut f = Fake::default();
    f.containers.insert("test".to_string());
    assert_eq!(f.ensure("test"), Ok(()));
    assert_eq!(f.creates, 0);
}

#[test]
fn failed_creation_is_reported_with_probe_outcome() {
    let mut f = Fake { fail_create: true, ..Fake::default() };
    assert_eq!(f.ensure("avatar"), Err(ProvisionError { probe: ProbeOutcome::Missing }));
}

#[test]
fn unreachable_probe_still_attempts_creation() {
    let (mut saga, _) = EnsureContainer::start();
    let step = saga.advance(ProvisionEvent::Probed(ProbeOutcome::Unreachable));
    assert_eq!(step, ProvisionStep::Run(StoreOp::CreateContainer));
    assert_eq!(
        saga.advance(ProvisionEvent::Created(false)),
        ProvisionStep::Finish(Err(ProvisionError { probe: ProbeOutcome::Unreachable }))
    );
}

#[test]
fn raw_key_upload_stores_object() {
    let mut f = Fake::default();
    let s = svc("avatar");
    let (u, step) = start(&s, false);
    let key = u.key.clone();
    let r = f.upload(u, step).unwrap();
    assert_eq!(r, ObjectRef::Key(key.clone()));
    assert!(f.objects.contains(&("avatar".to_string(), key)));
    assert!(f.records.is_empty());
}

#[test]
fn recorded_upload_returns_record_id() {
    let mut f = Fake::default();
    let s = svc("avatar");
    let (u, step) = start(&s, true);
    let key = u.key.clone();
    assert_eq!(f.upload(u, step), Ok(ObjectRef::Record(1)));
    assert_eq!(f.records[&1], ("avatar".to_string(), key.clone()));
    assert!(f.objects.contains(&("avatar".to_string(), key)));
    assert_eq!(f.log, vec![StoreOp::PutObject, StoreOp::InsertRecord]);
}

#[test]
fn failed_put_persists_nothing() {
    let mut f = Fake { fail_put: true, ..Fake::default() };
    let (u, step) = start(&svc("avatar"), true);
    assert_eq!(f.upload(u, step), Err(UploadError::Store));
    assert!(f.objects.is_empty() && f.records.is_empty());
    assert_eq!(f.log, vec![StoreOp::PutObject]);
}

#[test]
fn failed_record_insert_is_compensated() {
    let mut f = Fake { fail_insert: true, ..Fake::default() };
    let (u, step) = start(&svc("avatar"), true);
    let key = u.key.clone();
    assert_eq!(f.upload(u, step), Err(UploadError::Metadata));
    assert!(!f.objects.contains(&("avatar".to_string(), key)));
    assert!(f.records.is_empty());
    assert_eq!(f.log, vec![StoreOp::PutObject, StoreOp::InsertRecord, StoreOp::DeleteObject]);
}

#[test]
fn failed_compensation_is_distinct() {
    let mut f = Fake { fail_insert: true, fail_delete_object: true, ..Fake::default() };
    let (u, step) = start(&svc("avatar"), true);
    let key = u.key.clone();
    assert_eq!(f.upload(u, step), Err(UploadError::CompensationFailed));
    assert!(f.objects.contains(&("avatar".to_string(), key)));
}

#[test]
fn concurrent_style_uploads_never_collide() {
    let mut f = Fake::default();
    let s = svc("test");
    let starts: Vec<_> = (0..50).map(|_| start(&s, true)).collect();
    let mut ids = HashSet::new();
    for (u, step) in starts {
        ids.insert(f.upload(u, step).unwrap());
    }
    assert_eq!(ids.len(), 50);
    assert_eq!(f.objects.len(), 50);
}

#[test]
fn delete_removes_record_before_object() {
    let mut f = Fake::default();
    let s = svc("avatar");
    let (u, step) = start(&s, true);
    let key = u.key.clone();
    let r = f.upload(u, step).unwrap();
    f.log.clear();
    assert_eq!(f.delete(s.delete_image(&r)), Ok(()));
    assert_eq!(f.log, vec![StoreOp::LookupRecord, StoreOp::DeleteRecord, StoreOp::DeleteObject]);
    assert!(f.records.is_empty());
    assert!(!f.objects.contains(&("avatar".to_string(), key)));
}

#[test]
fn failed_object_delete_leaves_record_absent() {
    let mut f = Fake::default();
    let s = svc("avatar");
    let (u, step) = start(&s, true);
    let r = f.upload(u, step).unwrap();
    f.fail_delete_object = true;
    assert_eq!(f.delete(s.delete_image(&r)), Err(DeleteError::Store));
    assert!(f.records.is_empty());
    assert_eq!(f.objects.len(), 1);
}

#[test]
fn failed_record_delete_leaves_object() {
    let mut f = Fake::default();
    let s = svc("avatar");
    let (u, step) = start(&s, true);
    let r = f.upload(u, step).unwrap();
    f.fail_delete_record = true;
    f.log.clear();
    assert_eq!(f.delete(s.delete_image(&r)), Err(DeleteError::Metadata));
    assert_eq!(f.log, vec![StoreOp::LookupRecord, StoreOp::DeleteRecord]);
    assert_eq!(f.records.len(), 1);
    assert_eq!(f.objects.len(), 1);
}

#[test]
fn repeated_delete_is_idempotent() {
    let mut f = Fake::default();
    let s = svc("avatar");
    let (u, step) = start(&s, true);
    let r = f.upload(u, step).unwrap();
    assert_eq!(f.delete(s.delete_image(&r)), Ok(()));
    assert_eq!(f.delete(s.delete_image(&r)), Ok(()));
    let (u, step) = start(&s, false);
    let k = f.upload(u, step).unwrap();
    assert_eq!(f.delete(s.delete_image(&k)), Ok(()));
    assert_eq!(f.delete(s.delete_image(&k)), Ok(()));
    assert!(f.objects.is_empty());
}

#[test]
fn lookup_failure_is_a_metadata_error() {
    let s = svc("avatar");
    let (mut d, _) = s.delete_image(&ObjectRef::Record(9));
    assert_eq!(d.advance(DeleteEvent::LookupFailed), DeleteStep::Finish(Err(DeleteError::Metadata)));
    let (mut g, _) = s.get_presigned_url(&ObjectRef::Record(9));
    assert!(matches!(g.advance(SignEvent::LookupFailed), SignStep::Finish(Err(SignError::Transport))));
}

#[test]
fn cross_domain_references_are_refused() {
    let mut f = Fake::default();
    let domains = ImageServices::new("");
    let (u, step) = domains.test.upload_image(DynamicImage::new_rgb8(300, 300), true).unwrap();
    let r = f.upload(u, step).unwrap();
    f.log.clear();
    assert_eq!(f.delete(domains.avatar.delete_image(&r)), Err(DeleteError::Mismatch));
    assert!(matches!(f.sign(domains.avatar.get_presigned_url(&r), "https://img.example.com"), Err(SignError::NotFound)));
    assert_eq!(f.log, vec![StoreOp::LookupRecord, StoreOp::LookupRecord]);
    assert_eq!(f.records.len(), 1);
    assert_eq!(f.objects.len(), 1);
    assert!(f.delete(domains.test.delete_image(&r)).is_ok());
}

#[test]
fn signing_unknown_record_is_not_found() {
    let mut f = Fake::default();
    assert!(matches!(f.sign(svc("avatar").get_presigned_url(&ObjectRef::Record(42)), "https://e"), Err(SignError::NotFound)));
}

#[test]
fn signed_url_uses_external_endpoint() {
    let mut f = Fake::default();
    let s = svc("avatar");
    let (u, step) = start(&s, true);
    let key = u.key.clone();
    let r = f.upload(u, step).unwrap();
    let url = f.sign(s.get_presigned_url(&r), "https://img.example.com").unwrap();
    assert_eq!(url.uri, format!("https://img.example.com/avatar/{}?X-Amz-Expires=3600", key));
    assert_eq!(url.valid_until, 1_000 + PRESIGN_TTL_SECS);
    assert_eq!(url.valid_until, 4_600);
    for op in &f.log {
        let expected = match op {
            StoreOp::Presign => Endpoint::External,
            StoreOp::InsertRecord | StoreOp::LookupRecord => Endpoint::Catalog,
            _ => Endpoint::Internal,
        };
        assert_eq!(op.endpoint(), expected);
    }
}

#[test]
fn signing_raw_key_presigns_directly() {
    let s = svc("avatar");
    let (mut g, step) = s.get_presigned_url(&ObjectRef::Key("abc".to_string()));
    assert!(matches!(step, SignStep::Run(StoreOp::Presign)));
    assert_eq!(g.key, "abc");
    assert_eq!(g.container, "avatar");
    assert!(matches!(g.advance(SignEvent::PresignFailed), SignStep::Finish(Err(SignError::Transport))));
}

#[test]
fn every_request_has_its_endpoint() {
    let internal = [StoreOp::ProbeContainer, StoreOp::CreateContainer, StoreOp::PutObject, StoreOp::DeleteObject];
    for op in internal {
        assert_eq!(op.endpoint(), Endpoint::Internal);
    }
    for op in [StoreOp::InsertRecord, StoreOp::LookupRecord, StoreOp::DeleteRecord] {
        assert_eq!(op.endpoint(), Endpoint::Catalog);
    }
    assert_eq!(StoreOp::Presign.endpoint(), Endpoint::External);
}

#[test]
fn upload_reference_of_record() {
    let s = svc("avatar");
    let (mut u, _) = start(&s, true);
    assert_eq!(u.advance(UploadEvent::Put(true)), UploadStep::Run(StoreOp::InsertRecord));
    assert_eq!(u.advance(UploadEvent::Inserted(Some(7))), UploadStep::Finish(Ok(image_service::upload::Uploaded::Record(7))));
    assert_eq!(u.reference(image_service::upload::Uploaded::Record(7)), ObjectRef::Record(7));
}
