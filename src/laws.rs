//! What holds of the state machines when run against a store that behaves as
//! modelled by `StoreModel`: a successful request has its effect, a failed one
//! has none, and probes and lookups report what the store holds.
use crate::errors::{DeleteError, SignError, UploadError};
use crate::lookup::Lookup;
use crate::provision::{provision_next, ProbeOutcome, ProvisionEvent, ProvisionState, ProvisionStep};
use crate::removal::{delete_next, delete_signal, Delete, DeleteEvent, DeleteSignal, DeleteState, DeleteStep};
use crate::signing::{sign_next, sign_signal, SignEvent, SignMove, SignSignal, SignState};
use crate::store::{endpoint_of, Endpoint, ImageRecord, StoreModel, StoreOp};
use crate::upload::{upload_next, Upload, UploadEvent, UploadState, UploadStep, Uploaded};
use vstd::prelude::*;

verus! {

/// What a truthful existence probe of `name` reports.
pub open spec fn probe_in(w: StoreModel, name: Seq<char>) -> ProbeOutcome {
    if w.containers.contains(name) {
        ProbeOutcome::Exists
    } else {
        ProbeOutcome::Missing
    }
}

/// Provisioning `name` against `w`, where a create succeeds iff `create_ok`:
/// the store afterwards, the final step, and whether a create was issued.
pub open spec fn provision_run(w: StoreModel, name: Seq<char>, create_ok: bool) -> (StoreModel, ProvisionStep, bool) {
    let (s1, st1) = provision_next(ProvisionState::Probing, ProvisionEvent::Probed(probe_in(w, name)));
    if st1 == ProvisionStep::Run(StoreOp::CreateContainer) {
        let (s2, st2) = provision_next(s1, ProvisionEvent::Created(create_ok));
        (if create_ok { w.with_container(name) } else { w }, st2, true)
    } else {
        (w, st1, false)
    }
}

/// Provisioning twice in a row: once the first run has succeeded, the second
/// succeeds too, issues no create and leaves the store as it was.
pub proof fn lemma_provision_idempotent(w: StoreModel, name: Seq<char>, first_ok: bool, second_ok: bool)
    requires
        provision_run(w, name, first_ok).1 == ProvisionStep::Finish(Ok(())),
    ensures
        ({
            let w1 = provision_run(w, name, first_ok).0;
            &&& w1.containers.contains(name)
            &&& provision_run(w1, name, second_ok) == (w1, ProvisionStep::Finish(Ok(())), false)
        }),
{
}

/// Running upload `u` from its put against `w`, with the given outcomes of
/// the put, the record insert and the compensating delete: the store
/// afterwards and the final step.
pub open spec fn upload_run(w: StoreModel, u: Upload, put_ok: bool, inserted: Option<i32>, compensated: bool) -> (
    StoreModel,
    UploadStep,
) {
    let container = u.container@;
    let key = u.key@;
    let with_record = u.with_record;
    let (s1, st1) = upload_next(with_record, u.state, UploadEvent::Put(put_ok));
    let w1 = if put_ok { w.with_object(container, key) } else { w };
    if st1 == UploadStep::Run(StoreOp::InsertRecord) {
        let (s2, st2) = upload_next(with_record, s1, UploadEvent::Inserted(inserted));
        let w2 = match inserted {
            Some(id) => w1.with_record(id, container, key),
            None => w1,
        };
        if st2 == UploadStep::Run(StoreOp::DeleteObject) {
            let (s3, st3) = upload_next(with_record, s2, UploadEvent::Compensated(compensated));
            (if compensated { w2.without_object(container, key) } else { w2 }, st3)
        } else {
            (w2, st2)
        }
    } else {
        (w1, st1)
    }
}

/// Upload consistency: an upload under a fresh key ends, whatever each request
/// returns; a successful one leaves the object stored (and, with a record,
/// the record pointing at it); a failed one leaves neither object nor record,
/// except after a failed compensation, which leaves the object orphaned.
/// No two records come to point at the same object. `u` is an upload as
/// `ImageService::upload_image` starts it, waiting for its put.
pub proof fn lemma_upload_consistent(w: StoreModel, u: Upload, put_ok: bool, inserted: Option<i32>, compensated: bool)
    requires
        u.state == UploadState::Putting,
        !w.has_object(u.container@, u.key@),
        !w.has_record_for(u.container@, u.key@),
        w.records_unique(),
    ensures
        ({
            let (container, key, with_record) = (u.container@, u.key@, u.with_record);
            let (w2, st) = upload_run(w, u, put_ok, inserted, compensated);
            &&& st is Finish
            &&& w2.records_unique()
            &&& st == UploadStep::Finish(Ok(Uploaded::Key)) ==> !with_record && w2.has_object(container, key)
            &&& st matches UploadStep::Finish(Ok(Uploaded::Record(id))) ==> {
                &&& w2.has_object(container, key)
                &&& w2.records.contains_key(id)
                &&& w2.records[id] == (container, key)
            }
            &&& st matches UploadStep::Finish(Err(e)) ==> !w2.has_record_for(container, key) && (
            w2.has_object(container, key) <==> e == UploadError::CompensationFailed)
        }),
{
    let (container, key) = (u.container@, u.key@);
    let (w2, st) = upload_run(w, u, put_ok, inserted, compensated);
    if st matches UploadStep::Finish(Err(e)) {
        assert(!w2.has_record_for(container, key)) by {
            if w2.has_record_for(container, key) {
                let id = choose|id: i32| #[trigger] w2.records.contains_key(id) && w2.records[id] == (container, key);
                assert(w.records.contains_key(id) && w.records[id] == (container, key));
            }
        }
    }
}

/// A record insert that fails after a successful put is compensated: the
/// object is gone again and the upload reports a metadata failure, not a
/// failed compensation. `u` is an upload with a record, waiting for its put.
/// When the key held no object before, the store's objects are as they were.
pub proof fn lemma_failed_record_is_compensated(w: StoreModel, u: Upload)
    requires
        u.state == UploadState::Putting,
        u.with_record,
    ensures
        ({
            let (w2, st) = upload_run(w, u, true, None, true);
            &&& st == UploadStep::Finish(Err(UploadError::Metadata))
            &&& !w2.has_object(u.container@, u.key@)
            &&& w2.objects == w.objects.remove((u.container@, u.key@))
            &&& !w.has_object(u.container@, u.key@) ==> w2.objects == w.objects
            &&& w2.records == w.records
        }),
{
    let (w2, st) = upload_run(w, u, true, None, true);
    if !w.has_object(u.container@, u.key@) {
        assert(w2.objects =~= w.objects);
    }
}

/// What a truthful lookup of record `id` reports to the domain of `container`.
pub open spec fn lookup_in(w: StoreModel, id: i32, container: Seq<char>) -> Lookup {
    if !w.records.contains_key(id) {
        Lookup::Absent
    } else if w.records[id].0 == container {
        Lookup::Owned
    } else {
        Lookup::Foreign
    }
}

/// Running delete `d` of record `id` from its lookup against `w`, with the
/// given outcomes of the record delete and the object delete: the store after
/// the record step, the store at the end, and the final step.
pub open spec fn delete_run(w: StoreModel, d: Delete, id: i32, record_ok: bool, object_ok: bool) -> (
    StoreModel,
    StoreModel,
    DeleteStep,
) {
    let container = d.container@;
    let (s1, st1) = delete_next(d.state, DeleteSignal::Looked(lookup_in(w, id, container)));
    if st1 == DeleteStep::Run(StoreOp::DeleteRecord) {
        let key = w.records[id].1;
        let w1 = if record_ok { w.without_record(id) } else { w };
        let (s2, st2) = delete_next(s1, DeleteSignal::RecordDropped(record_ok));
        if st2 == DeleteStep::Run(StoreOp::DeleteObject) {
            let (s3, st3) = delete_next(s2, DeleteSignal::ObjectDropped(object_ok));
            (w1, if object_ok { w1.without_object(container, key) } else { w1 }, st3)
        } else {
            (w1, w1, st2)
        }
    } else {
        (w, w, st1)
    }
}

/// Delete ordering: the record is removed before the object is touched, so
/// an object delete only ever runs once the record is gone; a failed object
/// delete still leaves the record removed; a failed record delete leaves the
/// object alone. `d` is a delete as `ImageService::delete_image` starts it
/// for a reference by record, waiting for its lookup.
pub proof fn lemma_delete_record_first(w: StoreModel, d: Delete, id: i32, record_ok: bool, object_ok: bool)
    requires
        d.state == DeleteState::LookingUp,
        d.record == Some(id),
        w.records.contains_key(id),
        w.records[id].0 == d.container@,
    ensures
        ({
            let (container, key) = (d.container@, w.records[id].1);
            let (w1, w2, st) = delete_run(w, d, id, record_ok, object_ok);
            &&& w2.objects != w.objects ==> !w1.records.contains_key(id)
            &&& record_ok ==> !w2.records.contains_key(id)
            &&& record_ok ==> (st == DeleteStep::Finish(if object_ok { Ok(()) } else { Err(DeleteError::Store) }))
            &&& record_ok && object_ok ==> !w2.has_object(container, key)
            &&& !record_ok ==> w2 == w && st == DeleteStep::Finish(Err(DeleteError::Metadata))
        }),
{
    let (w1, w2, st) = delete_run(w, d, id, record_ok, object_ok);
    if record_ok && !object_ok {
        assert(w2.objects == w1.objects);
    }
}

/// The object step of a delete is only issued right after a successful record
/// delete, or as the first step of deleting a raw key.
pub proof fn lemma_object_delete_follows_record_delete(s: DeleteState, g: DeleteSignal)
    requires
        delete_next(s, g).1 == DeleteStep::Run(StoreOp::DeleteObject),
    ensures
        s == DeleteState::DroppingRecord,
        g == DeleteSignal::RecordDropped(true),
{
}

/// Cross-domain protection: a record of another container is neither deleted
/// nor signed by this domain; no further request is issued.
pub proof fn lemma_foreign_record_refused(rec: ImageRecord, container: Seq<char>)
    requires
        rec.container@ != container,
    ensures
        delete_next(DeleteState::LookingUp, delete_signal(DeleteEvent::Looked(Some(rec)), container)) == (
            DeleteState::Finished,
            DeleteStep::Finish(Err(DeleteError::Mismatch)),
        ),
        sign_next(SignState::LookingUp, sign_signal(SignEvent::Looked(Some(rec)), container)) == (
            SignState::Finished,
            SignMove::Finish(Err(SignError::NotFound)),
        ),
{
}

/// The dual-endpoint split: presigning is the only request bound to the
/// external client, and signing issues no request to the internal one;
/// provisioning, uploads and deletes never use the external client.
pub proof fn lemma_only_signing_goes_external()
    ensures
        endpoint_of(StoreOp::Presign) == Endpoint::External,
        forall|op: StoreOp| #[trigger] endpoint_of(op) == Endpoint::External ==> op == StoreOp::Presign,
        forall|s: SignState, g: SignSignal|
            #[trigger] sign_next(s, g).1 matches SignMove::Run(op) ==> endpoint_of(op) != Endpoint::Internal,
        forall|s: ProvisionState, e: ProvisionEvent|
            #[trigger] provision_next(s, e).1 matches ProvisionStep::Run(op) ==> endpoint_of(op) == Endpoint::Internal,
        forall|r: bool, s: UploadState, e: UploadEvent|
            #[trigger] upload_next(r, s, e).1 matches UploadStep::Run(op) ==> endpoint_of(op) != Endpoint::External,
        forall|s: DeleteState, g: DeleteSignal|
            #[trigger] delete_next(s, g).1 matches DeleteStep::Run(op) ==> endpoint_of(op) != Endpoint::External,
{
}

} // verus!
