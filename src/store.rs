//! The collaborators a driver talks to, and a model of what they hold.
use vstd::prelude::*;

verus! {

/// Which capability performs a request.
#[derive(Clone, Copy, Debug, PartialEq, Eq, Structural)]
pub enum Endpoint {
    /// The object-store client bound to the server-side endpoint.
    Internal,
    /// The object-store client bound to the externally reachable endpoint;
    /// it is only used to mint presigned URLs.
    External,
    /// The relational metadata catalog.
    Catalog,
}

/// A request that a driver performs on behalf of a state machine.
#[derive(Clone, Copy, Debug, PartialEq, Eq, Structural)]
pub enum StoreOp {
    /// Existence probe (head) of the container.
    ProbeContainer,
    /// Creation of the container.
    CreateContainer,
    /// Put of the transformed bytes under (container, key), with content type.
    PutObject,
    /// Delete of the object (container, key); deleting an absent key succeeds.
    DeleteObject,
    /// Insert of the metadata record (container, key); yields the record id.
    InsertRecord,
    /// Lookup of the metadata record by id.
    LookupRecord,
    /// Delete of the metadata record by id.
    DeleteRecord,
    /// Presigning of a time-limited GET of (container, key).
    Presign,
}

/// The capability each request is bound to.
pub open spec fn endpoint_of(op: StoreOp) -> Endpoint {
    match op {
        StoreOp::Presign => Endpoint::External,
        StoreOp::InsertRecord | StoreOp::LookupRecord | StoreOp::DeleteRecord => Endpoint::Catalog,
        _ => Endpoint::Internal,
    }
}

impl StoreOp {
    /// The capability that must perform this request.
    pub fn endpoint(&self) -> (r: Endpoint)
        ensures
            r == endpoint_of(*self),
    {
        match self {
            StoreOp::Presign => Endpoint::External,
            StoreOp::InsertRecord | StoreOp::LookupRecord | StoreOp::DeleteRecord => Endpoint::Catalog,
            _ => Endpoint::Internal,
        }
    }
}

/// A metadata row linking a surrogate id to a stored object.
#[derive(Clone, Debug)]
pub struct ImageRecord {
    pub id: i32,
    pub container: String,
    pub key: String,
    /// Creation time, in seconds since the Unix epoch.
    pub created_at: i64,
}

/// The reference a caller keeps for an uploaded image.
#[derive(Clone, Debug, PartialEq, Eq, Hash)]
pub enum ObjectRef {
    /// The raw object key within the domain's container.
    Key(String),
    /// The id of the metadata record that locates the object.
    Record(i32),
}

/// What the object store and the metadata catalog hold.
pub ghost struct StoreModel {
    pub containers: Set<Seq<char>>,
    pub objects: Set<(Seq<char>, Seq<char>)>,
    pub records: Map<i32, (Seq<char>, Seq<char>)>,
}

impl StoreModel {
    pub open spec fn has_object(self, container: Seq<char>, key: Seq<char>) -> bool {
        self.objects.contains((container, key))
    }

    /// Whether some record points at (container, key).
    pub open spec fn has_record_for(self, container: Seq<char>, key: Seq<char>) -> bool {
        exists|id: i32| #[trigger] self.records.contains_key(id) && self.records[id] == (container, key)
    }

    /// No two records point at the same (container, key).
    pub open spec fn records_unique(self) -> bool {
        forall|a: i32, b: i32|
            #![trigger self.records[a], self.records[b]]
            self.records.contains_key(a) && self.records.contains_key(b) && self.records[a] == self.records[b]
                ==> a == b
    }

    pub open spec fn with_container(self, container: Seq<char>) -> StoreModel {
        StoreModel { containers: self.containers.insert(container), ..self }
    }

    pub open spec fn with_object(self, container: Seq<char>, key: Seq<char>) -> StoreModel {
        StoreModel { objects: self.objects.insert((container, key)), ..self }
    }

    pub open spec fn without_object(self, container: Seq<char>, key: Seq<char>) -> StoreModel {
        StoreModel { objects: self.objects.remove((container, key)), ..self }
    }

    pub open spec fn with_record(self, id: i32, container: Seq<char>, key: Seq<char>) -> StoreModel {
        StoreModel { records: self.records.insert(id, (container, key)), ..self }
    }

    pub open spec fn without_record(self, id: i32) -> StoreModel {
        StoreModel { records: self.records.remove(id), ..self }
    }
}

} // verus!
