//! The resource-synchronization client: for one collection of
//! resources, it says exactly which request each operation sends and
//! how each answer of the transport is to be read.
//!
//! The client is stateless: it holds only the path segments it was
//! configured with, and every operation is a pair of pure steps — a
//! request builder and a response interpreter — with the actual
//! delivery left to a transport collaborator outside the library.

use vstd::prelude::*;
use crate::codec::json_items_of;
use crate::codec::parse_array;
use crate::codec::value_text;
use crate::codec::value_to_text;
use crate::errors::SyncError;
use crate::http::HttpRequest;
use crate::http::Method;
use crate::http::TransportOutcome;
use crate::http::read_ok;
use crate::http::write_ok;
use crate::resource::Resource;
use crate::resource::spec_decode_item;
use crate::resource::spec_decode_list;

verus! {

/// Result of an upsert: whether the write created the resource or
/// replaced an existing one.
#[derive(PartialEq, Eq, Structural, Clone, Copy, Debug)]
pub enum UpsertOutcome {
    Created,
    Replaced,
}

/// What a fetch of one resource by id found out. The three states are
/// kept apart so that an upsert can tell definitive absence from a
/// failure that merely hides the resource's true state.
pub enum GetOutcome {
    /// Status 200 with a decodable record.
    Found(Resource),
    /// The service answered the per-id path with status 404; the raw
    /// response body is kept as diagnostic text. This is the only
    /// license for the create branch of an upsert.
    NotFound(String),
    /// Anything else: a transport failure, another non-success status,
    /// or an undecodable success body.
    OtherError(SyncError),
}

impl GetOutcome {
    /// Collapses the tri-state fetch outcome into a plain result.
    /// Definitive absence surfaces as a `ServiceError` carrying the
    /// 404 response's body verbatim, never as a `DecodeError`.
    pub fn into_result(self) -> (r: Result<Resource, SyncError>)
        ensures
            self matches GetOutcome::Found(res) ==> r matches Ok(x) && x == res,
            self matches GetOutcome::NotFound(b) ==> r matches Err(e) && e == SyncError::ServiceError(b),
            self matches GetOutcome::OtherError(err) ==> r matches Err(e) && e == err,
    {
        match self {
            GetOutcome::Found(res) => Ok(res),
            GetOutcome::NotFound(b) => Err(SyncError::ServiceError(b)),
            GetOutcome::OtherError(e) => Err(e),
        }
    }
}

/// A stateless client for one collection of resources under a uniform
/// wire convention: list the collection, fetch one record by id,
/// create or replace by presence check, and commit pending changes
/// with an apply call. It holds no resource state of its own; all
/// state lives on the server.
pub struct ResourceSyncClient {
    /// The path segment under which the collection's resources live.
    pub collection: String,
    /// The path segment under which the service's apply endpoint lives.
    pub root: String,
}

impl ResourceSyncClient {
    /// The listing and create path: a leading slash, then the
    /// collection segment.
    pub open spec fn spec_list_path(self) -> Seq<char> {
        "/"@ + self.collection@
    }

    /// The per-id path: the collection path, a slash, then the id.
    pub open spec fn spec_item_path(self, id: Seq<char>) -> Seq<char> {
        "/"@ + self.collection@ + "/"@ + id
    }

    /// The commit path: a leading slash, the root segment, then
    /// the apply suffix.
    pub open spec fn spec_apply_path(self) -> Seq<char> {
        "/"@ + self.root@ + "/apply"@
    }

    /// A client for the given collection segment, committing through
    /// the given root segment.
    pub fn new(collection: String, root: String) -> (r: ResourceSyncClient)
        ensures
            r.collection == collection,
            r.root == root,
    {
        ResourceSyncClient { collection, root }
    }

    fn list_path(&self) -> (r: String)
        ensures
            r@ == self.spec_list_path(),
    {
        String::from_str("/").concat(self.collection.as_str())
    }

    fn item_path(&self, id: &str) -> (r: String)
        ensures
            r@ == self.spec_item_path(id@),
    {
        String::from_str("/").concat(self.collection.as_str()).concat("/").concat(id)
    }

    fn apply_path(&self) -> (r: String)
        ensures
            r@ == self.spec_apply_path(),
    {
        String::from_str("/").concat(self.root.as_str()).concat("/apply")
    }

    /// The request that lists the whole collection.
    pub fn list_request(&self) -> (r: HttpRequest)
        ensures
            r.method == Method::Get,
            r.path@ == self.spec_list_path(),
            r.body is None,
    {
        HttpRequest { method: Method::Get, path: self.list_path(), body: None }
    }

    /// The request that fetches the resource stored under `id`.
    pub fn get_request(&self, id: &str) -> (r: HttpRequest)
        ensures
            r.method == Method::Get,
            r.path@ == self.spec_item_path(id@),
            r.body is None,
    {
        HttpRequest { method: Method::Get, path: self.item_path(id), body: None }
    }

    /// Reads the transport's answer to a list request. A transport
    /// failure and a non-success status are propagated as
    /// `TransportError` and `ServiceError` (with the raw body as
    /// diagnostic text); an undecodable success body is a
    /// `DecodeError`, and a decodable one yields the listed resources
    /// in order, each well formed.
    pub fn list_response(&self, t: TransportOutcome) -> (r: Result<Vec<Resource>, SyncError>)
        ensures
            t matches TransportOutcome::Failed { reason } ==> (r matches Err(e) && e == SyncError::TransportError(reason)),
            t matches TransportOutcome::Delivered { status, body } ==> (!read_ok(status) ==> (r matches Err(e) && e == SyncError::ServiceError(body))),
            t matches TransportOutcome::Delivered { status, body } ==> (read_ok(status) && spec_decode_list(body@) is None ==> (r matches Err(e) && e == SyncError::DecodeError(body))),
            t matches TransportOutcome::Delivered { status, body } ==> (read_ok(status) ==> (spec_decode_list(body@) matches Some(models) ==> (r matches Ok(rs) && rs@.map_values(|x: Resource| x@) == models && (forall|i: int| 0 <= i < rs@.len() ==> (#[trigger] rs@[i]).wf())))),
    {
        match t {
            TransportOutcome::Failed { reason } => Err(SyncError::TransportError(reason)),
            TransportOutcome::Delivered { status, body } => {
                if status != 200 {
                    return Err(SyncError::ServiceError(body));
                }
                match parse_array(body.as_str()) {
                    None => Err(SyncError::DecodeError(body)),
                    Some(vs) => {
                        let ghost items = json_items_of(body@)->0;
                        let mut out: Vec<Resource> = Vec::new();
                        let mut i: usize = 0;
                        while i < vs.len()
                            invariant
                                t == (TransportOutcome::Delivered { status: 200u16, body: body }),
                                json_items_of(body@) == Some(items),
                                items.len() == vs@.len(),
                                forall|k: int| 0 <= k < vs@.len() ==> #[trigger] items[k] == value_text(vs@[k]),
                                0 <= i <= vs.len(),
                                out@.len() == i,
                                forall|k: int| 0 <= k < i ==> #[trigger] spec_decode_item(items[k]) is Some,
                                forall|k: int| 0 <= k < i ==> #[trigger] out@[k]@ == spec_decode_item(items[k])->0,
                                forall|k: int| 0 <= k < i ==> (#[trigger] out@[k]).wf(),
                            decreases vs.len() - i,
                        {
                            let text = value_to_text(&vs[i]);
                            match Resource::from_body(text) {
                                Ok(res) => out.push(res),
                                Err(_) => {
                                    proof {
                                        assert(spec_decode_item(items[i as int]) is None);
                                        assert(spec_decode_list(body@) is None);
                                    }
                                    return Err(SyncError::DecodeError(body));
                                },
                            }
                            i = i + 1;
                        }
                        proof {
                            let models = spec_decode_list(body@)->0;
                            assert(out@.map_values(|x: Resource| x@) =~= models);
                        }
                        Ok(out)
                    },
                }
            },
        }
    }

    /// Reads the transport's answer to a fetch of one resource,
    /// keeping the three states apart: a decodable 200 body is
    /// `Found`, a 404 is definitive absence, and everything else —
    /// transport failure, other non-success status (raw body kept
    /// verbatim), or an undecodable success body — is `OtherError`.
    pub fn get_response(&self, t: TransportOutcome) -> (r: GetOutcome)
        ensures
            t matches TransportOutcome::Failed { reason } ==> (r matches GetOutcome::OtherError(e) && e == SyncError::TransportError(reason)),
            t matches TransportOutcome::Delivered { status, body } ==> (status == 404 ==> r == GetOutcome::NotFound(body)),
            t matches TransportOutcome::Delivered { status, body } ==> (status != 404 && !read_ok(status) ==> (r matches GetOutcome::OtherError(e) && e == SyncError::ServiceError(body))),
            t matches TransportOutcome::Delivered { status, body } ==> (read_ok(status) && spec_decode_item(body@) is None ==> (r matches GetOutcome::OtherError(e) && e == SyncError::DecodeError(body))),
            t matches TransportOutcome::Delivered { status, body } ==> (read_ok(status) ==> (spec_decode_item(body@) matches Some(m) ==> (r matches GetOutcome::Found(res) && res@ == m && res.wf()))),
    {
        match t {
            TransportOutcome::Failed { reason } => GetOutcome::OtherError(SyncError::TransportError(reason)),
            TransportOutcome::Delivered { status, body } => {
                if status == 404 {
                    GetOutcome::NotFound(body)
                } else if status != 200 {
                    GetOutcome::OtherError(SyncError::ServiceError(body))
                } else {
                    match Resource::from_body(body) {
                        Ok(res) => GetOutcome::Found(res),
                        Err(e) => GetOutcome::OtherError(e),
                    }
                }
            },
        }
    }

    /// The first half of an upsert: the existence check, a fetch of
    /// the resource's per-id path.
    pub fn upsert_check_request(&self, resource: &Resource) -> (r: HttpRequest)
        ensures
            r.method == Method::Get,
            r.path@ == self.spec_item_path(resource@.id),
            r.body is None,
    {
        self.get_request(resource.id().as_str())
    }

    /// The decision half of an upsert, once the existence check came
    /// back. A found record selects replace (PUT at the per-id path);
    /// only definitive absence licenses create (POST at the collection
    /// path); any other failure of the check is propagated unchanged,
    /// and no write is attempted on it. Either write carries the full
    /// record text, so the server stores the resource exactly as
    /// given; the id in the path is the resource's own, never another.
    pub fn upsert_write_step(&self, resource: &Resource, check: GetOutcome) -> (r: Result<(HttpRequest, UpsertOutcome), SyncError>)
        ensures
            check matches GetOutcome::Found(_) ==> (r matches Ok(p) && p.1 == UpsertOutcome::Replaced && p.0.method == Method::Put && p.0.path@ == self.spec_item_path(resource@.id) && (p.0.body matches Some(b) && b@ == resource@.body)),
            check matches GetOutcome::NotFound(_) ==> (r matches Ok(p) && p.1 == UpsertOutcome::Created && p.0.method == Method::Post && p.0.path@ == self.spec_list_path() && (p.0.body matches Some(b) && b@ == resource@.body)),
            check matches GetOutcome::OtherError(err) ==> (r matches Err(e) && e == err),
    {
        match check {
            GetOutcome::Found(_) => {
                let req = HttpRequest {
                    method: Method::Put,
                    path: self.item_path(resource.id().as_str()),
                    body: Some(resource.body().clone()),
                };
                Ok((req, UpsertOutcome::Replaced))
            },
            GetOutcome::NotFound(_) => {
                let req = HttpRequest {
                    method: Method::Post,
                    path: self.list_path(),
                    body: Some(resource.body().clone()),
                };
                Ok((req, UpsertOutcome::Created))
            },
            GetOutcome::OtherError(e) => Err(e),
        }
    }

    /// The last half of an upsert: reads the transport's answer to the
    /// write and, on success, reports which branch was taken. Nothing
    /// is swallowed: a failed write surfaces as `TransportError` or as
    /// `ServiceError` with the raw body.
    pub fn upsert_finish(&self, pending: UpsertOutcome, t: TransportOutcome) -> (r: Result<UpsertOutcome, SyncError>)
        ensures
            t matches TransportOutcome::Failed { reason } ==> (r matches Err(e) && e == SyncError::TransportError(reason)),
            t matches TransportOutcome::Delivered { status, body } ==> (!write_ok(status) ==> (r matches Err(e) && e == SyncError::ServiceError(body))),
            t matches TransportOutcome::Delivered { status, .. } ==> (write_ok(status) ==> (r matches Ok(o) && o == pending)),
    {
        match t {
            TransportOutcome::Failed { reason } => Err(SyncError::TransportError(reason)),
            TransportOutcome::Delivered { status, body } => {
                if 200 <= status && status < 300 {
                    Ok(pending)
                } else {
                    Err(SyncError::ServiceError(body))
                }
            },
        }
    }

    /// The request that commits the pending change set accumulated by
    /// earlier writes.
    pub fn apply_request(&self) -> (r: HttpRequest)
        ensures
            r.method == Method::Put,
            r.path@ == self.spec_apply_path(),
            r.body is None,
    {
        HttpRequest { method: Method::Put, path: self.apply_path(), body: None }
    }

    /// Reads the transport's answer to an apply. Success has no
    /// payload; a non-success status surfaces as `ServiceError`
    /// carrying the raw body verbatim.
    pub fn apply_response(&self, t: TransportOutcome) -> (r: Result<(), SyncError>)
        ensures
            t matches TransportOutcome::Failed { reason } ==> (r matches Err(e) && e == SyncError::TransportError(reason)),
            t matches TransportOutcome::Delivered { status, body } ==> (!write_ok(status) ==> (r matches Err(e) && e == SyncError::ServiceError(body))),
            t matches TransportOutcome::Delivered { status, .. } ==> (write_ok(status) ==> r is Ok),
    {
        match t {
            TransportOutcome::Failed { reason } => Err(SyncError::TransportError(reason)),
            TransportOutcome::Delivered { status, body } => {
                if 200 <= status && status < 300 {
                    Ok(())
                } else {
                    Err(SyncError::ServiceError(body))
                }
            },
        }
    }
}

} // verus!
