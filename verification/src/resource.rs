//! Resources: identified, serializable records managed by the remote
//! service, carried by the core as their complete JSON text.

use vstd::prelude::*;
use crate::codec::extract_id;
use crate::codec::json_id_of;
use crate::codec::json_items_of;
use crate::errors::SyncError;

verus! {

/// The mathematical model of a resource: its id and the JSON text of
/// the whole record.
pub ghost struct ResourceModel {
    pub id: Seq<char>,
    pub body: Seq<char>,
}

impl ResourceModel {
    /// Well-formedness: the stored id is exactly the id the JSON text
    /// carries, so re-decoding the text always reproduces the resource.
    pub open spec fn wf(self) -> bool {
        json_id_of(self.body) == Some(self.id)
    }
}

/// What decoding the JSON text of a single record gives: the record's
/// id read out of the text, with the text itself kept as the opaque
/// payload; nothing when the text has no string "id" member.
pub open spec fn spec_decode_item(s: Seq<char>) -> Option<ResourceModel> {
    match json_id_of(s) {
        Some(id) => Some(ResourceModel { id: id, body: s }),
        None => None,
    }
}

/// What decoding the JSON text of a whole collection listing gives:
/// each array element decoded as one record, in order; nothing when
/// the text is not a JSON array or some element carries no id.
pub open spec fn spec_decode_list(s: Seq<char>) -> Option<Seq<ResourceModel>> {
    match json_items_of(s) {
        Some(items) => if forall|i: int|
            0 <= i < items.len() ==> #[trigger] spec_decode_item(items[i]) is Some {
            Some(Seq::new(items.len(), |i: int| spec_decode_item(items[i])->0))
        } else {
            None
        },
        None => None,
    }
}

/// An identified, serializable record. The record travels as its
/// complete JSON text (`body`); the core reads nothing of it but the
/// id, which names the record in its collection. Construction goes
/// through `from_body`, so every resource the library hands out is
/// well formed; the id is read from the text once and never mutated.
pub struct Resource {
    id: String,
    body: String,
}

impl View for Resource {
    type V = ResourceModel;

    closed spec fn view(&self) -> ResourceModel {
        ResourceModel { id: self.id@, body: self.body@ }
    }
}

impl Resource {
    /// Every resource this library builds satisfies the model's
    /// well-formedness.
    pub open spec fn wf(self) -> bool {
        self@.wf()
    }

    /// Builds a resource from the JSON text of a record. Succeeds
    /// exactly when the text is a JSON object whose "id" member is a
    /// string, and reads the resource's id from the text; any other
    /// text is rejected as a `DecodeError` carrying the text itself.
    pub fn from_body(body: String) -> (r: Result<Resource, SyncError>)
        ensures
            r is Ok <==> json_id_of(body@) is Some,
            r matches Ok(res) ==> Some(res@) == spec_decode_item(body@) && res.wf(),
            r matches Err(e) ==> e == SyncError::DecodeError(body),
    {
        match extract_id(body.as_str()) {
            Some(id) => Ok(Resource { id, body }),
            None => Err(SyncError::DecodeError(body)),
        }
    }

    /// The id under which the record lives in its collection.
    pub fn id(&self) -> (r: &String)
        ensures
            r@ == self@.id,
    {
        &self.id
    }

    /// The complete JSON text of the record.
    pub fn body(&self) -> (r: &String)
        ensures
            r@ == self@.body,
    {
        &self.body
    }
}

} // verus!
