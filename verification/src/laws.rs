//! The library-side halves of the client's round-trip guarantees,
//! proved once over the decoding model. The server's half — that it
//! stores a written record text verbatim and serves it back — is the
//! wire convention's contract, outside any client's reach.

use vstd::prelude::*;
use crate::codec::json_items_of;
use crate::resource::ResourceModel;
use crate::resource::spec_decode_item;
use crate::resource::spec_decode_list;

verus! {

/// A well-formed resource decodes back from its own record text: when
/// the create branch of an upsert stores the record's full text and
/// the service later serves that text with status 200, the fetched
/// resource equals the one that was upserted.
pub proof fn lemma_stored_body_round_trips(m: ResourceModel)
    ensures
        m.wf() ==> spec_decode_item(m.body) == Some(m),
{
}

/// A replace supersedes the old record: the stored text is the new
/// record's, decoding it yields the new resource, and never the old
/// one while their texts differ.
pub proof fn lemma_replace_supersedes(prev: ResourceModel, next: ResourceModel)
    ensures
        next.wf() ==> spec_decode_item(next.body) == Some(next),
        next.wf() && prev.body != next.body ==> spec_decode_item(next.body) != Some(prev),
{
}

/// Every element of a decoded collection listing is individually
/// retrievable: the element's own record text decodes back to an
/// equal, well-formed resource.
pub proof fn lemma_list_elements_round_trip(s: Seq<char>)
    ensures
        spec_decode_list(s) matches Some(models) ==> (forall|i: int|
            0 <= i < models.len() ==> #[trigger] spec_decode_item(models[i].body) == Some(models[i])
                && models[i].wf()),
{
    if spec_decode_list(s) is Some {
        let models = spec_decode_list(s)->0;
        let items = json_items_of(s)->0;
        assert forall|i: int| 0 <= i < models.len() implies #[trigger] spec_decode_item(
            models[i].body,
        ) == Some(models[i]) && models[i].wf() by {
            assert(spec_decode_item(items[i]) is Some);
            assert(models[i] == spec_decode_item(items[i])->0);
        }
    }
}

} // verus!
