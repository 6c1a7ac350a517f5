//! What holds of the service across calls: a created link resolves to the
//! canonical target, invalid input leaves the store alone, unknown codes are
//! not found, and a mapping, once made, resolves the same way ever after.

use vstd::prelude::*;
use crate::http::ApiError;
use crate::link::parsed_url;
use crate::service::{create_result, resolve_result, store_after_create};

verus! {

/// A run of creations, each a request body and the code drawn for it.
pub type Requests = Seq<(Seq<char>, Seq<char>)>;

/// The store's contents after the creations of `reqs`, in order, starting
/// from an empty store.
pub open spec fn store_after_all(reqs: Requests) -> Map<Seq<char>, Seq<char>>
    decreases reqs.len(),
{
    if reqs.len() == 0 {
        Map::empty()
    } else {
        store_after_create(store_after_all(reqs.drop_last()), reqs.last().0, reqs.last().1)
    }
}

/// Some creation of `reqs` succeeded and handed out the code `c`.
pub open spec fn returned_by_create(reqs: Requests, c: Seq<char>) -> bool {
    exists|i: int|
        0 <= i < reqs.len() && reqs[i].1 == c && (#[trigger] create_result(
            store_after_all(reqs.take(i)),
            reqs[i].0,
            reqs[i].1,
        )) is Ok
}

/// Creating a link for a valid absolute URL `u` and then resolving the code
/// that the creation returned redirects to the canonical form of `u`.
pub proof fn lemma_created_link_resolves(m: Map<Seq<char>, Seq<char>>, u: Seq<char>, id: Seq<char>)
    requires
        parsed_url(u) is Some,
        create_result(m, u, id) is Ok,
    ensures
        resolve_result(store_after_create(m, u, id), id) == Ok::<Seq<char>, ApiError>(
            parsed_url(u)->0,
        ),
{
}

/// A body that is not an absolute URL is refused with `InvalidInput`, and
/// the store, its number of rows included, is left unchanged.
pub proof fn lemma_invalid_body_rejected(m: Map<Seq<char>, Seq<char>>, s: Seq<char>, id: Seq<char>)
    requires
        parsed_url(s) is None,
    ensures
        create_result(m, s, id) == Err::<Seq<char>, ApiError>(ApiError::InvalidInput),
        store_after_create(m, s, id) == m,
        store_after_create(m, s, id).dom().len() == m.dom().len(),
{
}

/// Every code present after a run of creations was handed out by one of them.
proof fn lemma_present_code_was_returned(reqs: Requests, c: Seq<char>)
    requires
        store_after_all(reqs).contains_key(c),
    ensures
        returned_by_create(reqs, c),
    decreases reqs.len(),
{
    let prev = reqs.drop_last();
    if store_after_all(prev).contains_key(c) {
        lemma_present_code_was_returned(prev, c);
        let i = choose|i: int|
            0 <= i < prev.len() && prev[i].1 == c && (#[trigger] create_result(
                store_after_all(prev.take(i)),
                prev[i].0,
                prev[i].1,
            )) is Ok;
        assert(reqs.take(i) =~= prev.take(i));
        assert(reqs[i] == prev[i]);
    } else {
        let last = reqs.len() - 1;
        assert(reqs.take(last) =~= prev);
        assert(create_result(store_after_all(reqs.take(last)), reqs[last].0, reqs[last].1) is Ok);
    }
}

/// After any run of creations from an empty store, resolving a code that no
/// creation returned reports `NotFound`.
pub proof fn lemma_unreturned_code_not_found(reqs: Requests, c: Seq<char>)
    requires
        !returned_by_create(reqs, c),
    ensures
        resolve_result(store_after_all(reqs), c) == Err::<Seq<char>, ApiError>(ApiError::NotFound),
{
    if store_after_all(reqs).contains_key(c) {
        lemma_present_code_was_returned(reqs, c);
    }
}

/// A creation, whatever its body and code, leaves the resolution of an
/// existing mapping as it was.
pub proof fn lemma_create_keeps_mapping(
    m: Map<Seq<char>, Seq<char>>,
    id: Seq<char>,
    body: Seq<char>,
    code: Seq<char>,
)
    requires
        m.contains_key(id),
    ensures
        resolve_result(store_after_create(m, body, code), id) == resolve_result(m, id),
{
}

/// Once `id` maps to a target, resolving it gives that same target after any
/// further run of creations.
pub proof fn lemma_resolve_stable(reqs: Requests, later: Requests, id: Seq<char>)
    requires
        store_after_all(reqs).contains_key(id),
    ensures
        resolve_result(store_after_all(reqs + later), id) == resolve_result(store_after_all(reqs), id),
        resolve_result(store_after_all(reqs), id) == Ok::<Seq<char>, ApiError>(
            store_after_all(reqs)[id],
        ),
    decreases later.len(),
{
    if later.len() > 0 {
        let shorter = later.drop_last();
        lemma_resolve_stable(reqs, shorter, id);
        assert((reqs + later).drop_last() =~= reqs + shorter);
        let m = store_after_all(reqs + shorter);
        lemma_create_keeps_mapping(m, id, later.last().0, later.last().1);
    }
}

} // verus!
