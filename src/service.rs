//! The three operations of the shortener: the greeting page, creating a
//! short link and resolving one. Each operation's decision is a function of
//! plain values, so that a server can run it around its own store calls; a
//! `Shortener` runs them against a `MemoryStore`.

use vstd::prelude::*;
use crate::code::{is_short_code, new_code};
use crate::http::{is_found, is_ok_text, ApiError, Response};
use crate::link::{canonical_url, parsed_url};
use crate::store::{MemoryStore, Row, StoreError};

verus! {

/// The prefix that turns a short code into a full short URL.
pub open spec fn base_prefix() -> Seq<char> {
    "https://compresseverything.shuttleapp.rs/"@
}

/// The body of the greeting page.
pub open spec fn greeting() -> Seq<char> {
    "Hello World!"@
}

/// The short URL of the code `id`.
pub open spec fn short_link(id: Seq<char>) -> Seq<char> {
    base_prefix() + id
}

/// What creating a link for `body` under the code `id` reports, on a store
/// holding `m`: the short URL, or the kind of failure.
pub open spec fn create_result(m: Map<Seq<char>, Seq<char>>, body: Seq<char>, id: Seq<char>) -> Result<
    Seq<char>,
    ApiError,
> {
    match parsed_url(body) {
        None => Err(ApiError::InvalidInput),
        Some(_) => if m.contains_key(id) {
            Err(ApiError::Internal)
        } else {
            Ok(short_link(id))
        },
    }
}

/// The store's contents after creating a link for `body` under `id`: one
/// more mapping, to the canonical URL, exactly when the creation succeeds.
pub open spec fn store_after_create(
    m: Map<Seq<char>, Seq<char>>,
    body: Seq<char>,
    id: Seq<char>,
) -> Map<Seq<char>, Seq<char>> {
    match parsed_url(body) {
        Some(u) => if m.contains_key(id) {
            m
        } else {
            m.insert(id, u)
        },
        None => m,
    }
}

/// What resolving `id` reports on a store holding `m`: the stored target,
/// or `NotFound`.
pub open spec fn resolve_result(m: Map<Seq<char>, Seq<char>>, id: Seq<char>) -> Result<
    Seq<char>,
    ApiError,
> {
    if m.contains_key(id) {
        Ok(m[id])
    } else {
        Err(ApiError::NotFound)
    }
}

/// `r` is the HTTP form of a creation that reported `e`: 200 with the short
/// URL as text, or the same error.
pub open spec fn create_answer(r: Result<Response, ApiError>, e: Result<Seq<char>, ApiError>) -> bool {
    match (r, e) {
        (Ok(resp), Ok(link)) => is_ok_text(resp, link),
        (Err(a), Err(b)) => a == b,
        _ => false,
    }
}

/// `r` is the HTTP form of a resolution that reported `e`: 302 to the
/// target, or the same error.
pub open spec fn resolve_answer(r: Result<Response, ApiError>, e: Result<Seq<char>, ApiError>) -> bool {
    match (r, e) {
        (Ok(resp), Ok(target)) => is_found(resp, target),
        (Err(a), Err(b)) => a == b,
        _ => false,
    }
}

/// The greeting page: 200 with `Hello World!`.
pub fn hello_world() -> (r: Response)
    ensures
        is_ok_text(r, greeting()),
{
    Response::ok_text(String::from_str("Hello World!"))
}

/// The full short URL of the code `id`.
pub fn short_url(id: &str) -> (r: String)
    ensures
        r@ == short_link(id@),
{
    String::from_str("https://compresseverything.shuttleapp.rs/").concat(id)
}

/// The row to insert for a request body `body` and a drawn code `id`:
/// `InvalidInput` where the body is not an absolute URL, else the code with
/// the canonical form of the URL.
pub fn prepare_row(body: &str, id: String) -> (r: Result<Row, ApiError>)
    ensures
        parsed_url(body@) is None ==> r == Err::<Row, ApiError>(ApiError::InvalidInput),
        parsed_url(body@) is Some ==> r is Ok && r->Ok_0.id@ == id@ && r->Ok_0.url@
            == parsed_url(body@)->0,
{
    match canonical_url(body) {
        Some(url) => Ok(Row { id, url }),
        None => Err(ApiError::InvalidInput),
    }
}

/// The answer to a creation once the insert of the code `id` has reported
/// `inserted`: the short URL, or `Internal` for any store failure.
pub fn shorten_outcome(id: &str, inserted: Result<(), StoreError>) -> (r: Result<Response, ApiError>)
    ensures
        inserted is Ok ==> r is Ok && is_ok_text(r->Ok_0, short_link(id@)),
        inserted is Err ==> r == Err::<Response, ApiError>(ApiError::Internal),
{
    match inserted {
        Ok(()) => Ok(Response::ok_text(short_url(id))),
        Err(_) => Err(ApiError::Internal),
    }
}

/// The answer to a resolution once the lookup has reported `found`: a
/// redirect to the target, `NotFound` where no row matched, `Internal` for
/// any other store failure.
pub fn redirect_outcome(found: Result<String, StoreError>) -> (r: Result<Response, ApiError>)
    ensures
        found is Ok ==> r is Ok && is_found(r->Ok_0, found->Ok_0@),
        found == Err::<String, StoreError>(StoreError::RowNotFound) ==> r == Err::<
            Response,
            ApiError,
        >(ApiError::NotFound),
        found is Err && found != Err::<String, StoreError>(StoreError::RowNotFound) ==> r == Err::<
            Response,
            ApiError,
        >(ApiError::Internal),
{
    match found {
        Ok(target) => Ok(Response::found(target)),
        Err(StoreError::RowNotFound) => Err(ApiError::NotFound),
        Err(_) => Err(ApiError::Internal),
    }
}

/// The shortener service over an in-memory store; its view is the store's.
pub struct Shortener {
    store: MemoryStore,
}

impl View for Shortener {
    type V = Map<Seq<char>, Seq<char>>;

    closed spec fn view(&self) -> Self::V {
        self.store@
    }
}

impl Shortener {
    pub closed spec fn wf(&self) -> bool {
        self.store.wf()
    }

    /// A service with no mappings.
    pub fn new() -> (r: Shortener)
        ensures
            r.wf(),
            r@ == Map::<Seq<char>, Seq<char>>::empty(),
    {
        Shortener { store: MemoryStore::new() }
    }

    /// Creates a link for `body` under the given code `id`.
    pub fn shorten_with_code(&mut self, body: &str, id: String) -> (r: Result<Response, ApiError>)
        requires
            old(self).wf(),
        ensures
            final(self).wf(),
            final(self)@ == store_after_create(old(self)@, body@, id@),
            create_answer(r, create_result(old(self)@, body@, id@)),
    {
        let link_id = id.clone();
        match prepare_row(body, id) {
            Err(e) => Err(e),
            Ok(row) => {
                let inserted = self.store.insert(row.id, row.url);
                shorten_outcome(link_id.as_str(), inserted)
            },
        }
    }

    /// Creates a link for `body` under a freshly drawn random code. No second
    /// code is drawn where the first is taken.
    pub fn shorten(&mut self, body: &str) -> (r: Result<Response, ApiError>)
        requires
            old(self).wf(),
        ensures
            final(self).wf(),
            exists|id: Seq<char>|
                is_short_code(id) && final(self)@ == store_after_create(old(self)@, body@, id)
                    && create_answer(r, #[trigger] create_result(old(self)@, body@, id)),
    {
        let id = new_code();
        let r = self.shorten_with_code(body, id);
        r
    }

    /// Resolves the code `id`: a redirect to its target, or `NotFound`.
    pub fn redirect(&self, id: &str) -> (r: Result<Response, ApiError>)
        requires
            self.wf(),
        ensures
            resolve_answer(r, resolve_result(self@, id@)),
    {
        redirect_outcome(self.store.fetch(id))
    }
}

} // verus!
