//! The mapping store: what a lookup or an insert can report, and an
//! in-memory store that keeps the short-code primary key unique.

use vstd::prelude::*;

verus! {

/// What a store call can fail with.
#[derive(Clone, Copy, Debug, PartialEq, Eq, Structural)]
pub enum StoreError {
    /// A lookup matched no row.
    RowNotFound,
    /// An insert would repeat an existing primary key.
    UniqueViolation,
    /// Any other failure of the store.
    Other,
}

/// One persisted mapping from a short code to its target URL.
#[derive(Debug)]
pub struct Row {
    pub id: String,
    pub url: String,
}

/// A store held in memory. Its contents, as a map from code to target, are
/// its view; no code appears in two rows.
pub struct MemoryStore {
    rows: Vec<Row>,
    contents: Ghost<Map<Seq<char>, Seq<char>>>,
}

impl View for MemoryStore {
    type V = Map<Seq<char>, Seq<char>>;

    closed spec fn view(&self) -> Self::V {
        self.contents@
    }
}

impl MemoryStore {
    /// The rows and the map agree, and no two rows share a code.
    pub closed spec fn wf(&self) -> bool {
        &&& forall|i: int|
            0 <= i < self.rows@.len() ==> self.contents@.contains_key(
                #[trigger] self.rows@[i].id@,
            ) && self.contents@[self.rows@[i].id@] == self.rows@[i].url@
        &&& forall|k: Seq<char>|
            #[trigger] self.contents@.contains_key(k) ==> exists|i: int|
                0 <= i < self.rows@.len() && #[trigger] self.rows@[i].id@ == k
        &&& forall|i: int, j: int|
            0 <= i < self.rows@.len() && 0 <= j < self.rows@.len() && i != j
                ==> #[trigger] self.rows@[i].id@ != #[trigger] self.rows@[j].id@
    }

    /// An empty store.
    pub fn new() -> (r: MemoryStore)
        ensures
            r.wf(),
            r@ == Map::<Seq<char>, Seq<char>>::empty(),
    {
        MemoryStore { rows: Vec::new(), contents: Ghost(Map::empty()) }
    }

    /// The index of the row whose code is `id`, if there is one.
    fn position(&self, id: &str) -> (r: Option<usize>)
        requires
            self.wf(),
        ensures
            r is None <==> !self@.contains_key(id@),
            r is Some ==> r->0 < self.rows@.len() && self.rows@[r->0 as int].id@ == id@,
    {
        let mut i: usize = 0;
        while i < self.rows.len()
            invariant
                self.wf(),
                i <= self.rows@.len(),
                forall|j: int| 0 <= j < i ==> #[trigger] self.rows@[j].id@ != id@,
            decreases self.rows@.len() - i,
        {
            if self.rows[i].id.as_str().unicode_len() == id.unicode_len() && str_eq(
                self.rows[i].id.as_str(),
                id,
            ) {
                return Some(i);
            }
            i = i + 1;
        }
        None
    }

    /// The target stored under `id`; `RowNotFound` where there is none.
    pub fn fetch(&self, id: &str) -> (r: Result<String, StoreError>)
        requires
            self.wf(),
        ensures
            self@.contains_key(id@) ==> r is Ok && r->Ok_0@ == self@[id@],
            !self@.contains_key(id@) ==> r == Err::<String, StoreError>(StoreError::RowNotFound),
    {
        match self.position(id) {
            Some(i) => Ok(self.rows[i].url.clone()),
            None => Err(StoreError::RowNotFound),
        }
    }

    /// Adds the mapping `id -> url`; refused with `UniqueViolation`, and the
    /// store left as it was, where `id` is already present.
    pub fn insert(&mut self, id: String, url: String) -> (r: Result<(), StoreError>)
        requires
            old(self).wf(),
        ensures
            final(self).wf(),
            old(self)@.contains_key(id@) ==> r == Err::<(), StoreError>(StoreError::UniqueViolation)
                && final(self)@ == old(self)@,
            !old(self)@.contains_key(id@) ==> r is Ok && final(self)@ == old(self)@.insert(
                id@,
                url@,
            ),
    {
        match self.position(id.as_str()) {
            Some(_) => Err(StoreError::UniqueViolation),
            None => {
                let ghost k = id@;
                let ghost v = url@;
                let ghost prev = self.rows@;
                self.rows.push(Row { id, url });
                self.contents = Ghost(self.contents@.insert(k, v));
                assert forall|key: Seq<char>| #[trigger]
                    self.contents@.contains_key(key) implies exists|i: int|
                    0 <= i < self.rows@.len() && #[trigger] self.rows@[i].id@ == key by {
                    if key != k {
                        let i = choose|i: int| 0 <= i < prev.len() && #[trigger] prev[i].id@ == key;
                        assert(self.rows@[i] == prev[i]);
                    } else {
                        assert(self.rows@[prev.len() as int].id@ == key);
                    }
                }
                Ok(())
            },
        }
    }
}

/// Whether two strings of equal length hold the same characters.
fn str_eq(a: &str, b: &str) -> (r: bool)
    requires
        a@.len() == b@.len(),
    ensures
        r == (a@ == b@),
{
    let n = a.unicode_len();
    let mut i: usize = 0;
    while i < n
        invariant
            n == a@.len(),
            n == b@.len(),
            i <= n,
            forall|j: int| 0 <= j < i ==> a@[j] == b@[j],
        decreases n - i,
    {
        if a.get_char(i) != b.get_char(i) {
            return false;
        }
        i = i + 1;
    }
    assert(a@ =~= b@);
    true
}

} // verus!
