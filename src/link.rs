//! Parsing a candidate target into its canonical absolute-URL form.

use vstd::prelude::*;

verus! {

/// What the standard URL parser makes of `s`: `None` where `s` is not an
/// absolute URL, else the URL's canonical serialisation.
pub uninterp spec fn parsed_url(s: Seq<char>) -> Option<Seq<char>>;

/// Relies on url::Url::parse and on `From<Url> for String`, which hands back
/// the URL's serialisation: the outcome depends on the input text alone.
#[verifier::external_body]
fn parse_absolute(s: &str) -> (r: Option<String>)
    ensures
        match (r, parsed_url(s@)) {
            (None, None) => true,
            (Some(u), Some(v)) => u@ == v,
            _ => false,
        },
{
    match url::Url::parse(s) {
        Ok(u) => Some(String::from(u)),
        Err(_) => None,
    }
}

/// The canonical form of `s` as an absolute URL, or `None` where `s` is not one.
pub fn canonical_url(s: &str) -> (r: Option<String>)
    ensures
        r is None <==> parsed_url(s@) is None,
        r is Some ==> r->0@ == parsed_url(s@)->0,
{
    parse_absolute(s)
}

} // verus!
