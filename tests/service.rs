use url_shortener::code::{is_short_code_str, new_code, CODE_LEN};
use url_shortener::http::{ApiError, Response};
use url_shortener::link::canonical_url;
use url_shortener::service::{
    hello_world, prepare_row, redirect_outcome, short_url, shorten_outcome, Shortener,
};
use url_shortener::store::{MemoryStore, StoreError};

const PREFIX: &str = "https://compresseverything.shuttleapp.rs/";

fn code_of(resp: &Response) -> String {
    assert!(resp.body.starts_with(PREFIX));
    resp.body[PREFIX.len()..].to_string()
}

#[test]
fn home_page_greets() {
    let r = hello_world();
    assert_eq!(r.status, 200);
    assert_eq!(r.body, "Hello World!");
    assert!(r.location.is_none());
}

#[test]
fn shorten_then_redirect_example() {
    let mut s = Shortener::new();
    let created = s.shorten("https://example.com/page").unwrap();
    assert_eq!(created.status, 200);
    assert!(created.location.is_none());
    let code = code_of(&created);
    assert_eq!(code.chars().count(), 6);
    assert!(is_short_code_str(&code));
    let found = s.redirect(&code).unwrap();
    assert_eq!(found.status, 302);
    assert_eq!(found.location.as_deref(), Some("https://example.com/page"));
    assert_eq!(found.body, "");
}

#[test]
fn shorten_rejects_non_url() {
    let mut s = Shortener::new();
    let e = s.shorten("not a url").unwrap_err();
    assert_eq!(e, ApiError::InvalidInput);
    assert_eq!(e.status(), 422);
}

#[test]
fn redirect_unknown_code_is_not_found() {
    let s = Shortener::new();
    let e = s.redirect("zzzzzz").unwrap_err();
    assert_eq!(e, ApiError::NotFound);
    assert_eq!(e.status(), 404);
}

#[test]
fn created_link_resolves_to_canonical_form() {
    let mut s = Shortener::new();
    let created = s.shorten("HTTPS://Example.COM").unwrap();
    let code = code_of(&created);
    let found = s.redirect(&code).unwrap();
    assert_eq!(found.location.as_deref(), Some("https://example.com/"));
}

#[test]
fn invalid_body_leaves_store_unchanged() {
    let mut s = Shortener::new();
    let e = s.shorten_with_code("just words", "abc123".to_string()).unwrap_err();
    assert_eq!(e, ApiError::InvalidInput);
    assert_eq!(s.redirect("abc123").unwrap_err(), ApiError::NotFound);
    // the code stays free for a later valid creation
    let ok = s.shorten_with_code("https://a.example/", "abc123".to_string()).unwrap();
    assert_eq!(ok.body, "https://compresseverything.shuttleapp.rs/abc123");
}

#[test]
fn repeated_redirect_gives_same_location() {
    let mut s = Shortener::new();
    s.shorten_with_code("https://rust-lang.org/learn", "r_-9Zq".to_string()).unwrap();
    s.shorten_with_code("https://example.org/", "other1".to_string()).unwrap();
    let a = s.redirect("r_-9Zq").unwrap();
    let b = s.redirect("r_-9Zq").unwrap();
    assert_eq!(a.location, b.location);
    assert_eq!(a.location.as_deref(), Some("https://rust-lang.org/learn"));
}

#[test]
fn taken_code_is_internal_error_and_keeps_first_mapping() {
    let mut s = Shortener::new();
    s.shorten_with_code("https://first.example/", "dup000".to_string()).unwrap();
    let e = s.shorten_with_code("https://second.example/", "dup000".to_string()).unwrap_err();
    assert_eq!(e, ApiError::Internal);
    assert_eq!(e.status(), 500);
    let found = s.redirect("dup000").unwrap();
    assert_eq!(found.location.as_deref(), Some("https://first.example/"));
}

#[test]
fn unreturned_code_after_creations_is_not_found() {
    let mut s = Shortener::new();
    s.shorten_with_code("https://one.example/", "aaaaaa".to_string()).unwrap();
    s.shorten_with_code("nope", "bbbbbb".to_string()).unwrap_err();
    assert_eq!(s.redirect("bbbbbb").unwrap_err(), ApiError::NotFound);
    assert_eq!(s.redirect("aaaaa").unwrap_err(), ApiError::NotFound);
    assert_eq!(s.redirect("").unwrap_err(), ApiError::NotFound);
}

#[test]
fn new_codes_are_six_safe_characters() {
    for _ in 0..200 {
        let c = new_code();
        assert_eq!(c.chars().count(), CODE_LEN);
        assert!(c
            .chars()
            .all(|ch| ch == '_' || ch == '-' || ch.is_ascii_alphanumeric()));
        assert!(is_short_code_str(&c));
    }
}

#[test]
fn short_code_check() {
    assert!(is_short_code_str("aZ09_-"));
    assert!(!is_short_code_str("aZ09_"));
    assert!(!is_short_code_str("aZ09_-x"));
    assert!(!is_short_code_str("aZ09_."));
    assert!(!is_short_code_str("ab/cde"));
    assert!(!is_short_code_str("abcdeé"));
    assert!(!is_short_code_str(""));
}

#[test]
fn canonical_url_normalises_and_rejects() {
    assert_eq!(canonical_url("HTTP://EXAMPLE.com").as_deref(), Some("http://example.com/"));
    assert_eq!(
        canonical_url("https://example.com/page").as_deref(),
        Some("https://example.com/page")
    );
    assert_eq!(canonical_url("not a url"), None);
    assert_eq!(canonical_url("/relative/path"), None);
    assert_eq!(canonical_url(""), None);
}

#[test]
fn prepare_row_uses_canonical_url() {
    let row = prepare_row("https://Example.com", "xyz789".to_string()).unwrap();
    assert_eq!(row.id, "xyz789");
    assert_eq!(row.url, "https://example.com/");
    assert_eq!(
        prepare_row("example.com", "xyz789".to_string()).unwrap_err(),
        ApiError::InvalidInput
    );
}

#[test]
fn outcomes_map_store_results() {
    let ok = shorten_outcome("abcdef", Ok(())).unwrap();
    assert_eq!(ok.status, 200);
    assert_eq!(ok.body, "https://compresseverything.shuttleapp.rs/abcdef");
    assert_eq!(
        shorten_outcome("abcdef", Err(StoreError::UniqueViolation)).unwrap_err(),
        ApiError::Internal
    );
    assert_eq!(shorten_outcome("abcdef", Err(StoreError::Other)).unwrap_err(), ApiError::Internal);
    let found = redirect_outcome(Ok("https://x.example/".to_string())).unwrap();
    assert_eq!(found.status, 302);
    assert_eq!(found.location.as_deref(), Some("https://x.example/"));
    assert_eq!(redirect_outcome(Err(StoreError::RowNotFound)).unwrap_err(), ApiError::NotFound);
    assert_eq!(redirect_outcome(Err(StoreError::Other)).unwrap_err(), ApiError::Internal);
    assert_eq!(short_url("q"), "https://compresseverything.shuttleapp.rs/q");
}

#[test]
fn error_status_and_messages() {
    assert_eq!(ApiError::InvalidInput.status(), 422);
    assert_eq!(ApiError::NotFound.status(), 404);
    assert_eq!(ApiError::Internal.status(), 500);
    assert_eq!(ApiError::InvalidInput.message(), "Invalid URL");
    assert_eq!(ApiError::NotFound.message(), "URL not found");
    assert_eq!(ApiError::Internal.message(), "Database error");
}

#[test]
fn memory_store_insert_and_fetch() {
    let mut m = MemoryStore::new();
    assert_eq!(m.fetch("k00001").unwrap_err(), StoreError::RowNotFound);
    assert!(m.insert("k00001".to_string(), "https://a.example/".to_string()).is_ok());
    assert_eq!(
        m.insert("k00001".to_string(), "https://b.example/".to_string()).unwrap_err(),
        StoreError::UniqueViolation
    );
    assert!(m.insert("k00002".to_string(), "https://c.example/".to_string()).is_ok());
    assert_eq!(m.fetch("k00001").unwrap(), "https://a.example/");
    assert_eq!(m.fetch("k00002").unwrap(), "https://c.example/");
    assert_eq!(m.fetch("k0000").unwrap_err(), StoreError::RowNotFound);
}
