//! The request-dispatch layer.
//!
//! A dispatch for a request identity has two halves.  The lookup half asks
//! the shared cache for a stored body; `None` means the caller must perform
//! the one HTTP exchange for this identity.  The completion half takes the
//! status code and body that came back, classifies the status against the
//! fixed table, stores the body on success — and only then — and hands the
//! body on for decoding.  The dispatch layer itself performs no I/O.

use crate::cache::{cache_lookup, CacheStore, SharedCache};
use crate::constants::Region;
use crate::error::{classified_error, ClientError};
use vstd::prelude::*;

verus! {

/// The cache contents after a response for `url` was handled: unchanged on
/// a classified error, and extended by the body on success (an entry that
/// is already present stays).
pub open spec fn cache_after_response(
    m: Map<Seq<char>, Seq<char>>,
    url: Seq<char>,
    code: u16,
    body: Seq<char>,
    region: Region,
) -> Map<Seq<char>, Seq<char>> {
    if classified_error(code, region) is None {
        if m.contains_key(url) {
            m
        } else {
            m.insert(url, body)
        }
    } else {
        m
    }
}

/// Completion of a dispatch on a plain store: classifies the status code,
/// stores the body on success and not on a classified error, and returns
/// the body exactly when the status classifies as success.
pub fn complete_on(
    cache: &mut CacheStore,
    url: &str,
    region: Region,
    code: u16,
    body: String,
) -> (r: Result<String, ClientError>)
    requires
        old(cache).wf(),
    ensures
        final(cache).wf(),
        final(cache)@ == cache_after_response(old(cache)@, url@, code, body@, region),
        r is Ok <==> classified_error(code, region) is None,
        r matches Ok(b) ==> b@ == body@,
        r matches Err(e) ==> classified_error(code, region) == Some(e),
{
    match ClientError::check_status(region, code) {
        Ok(()) => {
            let returned = body.clone();
            cache.insert(url.to_owned(), body);
            Ok(returned)
        },
        Err(e) => Err(e),
    }
}

/// Completion of a dispatch on the shared cache: runs [`complete_on`]
/// against the storage with the lock held for that one operation, never
/// across any network exchange.
pub fn complete(cache: &SharedCache, url: &str, region: Region, code: u16, body: String) -> (r:
    Result<String, ClientError>)
    ensures
        r is Ok <==> classified_error(code, region) is None,
        r matches Ok(b) ==> b@ == body@,
        r matches Err(e) ==> classified_error(code, region) == Some(e),
{
    let lock = cache.lock();
    let (mut store, handle) = lock.acquire_write();
    let r = complete_on(&mut store, url, region, code, body);
    handle.release_write(store);
    r
}

/// Whether a text parses as JSON.  This is a function of the text alone.
pub uninterp spec fn json_parses(s: Seq<char>) -> bool;

/// The JSON document a text parses to, when it parses at all.  The parse
/// is deterministic, so this too is a function of the text alone.
pub uninterp spec fn json_doc_of(s: Seq<char>) -> serde_json::Value;

/// Relies on serde_json::from_str::<serde_json::Value>: whether the parse
/// succeeds, and which document it yields, depend on the text alone.
#[verifier::external_body]
fn parse_json(s: &str) -> (r: Result<serde_json::Value, serde_json::Error>)
    ensures
        r is Ok <==> json_parses(s@),
        r matches Ok(v) ==> v == json_doc_of(s@),
{
    serde_json::from_str(s)
}

/// The JSON parse error of the decoder, declared so that the parse result
/// can pass through verified code.
#[verifier::external_type_specification]
#[verifier::external_body]
pub struct ExJsonError(serde_json::Error);

/// The parsed JSON document the decoder yields, declared so that it can
/// pass through verified code.
#[verifier::external_type_specification]
#[verifier::external_body]
pub struct ExJsonValue(serde_json::Value);

/// Decodes a response body — fresh from the network or served from the
/// cache — into a JSON document, mapping a parse failure to the library's
/// decoding error.  Decoding is a function of the body alone, so the same
/// stored body decodes the same way on every dispatch that hits it.
pub fn decode_payload(body: &str) -> (r: Result<serde_json::Value, ClientError>)
    ensures
        r is Ok <==> json_parses(body@),
        r matches Ok(v) ==> v == json_doc_of(body@),
        r matches Err(e) ==> e == ClientError::Decode,
{
    match parse_json(body) {
        Ok(v) => Ok(v),
        Err(_) => Err(ClientError::Decode),
    }
}

/// Whether a text parses as a URL, so that it can serve as a request
/// identity.  This is a function of the text alone.
pub uninterp spec fn url_parses(s: Seq<char>) -> bool;

/// Relies on url::Url::parse (through reqwest's re-export): whether a text
/// parses as a URL depends on the text alone.
#[verifier::external_body]
fn parse_url(s: &str) -> (r: bool)
    ensures
        r == url_parses(s@),
{
    reqwest::Url::parse(s).is_ok()
}

/// Validates a request identity before any network call: the
/// URL-formation error exactly for an identity that does not parse as a
/// URL.
pub fn check_identity(url: &str) -> (r: Result<(), ClientError>)
    ensures
        r is Ok <==> url_parses(url@),
        r matches Err(e) ==> e == ClientError::UrlNotParsed,
{
    if parse_url(url) {
        Ok(())
    } else {
        Err(ClientError::UrlNotParsed)
    }
}

/// A dispatch for an identity never fetched before must go to the network
/// — the cache lookup yields nothing — and its successful response writes
/// the store exactly once: afterwards the identity maps to the fetched
/// body, every other identity is untouched, and later lookups are served
/// from the store.
pub proof fn law_fresh_dispatch_fetches_once(
    m: Map<Seq<char>, Seq<char>>,
    url: Seq<char>,
    code: u16,
    body: Seq<char>,
    region: Region,
)
    requires
        !m.contains_key(url),
        classified_error(code, region) is None,
    ensures
        cache_lookup(m, url) is None,
        cache_after_response(m, url, code, body, region) == m.insert(url, body),
        cache_lookup(cache_after_response(m, url, code, body, region), url) == Some(body),
        forall|k: Seq<char>|
            k != url ==> cache_after_response(m, url, code, body, region).contains_key(k)
                == m.contains_key(k),
        forall|k: Seq<char>|
            k != url && m.contains_key(k) ==> cache_after_response(m, url, code, body, region)[k]
                == m[k],
{
}

/// A dispatch for an identity already in the store needs no network
/// exchange: the lookup returns exactly the stored body, and a repeated
/// dispatch sees the same store and the same body, so its decoded value
/// is the same as well.
pub proof fn law_cached_dispatch_serves_store(m: Map<Seq<char>, Seq<char>>, url: Seq<char>)
    requires
        m.contains_key(url),
    ensures
        cache_lookup(m, url) == Some(m[url]),
{
}

/// A classified error leaves the store exactly as it was: failed responses
/// are never cached.
pub proof fn law_error_not_cached(
    m: Map<Seq<char>, Seq<char>>,
    url: Seq<char>,
    code: u16,
    body: Seq<char>,
    region: Region,
)
    requires
        classified_error(code, region) is Some,
    ensures
        cache_after_response(m, url, code, body, region) == m,
{
}

/// Dispatches for two distinct identities do not contaminate one another:
/// once both bodies are stored, each identity is served its own body,
/// whichever order the two writes happened in.
pub proof fn law_distinct_identities_independent(
    m: Map<Seq<char>, Seq<char>>,
    u1: Seq<char>,
    u2: Seq<char>,
    b1: Seq<char>,
    b2: Seq<char>,
)
    requires
        u1 != u2,
    ensures
        cache_lookup(m.insert(u1, b1).insert(u2, b2), u1) == Some(b1),
        cache_lookup(m.insert(u1, b1).insert(u2, b2), u2) == Some(b2),
        cache_lookup(m.insert(u2, b2).insert(u1, b1), u1) == Some(b1),
        cache_lookup(m.insert(u2, b2).insert(u1, b1), u2) == Some(b2),
{
}

} // verus!
