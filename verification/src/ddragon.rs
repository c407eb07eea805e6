//! The static-data facade: builds the request identities of the versioned
//! data-distribution service and extracts single champions from an
//! already-decoded bulk payload.  When embedded in a platform client it
//! shares that client's response cache, so a bulk payload fetched through
//! either facade is fetched once.

use crate::cache::SharedCache;
use crate::constants::Region;
use crate::dispatch::decode_payload;
use crate::error::{classified_error, ClientError};
use vstd::prelude::*;

verus! {

/// The base URL every static-data endpoint is derived from, fixed by the
/// data version and the language the client was constructed with.
pub open spec fn ddragon_base_url(version: Seq<char>, locale: Seq<char>) -> Seq<char> {
    "http://ddragon.leagueoflegends.com/cdn/"@ + version + "/data/"@ + locale
}

/// The facade for the static-data distribution service.  The caller
/// obtains the data version from the service's version listing and hands
/// it to the constructor; the cache handle decides which storage this
/// facade shares.
pub struct DDragonClient {
    version: String,
    base_url: String,
    cache: SharedCache,
}

impl DDragonClient {
    /// The data version this client was constructed with.
    pub closed spec fn version_view(&self) -> Seq<char> {
        self.version@
    }

    /// The base URL this client derives every endpoint URL from.
    pub closed spec fn base_url_view(&self) -> Seq<char> {
        self.base_url@
    }

    /// Constructs a static-data facade for one data version and language,
    /// reading and writing the storage behind the given cache handle.
    pub fn new(version: String, language: crate::constants::LanguageCode, cache: SharedCache) -> (r:
        DDragonClient)
        ensures
            r.version_view() == version@,
            r.base_url_view() == ddragon_base_url(version@, language.locale_code()),
    {
        let mut base_url = String::new();
        base_url.append("http://ddragon.leagueoflegends.com/cdn/");
        base_url.append(version.as_str());
        base_url.append("/data/");
        base_url.append(language.as_locale_str());
        DDragonClient { version, base_url, cache }
    }

    /// A new handle to this facade's shared cache.
    pub fn cache_handle(&self) -> SharedCache {
        self.cache.clone_handle()
    }

    /// The request identity for the bulk champion listing.
    pub fn champions_url(&self) -> (r: String)
        ensures
            r@ == self.base_url_view() + "/champion.json"@,
    {
        let mut url = self.base_url.clone();
        url.append("/champion.json");
        url
    }

    /// The request identity for the full data of one champion.
    pub fn champion_url(&self, name: &str) -> (r: String)
        ensures
            r@ == self.base_url_view() + "/champion/"@ + name@ + ".json"@,
    {
        let mut url = self.base_url.clone();
        url.append("/champion/");
        url.append(name);
        url.append(".json");
        url
    }

    /// The lookup half of a dispatch through this facade: the raw body
    /// stored for the request identity, or `None` when the caller must
    /// perform the one HTTP exchange for it.
    pub fn dispatch_lookup(&self, url: &str) -> Option<String> {
        self.cache.get(url)
    }

    /// The completion half of a dispatch through this facade: classifies
    /// the status code, stores the body on success and never on a
    /// classified error, and returns the body for decoding exactly on
    /// success.  The static-data service is not bound to a region, so a
    /// service-unavailable outcome reports the default region.
    pub fn dispatch_complete(&self, url: &str, code: u16, body: String) -> (r: Result<
        String,
        ClientError,
    >)
        ensures
            r is Ok <==> classified_error(code, Region::NA) is None,
            r matches Ok(b) ==> b@ == body@,
            r matches Err(e) ==> classified_error(code, Region::NA) == Some(e),
    {
        crate::dispatch::complete(&self.cache, url, Region::default(), code, body)
    }
}

/// Whether a JSON document is an object with a member under a key.  The
/// lookup is deterministic, so this is a function of document and key
/// alone.
pub uninterp spec fn json_has_member(v: serde_json::Value, key: Seq<char>) -> bool;

/// The member a JSON document holds under a key, when it holds one at
/// all.  A function of document and key alone, like [`json_has_member`].
pub uninterp spec fn json_member_val(v: serde_json::Value, key: Seq<char>) -> serde_json::Value;

/// Relies on serde_json::Value::get with a string index: the member of a
/// JSON object under that key, `None` exactly when the document is no
/// object or has no such member.
#[verifier::external_body]
fn json_member(v: &serde_json::Value, key: &str) -> (r: Option<serde_json::Value>)
    ensures
        r is Some <==> json_has_member(*v, key@),
        r matches Some(m) ==> m == json_member_val(*v, key@),
{
    v.get(key).cloned()
}

/// Extracts one champion's data from the raw body of a full-champion
/// payload: exactly when the body decodes as JSON and its `data` object
/// has a member named like the champion, the result is that member; a
/// body that does not decode, or that lacks the member, is a decoding
/// error.
pub fn champion_from_payload(body: &str, name: &str) -> (r: Result<serde_json::Value, ClientError>)
    ensures
        r is Ok <==> crate::dispatch::json_parses(body@) && json_has_member(
            crate::dispatch::json_doc_of(body@),
            "data"@,
        ) && json_has_member(
            json_member_val(crate::dispatch::json_doc_of(body@), "data"@),
            name@,
        ),
        r matches Ok(c) ==> c == json_member_val(
            json_member_val(crate::dispatch::json_doc_of(body@), "data"@),
            name@,
        ),
        r matches Err(e) ==> e == ClientError::Decode,
{
    let doc = decode_payload(body)?;
    match json_member(&doc, "data") {
        Some(data) => match json_member(&data, name) {
            Some(champ) => Ok(champ),
            None => Err(ClientError::Decode),
        },
        None => Err(ClientError::Decode),
    }
}

} // verus!
