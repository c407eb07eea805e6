use narwhalol::api::LeagueClient;
use narwhalol::cache::SharedCache;
use narwhalol::constants::{LanguageCode, Region};
use narwhalol::dispatch;
use narwhalol::error::ClientError;

const GOOD_TOKEN: &str = "RGAPI-aaaaaaaa-bbbb-cccc-dddd-eeeeeeeeeeee";

fn client() -> LeagueClient {
    LeagueClient::new(Region::NA, GOOD_TOKEN.to_owned()).unwrap()
}

#[test]
fn a_fresh_identity_is_fetched_once_then_served_from_the_store() {
    // scenario: no entry for the identity, so the first dispatch reports a
    // miss (the caller's one HTTP exchange); after completion, a second
    // dispatch is a hit with the same logical value and needs no exchange
    let c = client();
    let url = c.summoner_by_name_url("Santorin");
    let mut exchanges = 0;
    let body = match c.dispatch_lookup(&url) {
        Some(b) => b,
        None => {
            exchanges += 1;
            c.dispatch_complete(&url, 200, "{\"name\":\"Santorin\"}".to_owned())
                .unwrap()
        }
    };
    assert_eq!(exchanges, 1);
    let again = match c.dispatch_lookup(&url) {
        Some(b) => b,
        None => {
            exchanges += 1;
            unreachable!()
        }
    };
    assert_eq!(exchanges, 1);
    assert_eq!(body, again);
    assert_eq!(body, "{\"name\":\"Santorin\"}");
}

#[test]
fn a_classified_error_is_returned_and_not_cached() {
    let c = client();
    let url = c.summoner_by_name_url("Nobody");
    assert!(c.dispatch_lookup(&url).is_none());
    let r = c.dispatch_complete(&url, 404, "not found".to_owned());
    assert_eq!(r.unwrap_err(), ClientError::DataNotFound);
    assert!(c.dispatch_lookup(&url).is_none());
}

#[test]
fn dispatch_classifies_with_the_bound_region() {
    let c = LeagueClient::new(Region::EU, GOOD_TOKEN.to_owned()).unwrap();
    let url = c.champion_info_url();
    let r = c.dispatch_complete(&url, 503, "".to_owned());
    assert_eq!(
        r.unwrap_err(),
        ClientError::ServiceUnavailable { region: Region::EU }
    );
}

#[test]
fn the_plain_store_dispatches_the_same_way() {
    let mut store = narwhalol::cache::CacheStore::new();
    let ok = dispatch::complete_on(&mut store, "u", Region::NA, 200, "body".to_owned()).unwrap();
    assert_eq!(ok, "body");
    assert_eq!(store.get("u").unwrap(), "body");
    // a classified error writes nothing
    let err = dispatch::complete_on(&mut store, "v", Region::NA, 500, "oops".to_owned());
    assert_eq!(err.unwrap_err(), ClientError::InternalServerError);
    assert!(store.get("v").is_none());
    // the stored entry is kept, not overwritten
    let again = dispatch::complete_on(&mut store, "u", Region::NA, 200, "other".to_owned()).unwrap();
    assert_eq!(again, "other");
    assert_eq!(store.get("u").unwrap(), "body");
}

#[test]
fn handles_share_one_storage() {
    let c1 = SharedCache::new();
    let c2 = c1.clone_handle();
    assert!(c2.get("u").is_none());
    c1.put("u".to_owned(), "body".to_owned());
    assert_eq!(c2.get("u").unwrap(), "body");
}

#[test]
fn entries_are_never_overwritten() {
    let c = SharedCache::new();
    c.put("u".to_owned(), "first".to_owned());
    c.put("u".to_owned(), "second".to_owned());
    assert_eq!(c.get("u").unwrap(), "first");
}

#[test]
fn distinct_identities_do_not_contaminate_each_other() {
    // scenario: two dispatches for distinct identities, each through its
    // own handle of the same cache, each served its own body
    let c1 = SharedCache::new();
    let c2 = c1.clone_handle();
    let r1 = dispatch::complete(&c1, "u1", Region::NA, 200, "b1".to_owned()).unwrap();
    let r2 = dispatch::complete(&c2, "u2", Region::NA, 200, "b2".to_owned()).unwrap();
    assert_eq!(r1, "b1");
    assert_eq!(r2, "b2");
    assert_eq!(c1.get("u1").unwrap(), "b1");
    assert_eq!(c1.get("u2").unwrap(), "b2");
    assert_eq!(c2.get("u1").unwrap(), "b1");
    assert_eq!(c2.get("u2").unwrap(), "b2");
}

#[test]
fn the_embedded_facade_shares_the_parent_cache() {
    let c = client().with_ddragon(LanguageCode::UNITED_STATES, "9.3.1".to_owned());
    let dd = c.ddragon().unwrap();
    let url = dd.champions_url();
    dd.dispatch_complete(&url, 200, "{\"data\":{}}".to_owned())
        .unwrap();
    // the same identity is a hit through the parent client as well
    assert_eq!(c.dispatch_lookup(&url).unwrap(), "{\"data\":{}}");
    // and through a fresh handle of the ddragon cache
    assert_eq!(dd.cache_handle().get(&url).unwrap(), "{\"data\":{}}");
}
