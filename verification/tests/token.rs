use narwhalol::api::{check_token, LeagueClient};
use narwhalol::constants::Region;
use narwhalol::error::ClientError;

const GOOD_TOKEN: &str = "RGAPI-aaaaaaaa-bbbb-cccc-dddd-eeeeeeeeeeee";

#[test]
fn accepts_a_well_formed_token() {
    assert_eq!(GOOD_TOKEN.len(), 42);
    assert!(check_token(GOOD_TOKEN).is_ok());
}

#[test]
fn accepts_the_marker_anywhere_inside() {
    let shifted = "aaaaaaaa-RGAPI-bbbb-cccc-dddd-eeeeeeeeeee";
    assert_eq!(shifted.len(), 41);
    let shifted = format!("{}e", shifted);
    assert!(check_token(&shifted).is_ok());
    let at_end = "aaaaaaaaa-bbbb-cccc-dddd-eeeeeeeeeeeeRGAPI";
    assert_eq!(at_end.len(), 42);
    assert!(check_token(at_end).is_ok());
}

#[test]
fn rejects_a_token_one_short_of_the_required_length() {
    // scenario: 41 characters, one short of the required 42
    let short = "RGAPI-aaaaaaaa-bbbb-cccc-dddd-eeeeeeeeeee";
    assert_eq!(short.len(), 41);
    let err = check_token(short).unwrap_err();
    assert_eq!(
        err,
        ClientError::WrongToken {
            token: short.to_owned()
        }
    );
}

#[test]
fn the_required_length_counts_bytes() {
    // 41 characters, but the last one encodes as two bytes: 42 bytes in all
    let wide = "RGAPI-aaaaaaaa-bbbb-cccc-dddd-eeeeeeeeee\u{e9}";
    assert_eq!(wide.chars().count(), 41);
    assert_eq!(wide.len(), 42);
    assert!(check_token(wide).is_ok());
    // 42 characters whose encoding is 43 bytes: rejected
    let long = "RGAPI-aaaaaaaa-bbbb-cccc-dddd-eeeeeeeeeee\u{e9}";
    assert_eq!(long.chars().count(), 42);
    assert_eq!(long.len(), 43);
    assert!(check_token(long).is_err());
}

#[test]
fn rejects_a_token_without_the_marker() {
    let unmarked = "AAAAA-aaaaaaaa-bbbb-cccc-dddd-eeeeeeeeeeee";
    assert_eq!(unmarked.len(), 42);
    assert!(check_token(unmarked).is_err());
    // a partial marker is not enough
    let partial = "RGAP-Iaaaaaaaa-bbbb-cccc-dddd-eeeeeeeeeeee";
    assert_eq!(partial.len(), 42);
    assert!(check_token(partial).is_err());
}

#[test]
fn construction_fails_on_a_malformed_token() {
    // scenario: a 41-character token fails construction, before any
    // network exchange could happen; a 42-character one with the marker
    // succeeds
    let short = "RGAPI-aaaaaaaa-bbbb-cccc-dddd-eeeeeeeeeee";
    match LeagueClient::new(Region::NA, short.to_owned()) {
        Ok(_) => panic!("a malformed token must fail construction"),
        Err(e) => assert_eq!(
            e,
            ClientError::WrongToken {
                token: short.to_owned()
            }
        ),
    }
    assert!(LeagueClient::new(Region::NA, GOOD_TOKEN.to_owned()).is_ok());
}

#[test]
fn the_embedded_facade_must_be_configured_first() {
    let client = match LeagueClient::new(Region::NA, GOOD_TOKEN.to_owned()) {
        Ok(c) => c,
        Err(_) => panic!("a well-formed token must be accepted"),
    };
    match client.ddragon() {
        Ok(_) => panic!("no static-data facade was embedded"),
        Err(e) => assert_eq!(e, ClientError::DdragonNotConfigured),
    }
    let client = client.with_ddragon(
        narwhalol::constants::LanguageCode::UNITED_STATES,
        "9.3.1".to_owned(),
    );
    assert!(client.ddragon().is_ok());
}

#[test]
fn the_client_keeps_its_key() {
    let client = LeagueClient::new(Region::NA, GOOD_TOKEN.to_owned()).unwrap();
    assert_eq!(client.api_key(), GOOD_TOKEN);
}
