use narwhalol::api::LeagueClient;
use narwhalol::cache::SharedCache;
use narwhalol::constants::{Division, LanguageCode, RankedQueue, RankedTier, Region};
use narwhalol::ddragon::DDragonClient;

const GOOD_TOKEN: &str = "RGAPI-aaaaaaaa-bbbb-cccc-dddd-eeeeeeeeeeee";

fn client(region: Region) -> LeagueClient {
    LeagueClient::new(region, GOOD_TOKEN.to_owned()).unwrap()
}

#[test]
fn summoner_url_is_exact() {
    let c = client(Region::NA);
    assert_eq!(
        c.summoner_by_name_url("Santorin"),
        "https://na1.api.riotgames.com/lol/summoner/v4/summoners/by-name/Santorin"
    );
}

#[test]
fn the_region_decides_the_host() {
    let c = client(Region::RU);
    assert_eq!(
        c.summoner_by_name_url("Vetro"),
        "https://ru.api.riotgames.com/lol/summoner/v4/summoners/by-name/Vetro"
    );
}

#[test]
fn champion_info_url_is_exact() {
    let c = client(Region::NA);
    assert_eq!(
        c.champion_info_url(),
        "https://na1.api.riotgames.com/lol/platform/v3/champion-rotations"
    );
}

#[test]
fn mastery_urls_are_exact() {
    let c = client(Region::NA);
    assert_eq!(
        c.champion_masteries_url("sid"),
        "https://na1.api.riotgames.com/lol/champion-mastery/v4/champion-masteries/by-summoner/sid"
    );
    assert_eq!(
        c.champion_mastery_by_id_url("sid", 64),
        "https://na1.api.riotgames.com/lol/champion-mastery/v4/champion-masteries/by-summoner/sid/by-champion/64"
    );
    assert_eq!(
        c.champion_mastery_by_id_url("sid", 0),
        "https://na1.api.riotgames.com/lol/champion-mastery/v4/champion-masteries/by-summoner/sid/by-champion/0"
    );
    assert_eq!(
        c.champion_mastery_by_id_url("sid", u64::MAX),
        "https://na1.api.riotgames.com/lol/champion-mastery/v4/champion-masteries/by-summoner/sid/by-champion/18446744073709551615"
    );
    assert_eq!(
        c.total_mastery_score_url("sid"),
        "https://na1.api.riotgames.com/lol/champion-mastery/v4/scores/by-summoner/sid"
    );
}

#[test]
fn league_exp_url_without_a_page() {
    let c = client(Region::NA);
    assert_eq!(
        c.league_exp_entries_url(
            RankedQueue::SOLO,
            RankedTier::CHALLENGER,
            Division::I,
            None
        ),
        "https://na1.api.riotgames.com/lol/league-exp/v4/entries/RANKED_SOLO_5x5/CHALLENGER/I"
    );
}

#[test]
fn league_exp_url_with_a_page() {
    let c = client(Region::NA);
    assert_eq!(
        c.league_exp_entries_url(RankedQueue::FLEX, RankedTier::GOLD, Division::IV, Some(2)),
        "https://na1.api.riotgames.com/lol/league-exp/v4/entries/RANKED_FLEX_SR/GOLD/IV?page=2"
    );
    assert_eq!(
        c.league_exp_entries_url(
            RankedQueue::FLEX_TT,
            RankedTier::IRON,
            Division::II,
            Some(-13)
        ),
        "https://na1.api.riotgames.com/lol/league-exp/v4/entries/RANKED_FLEX_TT/IRON/II?page=-13"
    );
    assert_eq!(
        c.league_exp_entries_url(
            RankedQueue::SOLO,
            RankedTier::MASTER,
            Division::III,
            Some(i32::MIN)
        ),
        "https://na1.api.riotgames.com/lol/league-exp/v4/entries/RANKED_SOLO_5x5/MASTER/III?page=-2147483648"
    );
}

#[test]
fn identities_are_validated_before_any_network_call() {
    let c = client(Region::NA);
    assert!(narwhalol::dispatch::check_identity(&c.champion_info_url()).is_ok());
    assert_eq!(
        narwhalol::dispatch::check_identity("no url at all").unwrap_err(),
        narwhalol::error::ClientError::UrlNotParsed
    );
}

#[test]
fn ddragon_urls_are_exact() {
    let dd = DDragonClient::new(
        "9.3.1".to_owned(),
        LanguageCode::UNITED_STATES,
        SharedCache::new(),
    );
    assert_eq!(
        dd.champions_url(),
        "http://ddragon.leagueoflegends.com/cdn/9.3.1/data/en_US/champion.json"
    );
    assert_eq!(
        dd.champion_url("Xayah"),
        "http://ddragon.leagueoflegends.com/cdn/9.3.1/data/en_US/champion/Xayah.json"
    );
}
