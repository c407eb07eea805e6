//! The platform-API facade: holds the client configuration fixed at
//! construction (region, base URL, credential token), shares one response
//! cache with any embedded static-data facade, and builds the request
//! identity for each endpoint.

use crate::cache::SharedCache;
use crate::constants::{Division, LanguageCode, RankedQueue, RankedTier, Region};
use crate::ddragon::DDragonClient;
use crate::dispatch;
use crate::error::{classified_error, ClientError};
use crate::text::{dec_str, dec_str_int, push_i32_dec, push_u64_dec};
use vstd::prelude::*;
use vstd::utf8::encode_utf8;

verus! {

/// The marker substring a credential token must contain.
pub open spec fn token_marker() -> Seq<char> {
    "RGAPI"@
}

/// The exact length, in bytes of its encoding, a credential token must
/// have.
pub open spec fn token_length() -> int {
    42
}

/// Whether the marker substring occurs in a token at position `i`.
pub open spec fn marker_at(t: Seq<char>, i: int) -> bool {
    0 <= i && i + token_marker().len() <= t.len() && t.subrange(i, i + token_marker().len() as int)
        == token_marker()
}

/// A well-formed credential token: the exact required byte length, and
/// the required marker substring somewhere inside.
pub open spec fn token_wf(t: Seq<char>) -> bool {
    encode_utf8(t).len() == token_length() && exists|i: int| marker_at(t, i)
}

/// Whether the marker substring starts at character position `i` of `t`.
fn marker_matches_at(t: &str, i: usize) -> (r: bool)
    requires
        i + 5 <= t@.len(),
        t@.len() <= usize::MAX,
    ensures
        r <==> marker_at(t@, i as int),
{
    proof {
        reveal_strlit("RGAPI");
    }
    let found = t.get_char(i) == 'R' && t.get_char(i + 1) == 'G' && t.get_char(i + 2) == 'A'
        && t.get_char(i + 3) == 'P' && t.get_char(i + 4) == 'I';
    proof {
        let sub = t@.subrange(i as int, i as int + 5);
        assert(sub.len() == 5);
        assert(sub[0] == t@[i as int]);
        assert(sub[1] == t@[i as int + 1]);
        assert(sub[2] == t@[i as int + 2]);
        assert(sub[3] == t@[i as int + 3]);
        assert(sub[4] == t@[i as int + 4]);
        if found {
            assert(sub =~= token_marker());
        }
        if sub == token_marker() {
            assert(found);
        }
    }
    found
}

/// Validates a credential token: accepted exactly when it has the required
/// byte length and contains the required marker substring; a rejected
/// token is echoed back inside the error.
pub fn check_token(token: &str) -> (r: Result<(), ClientError>)
    ensures
        r is Ok <==> token_wf(token@),
        r matches Err(e) ==> e matches ClientError::WrongToken { token: t } && t@ == token@,
{
    proof {
        reveal_strlit("RGAPI");
    }
    let bytes = token.as_bytes();
    if bytes.len() != 42 {
        return Err(ClientError::WrongToken { token: token.to_owned() });
    }
    proof {
        assert(bytes@ == encode_utf8(token@));
    }
    let n = token.unicode_len();
    if n < 5 {
        proof {
            assert forall|j: int| !marker_at(token@, j) by {}
        }
        return Err(ClientError::WrongToken { token: token.to_owned() });
    }
    let mut i: usize = 0;
    while i <= n - 5
        invariant
            n == token@.len(),
            5 <= n <= usize::MAX,
            encode_utf8(token@).len() == 42,
            i <= n,
            forall|j: int| 0 <= j < i ==> !marker_at(token@, j),
        decreases n - i,
    {
        if marker_matches_at(token, i) {
            return Ok(());
        }
        i += 1;
    }
    proof {
        assert forall|j: int| !marker_at(token@, j) by {
            if marker_at(token@, j) {
                assert(0 <= j < i);
            }
        }
    }
    Err(ClientError::WrongToken { token: token.to_owned() })
}

/// The platform base URL every endpoint URL of a region is derived from.
pub open spec fn base_url_of(region: Region) -> Seq<char> {
    "https://"@ + region.platform_code() + ".api.riotgames.com/lol"@
}

/// The facade for the per-player platform API.  It is bound to one region
/// and one credential token at construction, owns a handle to the shared
/// response cache, and may carry an embedded static-data facade that shares
/// that cache.
pub struct LeagueClient {
    region: Region,
    base_url: String,
    api_key: String,
    cache: SharedCache,
    ddragon: Option<DDragonClient>,
}

impl LeagueClient {
    /// The region this client was bound to at construction.
    pub closed spec fn region_spec(&self) -> Region {
        self.region
    }

    /// The base URL this client derives every endpoint URL from.
    pub closed spec fn base_url_view(&self) -> Seq<char> {
        self.base_url@
    }

    /// The credential token this client attaches to its requests.
    pub closed spec fn api_key_view(&self) -> Seq<char> {
        self.api_key@
    }

    /// The embedded static-data facade, when one was set up.
    pub closed spec fn ddragon_spec(&self) -> Option<DDragonClient> {
        self.ddragon
    }

    /// Whether a static-data facade is embedded.
    pub open spec fn has_ddragon(&self) -> bool {
        self.ddragon_spec() is Some
    }

    /// A well-formed client: the base URL is the one of its region, and
    /// its token was accepted at construction.
    pub closed spec fn wf(&self) -> bool {
        self.base_url@ == base_url_of(self.region) && token_wf(self.api_key@)
    }

    /// Constructs a client bound to a region, with a fresh shared cache.
    /// Construction validates the credential token and fails on a
    /// malformed one before anything else can happen — no network exchange
    /// is involved.
    pub fn new(region: Region, api_key: String) -> (r: Result<LeagueClient, ClientError>)
        ensures
            r is Ok <==> token_wf(api_key@),
            r matches Ok(c) ==> c.wf() && c.region_spec() == region && c.base_url_view()
                == base_url_of(region) && c.api_key_view() == api_key@ && !c.has_ddragon(),
            r matches Err(e) ==> e matches ClientError::WrongToken { token: t } && t@ == api_key@,
    {
        match check_token(api_key.as_str()) {
            Ok(()) => {
                let mut base_url = String::new();
                base_url.append("https://");
                base_url.append(region.as_platform_str());
                base_url.append(".api.riotgames.com/lol");
                let cache = SharedCache::new();
                Ok(LeagueClient { region, base_url, api_key, cache, ddragon: None })
            },
            Err(e) => Err(e),
        }
    }

    /// Embeds a static-data facade that shares this client's cache, so a
    /// URL fetched through either facade is fetched once across the
    /// process.  The static-data version is supplied by the caller, who
    /// obtains it from the version listing of the static-data service.
    pub fn with_ddragon(self, language: LanguageCode, version: String) -> (r: LeagueClient)
        ensures
            r.ddragon_spec() matches Some(d) && d.version_view() == version@
                && d.base_url_view() == crate::ddragon::ddragon_base_url(
                version@,
                language.locale_code(),
            ),
            r.region_spec() == self.region_spec(),
            r.base_url_view() == self.base_url_view(),
            r.api_key_view() == self.api_key_view(),
            r.wf() == self.wf(),
    {
        let ddragon = DDragonClient::new(version, language, self.cache.clone_handle());
        LeagueClient { ddragon: Some(ddragon), ..self }
    }

    /// The embedded static-data facade.  Asking for one that was never
    /// embedded is reported as an explicit error, not a silent default.
    pub fn ddragon(&self) -> (r: Result<&DDragonClient, ClientError>)
        ensures
            r is Ok <==> self.has_ddragon(),
            r matches Ok(d) ==> self.ddragon_spec() == Some(*d),
            r matches Err(e) ==> e == ClientError::DdragonNotConfigured,
    {
        match &self.ddragon {
            Some(dd) => Ok(dd),
            None => Err(ClientError::DdragonNotConfigured),
        }
    }

    /// The credential token, for the caller that performs the HTTP
    /// exchange and attaches it as the authentication header.
    pub fn api_key(&self) -> (r: &String)
        ensures
            r@ == self.api_key_view(),
    {
        &self.api_key
    }

    /// A new handle to this client's shared cache.
    pub fn cache_handle(&self) -> SharedCache {
        self.cache.clone_handle()
    }

    /// The request identity for a summoner looked up by plain-text name.
    pub fn summoner_by_name_url(&self, name: &str) -> (r: String)
        ensures
            r@ == self.base_url_view() + "/summoner/v4/summoners/by-name/"@ + name@,
    {
        let mut url = self.base_url.clone();
        url.append("/summoner/v4/summoners/by-name/");
        url.append(name);
        url
    }

    /// The request identity for the current champion rotations.
    pub fn champion_info_url(&self) -> (r: String)
        ensures
            r@ == self.base_url_view() + "/platform/v3/champion-rotations"@,
    {
        let mut url = self.base_url.clone();
        url.append("/platform/v3/champion-rotations");
        url
    }

    /// The request identity for all champion masteries of a summoner.
    pub fn champion_masteries_url(&self, summoner_id: &str) -> (r: String)
        ensures
            r@ == self.base_url_view() + "/champion-mastery/v4/champion-masteries/by-summoner/"@
                + summoner_id@,
    {
        let mut url = self.base_url.clone();
        url.append("/champion-mastery/v4/champion-masteries/by-summoner/");
        url.append(summoner_id);
        url
    }

    /// The request identity for one champion mastery of a summoner.
    pub fn champion_mastery_by_id_url(&self, summoner_id: &str, champion_id: u64) -> (r: String)
        ensures
            r@ == self.base_url_view() + "/champion-mastery/v4/champion-masteries/by-summoner/"@
                + summoner_id@ + "/by-champion/"@ + dec_str(champion_id as nat),
    {
        let mut url = self.base_url.clone();
        url.append("/champion-mastery/v4/champion-masteries/by-summoner/");
        url.append(summoner_id);
        url.append("/by-champion/");
        push_u64_dec(&mut url, champion_id);
        url
    }

    /// The request identity for the total mastery score of a summoner.
    pub fn total_mastery_score_url(&self, summoner_id: &str) -> (r: String)
        ensures
            r@ == self.base_url_view() + "/champion-mastery/v4/scores/by-summoner/"@
                + summoner_id@,
    {
        let mut url = self.base_url.clone();
        url.append("/champion-mastery/v4/scores/by-summoner/");
        url.append(summoner_id);
        url
    }

    /// The request identity for a page of ranked ladder entries, with the
    /// page query attached only when one is asked for.
    pub fn league_exp_entries_url(
        &self,
        queue: RankedQueue,
        tier: RankedTier,
        division: Division,
        pages: Option<i32>,
    ) -> (r: String)
        ensures
            r@ == self.base_url_view() + "/league-exp/v4/entries/"@ + queue.queue_code() + "/"@
                + tier.tier_code() + "/"@ + division.division_code() + (match pages {
                Some(p) => "?page="@ + dec_str_int(p as int),
                None => Seq::<char>::empty(),
            }),
    {
        let mut url = self.base_url.clone();
        url.append("/league-exp/v4/entries/");
        url.append(queue.as_queue_str());
        url.append("/");
        url.append(tier.as_tier_str());
        url.append("/");
        url.append(division.as_division_str());
        match pages {
            Some(p) => {
                url.append("?page=");
                push_i32_dec(&mut url, p);
            },
            None => {
                proof {
                    assert(url@ =~= url@ + Seq::<char>::empty());
                }
            },
        }
        url
    }

    /// The lookup half of a dispatch: the raw body stored for the request
    /// identity, or `None` when the caller must perform the one HTTP
    /// exchange for it and hand the outcome to [`Self::dispatch_complete`].
    pub fn dispatch_lookup(&self, url: &str) -> Option<String> {
        self.cache.get(url)
    }

    /// The completion half of a dispatch: classifies the status code that
    /// came back, stores the body on success and never on a classified
    /// error, and returns the body for decoding exactly on success.
    pub fn dispatch_complete(&self, url: &str, code: u16, body: String) -> (r: Result<
        String,
        ClientError,
    >)
        ensures
            r is Ok <==> classified_error(code, self.region_spec()) is None,
            r matches Ok(b) ==> b@ == body@,
            r matches Err(e) ==> classified_error(code, self.region_spec()) == Some(e),
    {
        dispatch::complete(&self.cache, url, self.region, code, body)
    }
}

} // verus!
