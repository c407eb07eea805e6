//! Fixed enumerations a client is configured with: the platform region,
//! the static-data language, and the ranked ladder coordinates.

use vstd::prelude::*;

verus! {

/// The platform region a client is bound to at construction.  Every
/// endpoint URL of that client is derived from the region's platform code.
#[derive(Clone, Copy, Debug, PartialEq, Eq, Structural)]
pub enum Region {
    BR,
    EUNE,
    EUW,
    EU,
    JP,
    KR,
    LAN,
    LAS,
    NA,
    OCE,
    RU,
    TR,
}

impl Region {
    /// The host code this region resolves to inside platform URLs.
    pub open spec fn platform_code(self) -> Seq<char> {
        match self {
            Region::BR => "br1"@,
            Region::EUNE => "eun1"@,
            Region::EUW => "euw1"@,
            Region::EU => "eu"@,
            Region::JP => "jp1"@,
            Region::KR => "kr"@,
            Region::LAN => "la1"@,
            Region::LAS => "la2"@,
            Region::NA => "na1"@,
            Region::OCE => "oc1"@,
            Region::RU => "ru"@,
            Region::TR => "tr1"@,
        }
    }

    /// Returns the platform host code as text.
    pub fn as_platform_str(&self) -> (r: &'static str)
        ensures
            r@ == self.platform_code(),
    {
        match self {
            Region::BR => "br1",
            Region::EUNE => "eun1",
            Region::EUW => "euw1",
            Region::EU => "eu",
            Region::JP => "jp1",
            Region::KR => "kr",
            Region::LAN => "la1",
            Region::LAS => "la2",
            Region::NA => "na1",
            Region::OCE => "oc1",
            Region::RU => "ru",
            Region::TR => "tr1",
        }
    }
}

impl Default for Region {
    fn default() -> (r: Region)
        ensures
            r == Region::NA,
    {
        Region::NA
    }
}

/// The language the static-data service is asked to deliver its texts in.
#[allow(non_camel_case_types)]
#[derive(Clone, Copy, Debug, PartialEq, Eq, Structural)]
pub enum LanguageCode {
    UNITED_STATES,
    UNITED_KINGDOM,
    GERMANY,
    SPAIN,
    FRANCE,
    JAPAN,
    KOREA,
    RUSSIA,
}

impl LanguageCode {
    /// The locale code this language resolves to inside static-data URLs.
    pub open spec fn locale_code(self) -> Seq<char> {
        match self {
            LanguageCode::UNITED_STATES => "en_US"@,
            LanguageCode::UNITED_KINGDOM => "en_GB"@,
            LanguageCode::GERMANY => "de_DE"@,
            LanguageCode::SPAIN => "es_ES"@,
            LanguageCode::FRANCE => "fr_FR"@,
            LanguageCode::JAPAN => "ja_JP"@,
            LanguageCode::KOREA => "ko_KR"@,
            LanguageCode::RUSSIA => "ru_RU"@,
        }
    }

    /// Returns the locale code as text.
    pub fn as_locale_str(&self) -> (r: &'static str)
        ensures
            r@ == self.locale_code(),
    {
        match self {
            LanguageCode::UNITED_STATES => "en_US",
            LanguageCode::UNITED_KINGDOM => "en_GB",
            LanguageCode::GERMANY => "de_DE",
            LanguageCode::SPAIN => "es_ES",
            LanguageCode::FRANCE => "fr_FR",
            LanguageCode::JAPAN => "ja_JP",
            LanguageCode::KOREA => "ko_KR",
            LanguageCode::RUSSIA => "ru_RU",
        }
    }
}

/// The ranked queue a ladder request asks for.
#[allow(non_camel_case_types)]
#[derive(Clone, Copy, Debug, PartialEq, Eq, Structural)]
pub enum RankedQueue {
    SOLO,
    FLEX,
    FLEX_TT,
}

impl RankedQueue {
    /// The queue name as it appears inside ladder URLs.
    pub open spec fn queue_code(self) -> Seq<char> {
        match self {
            RankedQueue::SOLO => "RANKED_SOLO_5x5"@,
            RankedQueue::FLEX => "RANKED_FLEX_SR"@,
            RankedQueue::FLEX_TT => "RANKED_FLEX_TT"@,
        }
    }

    /// Returns the queue name as text.
    pub fn as_queue_str(&self) -> (r: &'static str)
        ensures
            r@ == self.queue_code(),
    {
        match self {
            RankedQueue::SOLO => "RANKED_SOLO_5x5",
            RankedQueue::FLEX => "RANKED_FLEX_SR",
            RankedQueue::FLEX_TT => "RANKED_FLEX_TT",
        }
    }
}

/// The ranked tier a ladder request asks for.
#[derive(Clone, Copy, Debug, PartialEq, Eq, Structural)]
pub enum RankedTier {
    CHALLENGER,
    GRANDMASTER,
    MASTER,
    DIAMOND,
    PLATINUM,
    GOLD,
    SILVER,
    BRONZE,
    IRON,
}

impl RankedTier {
    /// The tier name as it appears inside ladder URLs.
    pub open spec fn tier_code(self) -> Seq<char> {
        match self {
            RankedTier::CHALLENGER => "CHALLENGER"@,
            RankedTier::GRANDMASTER => "GRANDMASTER"@,
            RankedTier::MASTER => "MASTER"@,
            RankedTier::DIAMOND => "DIAMOND"@,
            RankedTier::PLATINUM => "PLATINUM"@,
            RankedTier::GOLD => "GOLD"@,
            RankedTier::SILVER => "SILVER"@,
            RankedTier::BRONZE => "BRONZE"@,
            RankedTier::IRON => "IRON"@,
        }
    }

    /// Returns the tier name as text.
    pub fn as_tier_str(&self) -> (r: &'static str)
        ensures
            r@ == self.tier_code(),
    {
        match self {
            RankedTier::CHALLENGER => "CHALLENGER",
            RankedTier::GRANDMASTER => "GRANDMASTER",
            RankedTier::MASTER => "MASTER",
            RankedTier::DIAMOND => "DIAMOND",
            RankedTier::PLATINUM => "PLATINUM",
            RankedTier::GOLD => "GOLD",
            RankedTier::SILVER => "SILVER",
            RankedTier::BRONZE => "BRONZE",
            RankedTier::IRON => "IRON",
        }
    }
}

/// The ranked division a ladder request asks for.
#[derive(Clone, Copy, Debug, PartialEq, Eq, Structural)]
pub enum Division {
    I,
    II,
    III,
    IV,
}

impl Division {
    /// The division numeral as it appears inside ladder URLs.
    pub open spec fn division_code(self) -> Seq<char> {
        match self {
            Division::I => "I"@,
            Division::II => "II"@,
            Division::III => "III"@,
            Division::IV => "IV"@,
        }
    }

    /// Returns the division numeral as text.
    pub fn as_division_str(&self) -> (r: &'static str)
        ensures
            r@ == self.division_code(),
    {
        match self {
            Division::I => "I",
            Division::II => "II",
            Division::III => "III",
            Division::IV => "IV",
        }
    }
}

} // verus!
