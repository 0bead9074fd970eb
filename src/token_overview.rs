//! Token identity record of the DEX data service.
use vstd::prelude::*;

verus! {

#[derive(Default, Debug, Clone)]
pub struct TokenOverview {
    pub data: TokenOverviewData,
}

#[derive(Default, Debug, Clone)]
pub struct TokenOverviewData {
    pub address: String,
    pub name: String,
    pub symbol: String,
    pub logo_url: String,
    pub description: String,
    pub decimals: i32,
    pub social_info: SocialInfo,
    pub creation_date: Option<String>,
}

/// Social links by channel; an absent or empty link is not shown.
#[derive(Default, Debug, Clone)]
pub struct SocialInfo {
    pub email: Option<String>,
    pub bitbucket: Option<String>,
    pub discord: Option<String>,
    pub facebook: Option<String>,
    pub github: Option<String>,
    pub instagram: Option<String>,
    pub linkedin: Option<String>,
    pub medium: Option<String>,
    pub reddit: Option<String>,
    pub telegram: Option<String>,
    pub tiktok: Option<String>,
    pub twitter: Option<String>,
    pub website: Option<String>,
    pub youtube: Option<String>,
}

} // verus!
