//! Security audit of a token contract.
use vstd::prelude::*;

verus! {

/// The audit; its data is shown only when `status_code` is 200.
#[derive(Default, Debug, Clone)]
pub struct TokenAudit {
    pub status_code: u32,
    pub data: TokenAuditData,
}

/// Each flag is "yes", "no", or any other text for unknown.
#[derive(Default, Debug, Clone)]
pub struct TokenAuditData {
    pub is_open_source: String,
    pub is_honeypot: String,
    pub is_mintable: String,
    pub is_proxy: String,
    pub slippage_modifiable: String,
    pub is_blacklisted: String,
    pub sell_tax: Tax,
    pub buy_tax: Tax,
    pub is_contract_renounced: String,
    pub is_potentially_scam: String,
    pub updated_at: String,
}

/// A tax range, in fixed-point units of percent.
#[derive(Default, Debug, Clone)]
pub struct Tax {
    pub min: i128,
    pub max: i128,
    pub status: String,
}

} // verus!
