//! Bitcoin-side venue access data and unit conversions.
//!
//! Fetching markets from a venue is network work and lives outside the
//! library; what belongs here is the client's identity — which protocol it
//! speaks and where — and the exact satoshi arithmetic.

use vstd::prelude::*;

use crate::btc_market::BtcMarketType;

verus! {

/// How many satoshis one whole bitcoin holds.
pub const SATS_PER_BTC: u64 = 100_000_000;

/// Identifies a Bitcoin-side prediction market venue: the protocol it
/// lives on, and where and how to reach it.
pub struct BtcMarketClient {
    api_endpoint: Option<String>,
    market_type: BtcMarketType,
    auth_token: Option<String>,
}

impl BtcMarketClient {
    /// The venue's API endpoint, when one was given.
    pub closed spec fn endpoint(&self) -> Option<String> {
        self.api_endpoint
    }

    /// The protocol the venue lives on.
    pub closed spec fn market_type(&self) -> BtcMarketType {
        self.market_type
    }

    /// The credential handed to the venue, when one was given.
    pub closed spec fn token(&self) -> Option<String> {
        self.auth_token
    }

    /// A client for the given market type, with nowhere to call yet.
    pub fn new(market_type: BtcMarketType) -> (r: Self)
        ensures
            r.endpoint() is None,
            r.market_type() == market_type,
            r.token() is None,
    {
        BtcMarketClient { api_endpoint: None, market_type, auth_token: None }
    }

    /// A client for a Lightning Network prediction market.
    pub fn lightning(endpoint: String) -> (r: Self)
        ensures
            r.endpoint() == Some(endpoint),
            r.market_type() == BtcMarketType::LightningNetwork,
            r.token() is None,
    {
        BtcMarketClient {
            api_endpoint: Some(endpoint),
            market_type: BtcMarketType::LightningNetwork,
            auth_token: None,
        }
    }

    /// A client for an Ordinals-based prediction market.
    pub fn ordinals(endpoint: String) -> (r: Self)
        ensures
            r.endpoint() == Some(endpoint),
            r.market_type() == BtcMarketType::Ordinals,
            r.token() is None,
    {
        BtcMarketClient {
            api_endpoint: Some(endpoint),
            market_type: BtcMarketType::Ordinals,
            auth_token: None,
        }
    }

    /// A client for a Stacks blockchain market.
    pub fn stacks(endpoint: String, auth_token: Option<String>) -> (r: Self)
        ensures
            r.endpoint() == Some(endpoint),
            r.market_type() == BtcMarketType::Stacks,
            r.token() == auth_token,
    {
        BtcMarketClient {
            api_endpoint: Some(endpoint),
            market_type: BtcMarketType::Stacks,
            auth_token,
        }
    }

    /// A client for an RSK smart contract market.
    pub fn rsk(endpoint: String) -> (r: Self)
        ensures
            r.endpoint() == Some(endpoint),
            r.market_type() == BtcMarketType::RSK,
            r.token() is None,
    {
        BtcMarketClient {
            api_endpoint: Some(endpoint),
            market_type: BtcMarketType::RSK,
            auth_token: None,
        }
    }

    /// A client for a Liquid Network market.
    pub fn liquid(endpoint: String) -> (r: Self)
        ensures
            r.endpoint() == Some(endpoint),
            r.market_type() == BtcMarketType::Liquid,
            r.token() is None,
    {
        BtcMarketClient {
            api_endpoint: Some(endpoint),
            market_type: BtcMarketType::Liquid,
            auth_token: None,
        }
    }
}

/// A bitcoin amount: a signed count of satoshis, `sats / 100_000_000`
/// whole coins.  One satoshi is the smallest step a Bitcoin amount can
/// take, so this representation is exact — eight decimal places, two more
/// than the six the price decimals of `crate::fixed::Dec` carry.
#[derive(Debug, Clone, Copy, PartialEq, Eq, Structural)]
pub struct BtcAmount {
    pub sats: i128,
}

impl BtcAmount {
    /// The amount of `sats` satoshis.
    pub fn new(sats: i128) -> (r: BtcAmount)
        ensures
            r.sats == sats,
    {
        BtcAmount { sats }
    }

    /// A whole number of coins.
    pub fn from_int(coins: i64) -> (r: BtcAmount)
        ensures
            r.sats == coins * (SATS_PER_BTC as int),
    {
        proof {
            assert(i64::MIN * (SATS_PER_BTC as int) <= coins * (SATS_PER_BTC as int) <= i64::MAX
                * (SATS_PER_BTC as int)) by (nonlinear_arith)
                requires
                    i64::MIN <= coins <= i64::MAX,
                    SATS_PER_BTC == 100_000_000,
            ;
        }
        BtcAmount { sats: (coins as i128) * (SATS_PER_BTC as i128) }
    }
}

/// Satoshis as a bitcoin amount: exactly `sats / 100_000_000` coins.
pub fn sats_to_btc(sats: u64) -> (r: BtcAmount)
    ensures
        r.sats == sats,
{
    BtcAmount { sats: sats as i128 }
}

/// A bitcoin amount in whole satoshis, zero when the amount is negative or
/// too large for a satoshi count.  Converting satoshis to a bitcoin amount
/// and back is exact: see `lemma_sats_round_trip`.
pub fn btc_to_sats(btc: &BtcAmount) -> (r: u64)
    ensures
        r == sats_of(*btc),
{
    if btc.sats < 0 || btc.sats > u64::MAX as i128 {
        0
    } else {
        btc.sats as u64
    }
}

/// The satoshi count of a bitcoin amount, or zero outside the
/// representable range.
pub open spec fn sats_of(b: BtcAmount) -> int {
    if b.sats < 0 || b.sats > u64::MAX {
        0
    } else {
        b.sats as int
    }
}

/// Satoshi conversions round-trip exactly: every satoshi count survives
/// the trip through a bitcoin amount unchanged.
pub proof fn lemma_sats_round_trip(sats: u64)
    ensures
        sats_of(BtcAmount { sats: sats as i128 }) == sats,
{
}

/// A rough Lightning Network fee estimate: five satoshis per million sent,
/// at least one.
pub fn estimate_ln_fee(sats: u64) -> (r: u64)
    ensures
        r == ln_fee(sats),
        r >= 1,
{
    let base: u64 = (sats / 1_000_000) * 5;
    if base < 1 {
        1
    } else {
        base
    }
}

/// The fee `estimate_ln_fee` answers.
pub open spec fn ln_fee(sats: u64) -> int {
    let base = (sats as int / 1_000_000) * 5;
    if base >= 1 {
        base
    } else {
        1
    }
}

/// Identifies an Ordinals marketplace: where it is and which wallet acts
/// on it.
#[derive(Debug)]
pub struct OrdinalsMarketplace {
    pub endpoint: String,
    pub wallet_address: String,
}

impl OrdinalsMarketplace {
    /// A marketplace handle over the given endpoint and wallet.
    pub fn new(endpoint: String, wallet_address: String) -> (r: Self)
        ensures
            r.endpoint == endpoint,
            r.wallet_address == wallet_address,
    {
        OrdinalsMarketplace { endpoint, wallet_address }
    }

    /// Whether both the endpoint and the wallet address are present.
    pub fn is_configured(&self) -> (r: bool)
        ensures
            r == (self.endpoint@.len() > 0 && self.wallet_address@.len() > 0),
    {
        !self.endpoint.as_str().is_empty() && !self.wallet_address.as_str().is_empty()
    }
}

impl Clone for OrdinalsMarketplace {
    fn clone(&self) -> (r: Self)
        ensures
            r == *self,
    {
        OrdinalsMarketplace {
            endpoint: self.endpoint.clone(),
            wallet_address: self.wallet_address.clone(),
        }
    }
}

impl Default for OrdinalsMarketplace {
    /// A marketplace handle with nothing configured.
    fn default() -> (r: Self)
        ensures
            r.endpoint@.len() == 0,
            r.wallet_address@.len() == 0,
    {
        OrdinalsMarketplace { endpoint: String::new(), wallet_address: String::new() }
    }
}

} // verus!
