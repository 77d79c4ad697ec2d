//! Market data as the core consumes it.
//!
//! Providers hand the core already-normalised values: a market, a quote for
//! one outcome of a market, and the opportunity a detected price gap turns
//! into.  Prices are fixed-point decimals and timestamps are unix seconds.

use vstd::prelude::*;

use crate::clock::now_seconds;
use crate::fixed::Dec;

verus! {

/// The venue a quote came from.
#[derive(Debug, PartialEq)]
pub enum MarketSource {
    Polymarket,
    BitcoinPredictionMarket,
    Custom(String),
}

impl Clone for MarketSource {
    fn clone(&self) -> (r: Self)
        ensures
            r == *self,
    {
        match self {
            MarketSource::Polymarket => MarketSource::Polymarket,
            MarketSource::BitcoinPredictionMarket => MarketSource::BitcoinPredictionMarket,
            MarketSource::Custom(s) => MarketSource::Custom(s.clone()),
        }
    }
}

impl MarketSource {
    /// The venue's display name.
    pub fn label(&self) -> (r: String)
        ensures
            r@ == source_label(self),
    {
        match self {
            MarketSource::Polymarket => "Polymarket".to_owned(),
            MarketSource::BitcoinPredictionMarket => "BitcoinPredictionMarket".to_owned(),
            MarketSource::Custom(s) => s.clone(),
        }
    }
}

/// The display name of a venue tag.
pub open spec fn source_label(s: &MarketSource) -> Seq<char> {
    match s {
        MarketSource::Polymarket => "Polymarket"@,
        MarketSource::BitcoinPredictionMarket => "BitcoinPredictionMarket"@,
        MarketSource::Custom(c) => c@,
    }
}

/// A prediction market as a venue lists it.
#[derive(Debug)]
pub struct Market {
    pub id: String,
    pub question: String,
    pub description: Option<String>,
    pub outcomes: Vec<String>,
    pub end_time: Option<i64>,
    pub volume: Option<Dec>,
    pub liquidity: Option<Dec>,
}

impl Clone for Market {
    fn clone(&self) -> (r: Self)
        ensures
            r.id == self.id,
            r.question == self.question,
            r.description == self.description,
            r.outcomes@ == self.outcomes@,
            r.end_time == self.end_time,
            r.volume == self.volume,
            r.liquidity == self.liquidity,
    {
        let mut outcomes: Vec<String> = Vec::new();
        let mut i: usize = 0;
        while i < self.outcomes.len()
            invariant
                0 <= i <= self.outcomes@.len(),
                outcomes@ =~= self.outcomes@.take(i as int),
            decreases self.outcomes@.len() - i,
        {
            outcomes.push(self.outcomes[i].clone());
            proof {
                assert(outcomes@ =~= self.outcomes@.take(i + 1));
            }
            i = i + 1;
        }
        proof {
            assert(self.outcomes@.take(self.outcomes@.len() as int) =~= self.outcomes@);
        }
        Market {
            id: self.id.clone(),
            question: self.question.clone(),
            description: crate::text::clone_opt_string(&self.description),
            outcomes,
            end_time: self.end_time,
            volume: self.volume,
            liquidity: self.liquidity,
        }
    }
}

/// A venue's price for one outcome of one market at one instant.
#[derive(Debug)]
pub struct MarketOdds {
    pub market_id: String,
    pub outcome: String,
    pub odds: Dec,
    pub source: MarketSource,
    pub timestamp: i64,
}

impl Clone for MarketOdds {
    fn clone(&self) -> (r: Self)
        ensures
            r == *self,
    {
        MarketOdds {
            market_id: self.market_id.clone(),
            outcome: self.outcome.clone(),
            odds: self.odds,
            source: self.source.clone(),
            timestamp: self.timestamp,
        }
    }
}

/// A detected cross-venue price discrepancy.
#[derive(Debug)]
pub struct ArbitrageOpportunity {
    pub polymarket_odds: MarketOdds,
    pub btc_market_odds: MarketOdds,
    pub implied_profit: Dec,
    pub confidence: Dec,
    pub detected_at: i64,
}

impl Clone for ArbitrageOpportunity {
    fn clone(&self) -> (r: Self)
        ensures
            r == *self,
    {
        ArbitrageOpportunity {
            polymarket_odds: self.polymarket_odds.clone(),
            btc_market_odds: self.btc_market_odds.clone(),
            implied_profit: self.implied_profit,
            confidence: self.confidence,
            detected_at: self.detected_at,
        }
    }
}

impl ArbitrageOpportunity {
    /// An opportunity over the given pair of quotes, stamped with the time
    /// of detection.
    pub fn new(
        polymarket_odds: MarketOdds,
        btc_market_odds: MarketOdds,
        implied_profit: Dec,
        confidence: Dec,
    ) -> (r: Self)
        ensures
            r.polymarket_odds == polymarket_odds,
            r.btc_market_odds == btc_market_odds,
            r.implied_profit == implied_profit,
            r.confidence == confidence,
    {
        ArbitrageOpportunity {
            polymarket_odds,
            btc_market_odds,
            implied_profit,
            confidence,
            detected_at: now_seconds(),
        }
    }
}

} // verus!
