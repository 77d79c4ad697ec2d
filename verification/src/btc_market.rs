//! Bitcoin-side prediction market data.
//!
//! A market on the Bitcoin side may live on any of several protocol
//! ecosystems; the tag below selects which one, and the remaining types
//! mirror what such a venue lists.

use vstd::prelude::*;

use crate::fixed::Dec;

verus! {

/// Which Bitcoin ecosystem a market lives on.
#[derive(Debug, PartialEq)]
pub enum BtcMarketType {
    LightningNetwork,
    Ordinals,
    Stacks,
    RSK,
    Liquid,
    Custom(String),
}

impl Clone for BtcMarketType {
    fn clone(&self) -> (r: Self)
        ensures
            r == *self,
    {
        match self {
            BtcMarketType::LightningNetwork => BtcMarketType::LightningNetwork,
            BtcMarketType::Ordinals => BtcMarketType::Ordinals,
            BtcMarketType::Stacks => BtcMarketType::Stacks,
            BtcMarketType::RSK => BtcMarketType::RSK,
            BtcMarketType::Liquid => BtcMarketType::Liquid,
            BtcMarketType::Custom(s) => BtcMarketType::Custom(s.clone()),
        }
    }
}

/// The display name of a market type.
pub open spec fn market_type_label(t: &BtcMarketType) -> Seq<char> {
    match t {
        BtcMarketType::LightningNetwork => "LightningNetwork"@,
        BtcMarketType::Ordinals => "Ordinals"@,
        BtcMarketType::Stacks => "Stacks"@,
        BtcMarketType::RSK => "RSK"@,
        BtcMarketType::Liquid => "Liquid"@,
        BtcMarketType::Custom(s) => s@,
    }
}

impl BtcMarketType {
    /// The market type's display name.
    pub fn label(&self) -> (r: String)
        ensures
            r@ == market_type_label(self),
    {
        match self {
            BtcMarketType::LightningNetwork => "LightningNetwork".to_owned(),
            BtcMarketType::Ordinals => "Ordinals".to_owned(),
            BtcMarketType::Stacks => "Stacks".to_owned(),
            BtcMarketType::RSK => "RSK".to_owned(),
            BtcMarketType::Liquid => "Liquid".to_owned(),
            BtcMarketType::Custom(s) => s.clone(),
        }
    }
}

/// One price level of an order book, in the book's own currency.
#[derive(Debug, Clone, Copy, PartialEq, Eq, Structural)]
pub struct BtcPriceLevel {
    pub price: Dec,
    pub size: Dec,
}

/// The order book one outcome carries on a Bitcoin-side market.
#[derive(Debug)]
pub struct BtcOrderBook {
    pub outcome: String,
    pub bids: Vec<BtcPriceLevel>,
    pub asks: Vec<BtcPriceLevel>,
    pub currency: String,
}

/// A prediction market on a Bitcoin ecosystem.
#[derive(Debug)]
pub struct BtcPredictionMarket {
    pub id: String,
    pub question: String,
    pub outcomes: Vec<String>,
    pub end_time: Option<i64>,
    pub market_type: BtcMarketType,
    pub order_books: Vec<BtcOrderBook>,
}

} // verus!
