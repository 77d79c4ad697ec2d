//! Core logic of a cross-venue arbitrage monitor for binary-outcome markets.
//!
//! The crate compares prices quoted for the same real-world outcome on two
//! independent venues, detects price gaps that imply a profit, and tracks the
//! positions that were opened on detected opportunities.  All money amounts
//! are exact fixed-point decimals; no binary floating point is used anywhere.
//!
//! The pieces, leaf first: [`matcher`] decides whether two differently worded
//! outcome labels denote the same outcome; [`arbitrage`] turns a matched pair
//! of quotes into a scored opportunity; [`positions`] owns the table of trade
//! positions and their profit-and-loss; [`trader`] executes both legs of an
//! opportunity behind a pre-trade risk check; [`monitor`] holds the decisions
//! of one monitoring tick.  Market data arrives through the plain values of
//! [`models`], money is the fixed-point decimal of [`fixed`], and the only
//! unverified calls are the wall clock in [`clock`] and the standard
//! library's Unicode lower-casing and character classification in [`text`].

pub mod arbitrage;
pub mod btc;
pub mod btc_market;
pub mod clock;
pub mod config;
pub mod errors;
pub mod fixed;
pub mod matcher;
pub mod models;
pub mod monitor;
pub mod positions;
pub mod text;
pub mod trader;

pub use fixed::Dec;
pub use fixed::SCALE;
