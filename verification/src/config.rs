//! Configuration values the core decides on.
//!
//! Loading these from a file is I/O and lives outside the library; here the
//! structures are plain data with their defaults, and the trade-time slice
//! of them that the executor consumes.

use vstd::prelude::*;

use crate::fixed::{Dec, SCALE};
use crate::text::clone_opt_string;

verus! {

/// Everything the monitor needs to run.
#[derive(Debug)]
pub struct Config {
    pub general: GeneralConfig,
    pub polymarket: PolymarketConfig,
    pub bitcoin: BitcoinConfig,
    pub trading: TradingConfig,
    pub risk: RiskConfig,
    pub logging: LoggingConfig,
}

/// Thresholds that govern detection and sizing.
#[derive(Debug, Clone, Copy, PartialEq, Eq, Structural)]
pub struct GeneralConfig {
    pub min_profit_threshold: Dec,
    pub max_position_size: Dec,
    pub max_slippage: Dec,
}

/// Access to the Polymarket venue.
#[derive(Debug)]
pub struct PolymarketConfig {
    pub rpc_url: String,
    pub private_key: Option<String>,
    pub network: String,
}

impl Clone for PolymarketConfig {
    fn clone(&self) -> (r: Self)
        ensures
            r == *self,
    {
        PolymarketConfig {
            rpc_url: self.rpc_url.clone(),
            private_key: clone_opt_string(&self.private_key),
            network: self.network.clone(),
        }
    }
}

/// Access to the Bitcoin-side venue, one protocol section per ecosystem.
#[derive(Debug)]
pub struct BitcoinConfig {
    pub protocol: String,
    pub lightning: Option<LightningConfig>,
    pub ordinals: Option<OrdinalsConfig>,
    pub stacks: Option<StacksConfig>,
    pub rsk: Option<RskConfig>,
    pub liquid: Option<LiquidConfig>,
}

impl Clone for BitcoinConfig {
    fn clone(&self) -> (r: Self)
        ensures
            r == *self,
    {
        BitcoinConfig {
            protocol: self.protocol.clone(),
            lightning: match &self.lightning {
                Some(c) => Some(c.clone()),
                None => None,
            },
            ordinals: match &self.ordinals {
                Some(c) => Some(c.clone()),
                None => None,
            },
            stacks: match &self.stacks {
                Some(c) => Some(c.clone()),
                None => None,
            },
            rsk: match &self.rsk {
                Some(c) => Some(c.clone()),
                None => None,
            },
            liquid: match &self.liquid {
                Some(c) => Some(c.clone()),
                None => None,
            },
        }
    }
}

/// A Lightning Network node.
#[derive(Debug)]
pub struct LightningConfig {
    pub endpoint: String,
    pub macaroon_path: Option<String>,
    pub cert_path: Option<String>,
}

impl Clone for LightningConfig {
    fn clone(&self) -> (r: Self)
        ensures
            r == *self,
    {
        LightningConfig {
            endpoint: self.endpoint.clone(),
            macaroon_path: clone_opt_string(&self.macaroon_path),
            cert_path: clone_opt_string(&self.cert_path),
        }
    }
}

/// An Ordinals wallet.
#[derive(Debug)]
pub struct OrdinalsConfig {
    pub address: String,
    pub ordinal_id: String,
}

impl Clone for OrdinalsConfig {
    fn clone(&self) -> (r: Self)
        ensures
            r == *self,
    {
        OrdinalsConfig { address: self.address.clone(), ordinal_id: self.ordinal_id.clone() }
    }
}

/// A Stacks account.
#[derive(Debug)]
pub struct StacksConfig {
    pub network: String,
    pub private_key: Option<String>,
}

impl Clone for StacksConfig {
    fn clone(&self) -> (r: Self)
        ensures
            r == *self,
    {
        StacksConfig {
            network: self.network.clone(),
            private_key: clone_opt_string(&self.private_key),
        }
    }
}

/// An RSK account.
#[derive(Debug)]
pub struct RskConfig {
    pub rpc_url: String,
    pub private_key: Option<String>,
}

impl Clone for RskConfig {
    fn clone(&self) -> (r: Self)
        ensures
            r == *self,
    {
        RskConfig { rpc_url: self.rpc_url.clone(), private_key: clone_opt_string(&self.private_key) }
    }
}

/// A Liquid account.
#[derive(Debug)]
pub struct LiquidConfig {
    pub rpc_url: String,
    pub private_key: Option<String>,
}

impl Clone for LiquidConfig {
    fn clone(&self) -> (r: Self)
        ensures
            r == *self,
    {
        LiquidConfig {
            rpc_url: self.rpc_url.clone(),
            private_key: clone_opt_string(&self.private_key),
        }
    }
}

/// Whether and how aggressively trades are placed.
#[derive(Debug, Clone, Copy, PartialEq, Eq, Structural)]
pub struct TradingConfig {
    pub auto_execute: bool,
    pub require_confirmation: bool,
    pub max_concurrent_trades: u32,
}

/// Exposure limits the pre-trade risk check enforces.
#[derive(Debug, Clone, Copy, PartialEq, Eq, Structural)]
pub struct RiskConfig {
    pub max_daily_loss: Dec,
    pub stop_on_max_loss: bool,
    pub max_open_positions: u32,
}

/// Where and how much to log.
#[derive(Debug)]
pub struct LoggingConfig {
    pub level: String,
    pub file: String,
}

impl Clone for LoggingConfig {
    fn clone(&self) -> (r: Self)
        ensures
            r == *self,
    {
        LoggingConfig { level: self.level.clone(), file: self.file.clone() }
    }
}

impl Clone for Config {
    fn clone(&self) -> (r: Self)
        ensures
            r == *self,
    {
        Config {
            general: self.general,
            polymarket: self.polymarket.clone(),
            bitcoin: self.bitcoin.clone(),
            trading: self.trading,
            risk: self.risk,
            logging: self.logging.clone(),
        }
    }
}

// Default values, each a function of its own so that callers and the
// `Default` impls agree by contract.

/// Default minimum implied profit: 0.05 (five percent).
pub fn default_min_profit() -> (r: Dec)
    ensures
        r.units == 50_000,
{
    Dec { units: 50_000 }
}

/// Default position size cap: 1000.0.
pub fn default_max_position() -> (r: Dec)
    ensures
        r.units == 1000 * SCALE,
{
    Dec { units: 1_000_000_000 }
}

/// Default slippage tolerance: 0.01.
pub fn default_max_slippage() -> (r: Dec)
    ensures
        r.units == 10_000,
{
    Dec { units: 10_000 }
}

/// Default Polymarket network name.
pub fn default_network() -> (r: String)
    ensures
        r@ == "polygon"@,
{
    "polygon".to_owned()
}

/// Trades are not placed automatically unless asked for.
pub fn default_auto_execute() -> (r: bool)
    ensures
        r == false,
{
    false
}

/// Manual confirmation is required by default.
pub fn default_require_confirmation() -> (r: bool)
    ensures
        r == true,
{
    true
}

/// Default ceiling on concurrently running trades.
pub fn default_max_concurrent() -> (r: u32)
    ensures
        r == 3,
{
    3
}

/// Default realized-loss bound: -500.0.  Realized profit-and-loss below
/// this negative bound counts as a breach.
pub fn default_max_daily_loss() -> (r: Dec)
    ensures
        r.units == -500 * SCALE,
{
    Dec { units: -500_000_000 }
}

/// Trading stops on a breached loss bound by default.
pub fn default_stop_on_loss() -> (r: bool)
    ensures
        r == true,
{
    true
}

/// Default ceiling on simultaneously open positions.
pub fn default_max_positions() -> (r: u32)
    ensures
        r == 5,
{
    5
}

/// Default log level.
pub fn default_log_level() -> (r: String)
    ensures
        r@ == "info"@,
{
    "info".to_owned()
}

/// Default log file path.
pub fn default_log_file() -> (r: String)
    ensures
        r@ == "/var/log/polymarket-btc-arb.log"@,
{
    "/var/log/polymarket-btc-arb.log".to_owned()
}

impl Default for GeneralConfig {
    /// The documented detection and sizing defaults.
    fn default() -> (r: Self)
        ensures
            r.min_profit_threshold.units == 50_000,
            r.max_position_size.units == 1000 * SCALE,
            r.max_slippage.units == 10_000,
    {
        GeneralConfig {
            min_profit_threshold: default_min_profit(),
            max_position_size: default_max_position(),
            max_slippage: default_max_slippage(),
        }
    }
}

impl Default for PolymarketConfig {
    /// The public Polygon endpoint, no key.
    fn default() -> (r: Self)
        ensures
            r.rpc_url@ == "https://polygon-rpc.com"@,
            r.private_key is None,
            r.network@ == "polygon"@,
    {
        PolymarketConfig {
            rpc_url: "https://polygon-rpc.com".to_owned(),
            private_key: None,
            network: default_network(),
        }
    }
}

impl Default for BitcoinConfig {
    /// Lightning by name, with no protocol section configured.
    fn default() -> (r: Self)
        ensures
            r.protocol@ == "lightning"@,
            r.lightning is None,
            r.ordinals is None,
            r.stacks is None,
            r.rsk is None,
            r.liquid is None,
    {
        BitcoinConfig {
            protocol: "lightning".to_owned(),
            lightning: None,
            ordinals: None,
            stacks: None,
            rsk: None,
            liquid: None,
        }
    }
}

impl Default for TradingConfig {
    /// Monitoring only: nothing is executed or unconfirmed by default.
    fn default() -> (r: Self)
        ensures
            r.auto_execute == false,
            r.require_confirmation == true,
            r.max_concurrent_trades == 3,
    {
        TradingConfig {
            auto_execute: default_auto_execute(),
            require_confirmation: default_require_confirmation(),
            max_concurrent_trades: default_max_concurrent(),
        }
    }
}

impl Default for RiskConfig {
    /// The documented exposure limits.
    fn default() -> (r: Self)
        ensures
            r.max_daily_loss.units == -500 * SCALE,
            r.stop_on_max_loss == true,
            r.max_open_positions == 5,
    {
        RiskConfig {
            max_daily_loss: default_max_daily_loss(),
            stop_on_max_loss: default_stop_on_loss(),
            max_open_positions: default_max_positions(),
        }
    }
}

impl Default for LoggingConfig {
    /// The documented logging defaults.
    fn default() -> (r: Self)
        ensures
            r.level@ == "info"@,
            r.file@ == "/var/log/polymarket-btc-arb.log"@,
    {
        LoggingConfig { level: default_log_level(), file: default_log_file() }
    }
}

impl Default for Config {
    /// Every section at its documented default.
    fn default() -> (r: Self)
        ensures
            r.trading.auto_execute == false,
            r.general.min_profit_threshold.units == 50_000,
            r.risk.max_open_positions == 5,
    {
        Config {
            general: GeneralConfig::default(),
            polymarket: PolymarketConfig::default(),
            bitcoin: BitcoinConfig::default(),
            trading: TradingConfig::default(),
            risk: RiskConfig::default(),
            logging: LoggingConfig::default(),
        }
    }
}

/// The slice of the configuration that one execution attempt consumes.
#[derive(Debug)]
pub struct TradeConfig {
    pub polymarket_wallet: PolymarketConfig,
    pub btc_wallet: BitcoinConfig,
    pub max_position_size: Dec,
    pub min_profit_threshold: Dec,
    pub max_slippage: Dec,
    pub require_confirmation: bool,
}

impl TradeConfig {
    /// The trade-time slice of a full configuration.
    pub fn from_config(config: &Config) -> (r: Self)
        ensures
            r.polymarket_wallet == config.polymarket,
            r.btc_wallet == config.bitcoin,
            r.max_position_size == config.general.max_position_size,
            r.min_profit_threshold == config.general.min_profit_threshold,
            r.max_slippage == config.general.max_slippage,
            r.require_confirmation == config.trading.require_confirmation,
    {
        TradeConfig {
            polymarket_wallet: config.polymarket.clone(),
            btc_wallet: config.bitcoin.clone(),
            max_position_size: config.general.max_position_size,
            min_profit_threshold: config.general.min_profit_threshold,
            max_slippage: config.general.max_slippage,
            require_confirmation: config.trading.require_confirmation,
        }
    }
}

impl Clone for TradeConfig {
    fn clone(&self) -> (r: Self)
        ensures
            r == *self,
    {
        TradeConfig {
            polymarket_wallet: self.polymarket_wallet.clone(),
            btc_wallet: self.btc_wallet.clone(),
            max_position_size: self.max_position_size,
            min_profit_threshold: self.min_profit_threshold,
            max_slippage: self.max_slippage,
            require_confirmation: self.require_confirmation,
        }
    }
}

impl Default for TradeConfig {
    /// The trade-time slice of the default configuration.
    fn default() -> (r: Self)
        ensures
            r.max_position_size.units == 1000 * SCALE,
            r.min_profit_threshold.units == 50_000,
            r.max_slippage.units == 10_000,
            r.require_confirmation == true,
    {
        TradeConfig {
            polymarket_wallet: PolymarketConfig::default(),
            btc_wallet: BitcoinConfig::default(),
            max_position_size: default_max_position(),
            min_profit_threshold: default_min_profit(),
            max_slippage: default_max_slippage(),
            require_confirmation: default_require_confirmation(),
        }
    }
}

} // verus!

// The original module published these under wallet-oriented aliases.
pub use self::BitcoinConfig as BtcWalletConfig;
pub use self::PolymarketConfig as PolymarketWalletConfig;
