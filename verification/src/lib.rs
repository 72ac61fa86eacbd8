//! Fee quoting for a rollup node: an exact-rational fee algorithm, the
//! token-eligibility rule over a liquidity cache, and the routing rule of the
//! worker pool. Everything here is a function on values; channels, clocks and
//! upstream oracles belong to the program around it.

pub mod balancer;
pub mod config;
pub mod fee;
pub mod rational;
pub mod ticker;
pub mod validator;

pub use balancer::TickerBalancer;
pub use config::{CostConstants, GasCosts, GasOperationsCost, TickerConfig};
pub use fee::{Address, Fee, OpChunks, OutputFeeType, TickerError, Token, TxFeeTypes};
pub use ticker::{
    FeeTicker, TickerRequest, TickerResponse, TokenLike, TokenPriceRequestType, Upstream,
    UpstreamNeeds,
};
pub use validator::{FeeTokenValidator, LiquidityEntry};
