//! The logic of a price-fetching contract for the NEAR host, with proofs: the
//! contract keeps a small record in storage, asks an external price oracle
//! for a quote and hands the oracle's answer back to the caller through a
//! continuation.
//!
//! The host runs a contract call by call, so a price query has two phases.
//! [`PriceFetcher::query_price`] says which calls the host is to schedule;
//! [`PriceFetcher::query_price_callback`] decides how the query ends once the
//! oracle's call has resolved. What a call reads from the host (whether the
//! record is in storage, which accounts are calling and being called) comes
//! in as arguments, and what it asks of the host (calls to schedule, log
//! entries, failing the call) goes out in its result.

pub mod account;
pub mod contract;
pub mod price;
mod sdk;

pub use account::AccountId;
pub use contract::{
    CallError, CallbackOutcome, Counter, Method, PriceFetcher, PriceQuery, ScheduledCall,
    DEFAULT_ORACLE, ORACLE_ERROR_LOG, QUOTED_ASSET, TGAS,
};
pub use price::{AssetOptionalPrice, DurationSec, Price, PriceData};
