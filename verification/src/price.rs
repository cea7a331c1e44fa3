//! The price data that the oracle hands out.

use crate::account::AccountId;
use vstd::prelude::*;

verus! {

/// A span of time in seconds.
pub type DurationSec = u32;

/// A fixed-point price: `multiplier` divided by ten to the power of
/// `decimals`.
#[derive(Debug, Clone, Copy, PartialEq, Eq)]
pub struct Price {
    pub multiplier: u128,
    pub decimals: u8,
}

/// An asset and the oracle's quote for it, `None` where the oracle has none.
#[derive(Debug, PartialEq, Eq)]
pub struct AssetOptionalPrice {
    pub asset_id: AccountId,
    pub price: Option<Price>,
}

/// What an asset price entry says.
pub struct AssetOptionalPriceView {
    pub asset_id: Seq<char>,
    pub price: Option<Price>,
}

impl View for AssetOptionalPrice {
    type V = AssetOptionalPriceView;

    open spec fn view(&self) -> AssetOptionalPriceView {
        AssetOptionalPriceView { asset_id: self.asset_id@, price: self.price }
    }
}

/// A snapshot of the oracle's prices: when it was taken, for how long its
/// quotes count as recent, and the quotes in the oracle's order.
#[derive(Debug, PartialEq, Eq)]
pub struct PriceData {
    /// When the snapshot was taken.
    pub timestamp: u64,
    /// For how long the quotes count as recent.
    pub recency_duration_sec: DurationSec,
    /// The quotes, in the oracle's order.
    pub prices: Vec<AssetOptionalPrice>,
}

/// What a price snapshot says.
pub struct PriceDataView {
    pub timestamp: u64,
    pub recency_duration_sec: DurationSec,
    pub prices: Seq<AssetOptionalPriceView>,
}

impl View for PriceData {
    type V = PriceDataView;

    open spec fn view(&self) -> PriceDataView {
        PriceDataView {
            timestamp: self.timestamp,
            recency_duration_sec: self.recency_duration_sec,
            prices: self.prices@.map_values(|e: AssetOptionalPrice| e@),
        }
    }
}

} // verus!
