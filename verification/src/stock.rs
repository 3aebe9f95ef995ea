//! Listed securities.

use vstd::prelude::*;
use crate::amount::Amount;

verus! {

/// The symbol and the name of a security.
#[derive(Debug)]
pub struct SymbolAndName {
    pub stock_symbol: String,
    pub name: String,
}

/// A listed security, as far as a backfill needs to know it.
pub struct Stock {
    pub stock_symbol: String,
    pub net_asset_value_per_share: Amount,
    /// Preference shares file no statements of their own.
    pub preference_shares: bool,
}

/// A security as plain values.
pub struct StockView {
    pub stock_symbol: Seq<char>,
    pub net_asset_value_per_share: Amount,
    pub preference_shares: bool,
}

impl View for Stock {
    type V = StockView;

    open spec fn view(&self) -> StockView {
        StockView {
            stock_symbol: self.stock_symbol@,
            net_asset_value_per_share: self.net_asset_value_per_share,
            preference_shares: self.preference_shares,
        }
    }
}

/// The securities of a list as plain values, in order.
pub open spec fn stock_views(stocks: Seq<Stock>) -> Seq<StockView> {
    stocks.map_values(|stock: Stock| stock@)
}

impl Stock {
    /// A security with the symbol, no net asset value on file.
    pub fn new(stock_symbol: String, preference_shares: bool) -> (stock: Stock)
        ensures
            stock@ == (StockView {
                stock_symbol: stock_symbol@,
                net_asset_value_per_share: Amount { mantissa: 0, scale: 0 },
                preference_shares,
            }),
    {
        Stock { stock_symbol, net_asset_value_per_share: Amount::zero(), preference_shares }
    }

    /// A copy of the security.
    pub fn duplicate(&self) -> (copy: Stock)
        ensures
            copy@ == self@,
    {
        Stock {
            stock_symbol: self.stock_symbol.clone(),
            net_asset_value_per_share: self.net_asset_value_per_share,
            preference_shares: self.preference_shares,
        }
    }

    /// Whether the security is a preference share.
    pub fn is_preference_shares(&self) -> (preference: bool)
        ensures
            preference == self@.preference_shares,
    {
        self.preference_shares
    }
}

impl SymbolAndName {
    /// Pairs a symbol with a name.
    pub fn new(stock_symbol: String, name: String) -> (pair: SymbolAndName)
        ensures
            pair.stock_symbol@ == stock_symbol@,
            pair.name@ == name@,
    {
        SymbolAndName { stock_symbol, name }
    }
}

} // verus!
