//! What the data providers hand back: one record per security and period.

use vstd::prelude::*;
use crate::amount::Amount;
use crate::calendar::Quarter;
use vstd::hash_map::StringHashMap;

verus! {

/// A company profile with the figures of one quarter.
pub struct Profile {
    pub security_code: String,
    pub year: i32,
    pub quarter: String,
    pub gross_profit: Amount,
    pub operating_profit_margin: Amount,
    pub pre_tax_income: Amount,
    pub net_income: Amount,
    pub net_asset_value_per_share: Amount,
    pub sales_per_share: Amount,
    pub earnings_per_share: Amount,
    pub profit_before_tax: Amount,
    pub return_on_equity: Amount,
    pub return_on_assets: Amount,
}

/// The profit figures of one period, as a second provider reports them.
pub struct Profit {
    pub security_code: String,
    pub year: i32,
    pub quarter: String,
    pub gross_profit: Amount,
    pub operating_profit_margin: Amount,
    pub pre_tax_income: Amount,
    pub net_income: Amount,
    pub net_asset_value_per_share: Amount,
    pub sales_per_share: Amount,
    pub earnings_per_share: Amount,
    pub profit_before_tax: Amount,
    pub return_on_equity: Amount,
    pub return_on_assets: Amount,
}

/// The earnings per share of one quarter, as the exchange reports them.
pub struct Eps {
    pub stock_symbol: String,
    pub year: i32,
    pub quarter: Quarter,
    pub earnings_per_share: Amount,
}

/// A profile as plain values.
pub struct ProfileView {
    pub security_code: Seq<char>,
    pub year: i32,
    pub quarter: Seq<char>,
    pub gross_profit: Amount,
    pub operating_profit_margin: Amount,
    pub pre_tax_income: Amount,
    pub net_income: Amount,
    pub net_asset_value_per_share: Amount,
    pub sales_per_share: Amount,
    pub earnings_per_share: Amount,
    pub profit_before_tax: Amount,
    pub return_on_equity: Amount,
    pub return_on_assets: Amount,
}

impl View for Profile {
    type V = ProfileView;

    open spec fn view(&self) -> ProfileView {
        ProfileView {
            security_code: self.security_code@,
            year: self.year,
            quarter: self.quarter@,
            gross_profit: self.gross_profit,
            operating_profit_margin: self.operating_profit_margin,
            pre_tax_income: self.pre_tax_income,
            net_income: self.net_income,
            net_asset_value_per_share: self.net_asset_value_per_share,
            sales_per_share: self.sales_per_share,
            earnings_per_share: self.earnings_per_share,
            profit_before_tax: self.profit_before_tax,
            return_on_equity: self.return_on_equity,
            return_on_assets: self.return_on_assets,
        }
    }
}

impl View for Profit {
    type V = ProfileView;

    open spec fn view(&self) -> ProfileView {
        ProfileView {
            security_code: self.security_code@,
            year: self.year,
            quarter: self.quarter@,
            gross_profit: self.gross_profit,
            operating_profit_margin: self.operating_profit_margin,
            pre_tax_income: self.pre_tax_income,
            net_income: self.net_income,
            net_asset_value_per_share: self.net_asset_value_per_share,
            sales_per_share: self.sales_per_share,
            earnings_per_share: self.earnings_per_share,
            profit_before_tax: self.profit_before_tax,
            return_on_equity: self.return_on_equity,
            return_on_assets: self.return_on_assets,
        }
    }
}

impl Profile {
    /// A copy of the profile.
    pub fn duplicate(&self) -> (copy: Profile)
        ensures
            copy@ == self@,
    {
        Profile {
            security_code: self.security_code.clone(),
            year: self.year,
            quarter: self.quarter.clone(),
            gross_profit: self.gross_profit,
            operating_profit_margin: self.operating_profit_margin,
            pre_tax_income: self.pre_tax_income,
            net_income: self.net_income,
            net_asset_value_per_share: self.net_asset_value_per_share,
            sales_per_share: self.sales_per_share,
            earnings_per_share: self.earnings_per_share,
            profit_before_tax: self.profit_before_tax,
            return_on_equity: self.return_on_equity,
            return_on_assets: self.return_on_assets,
        }
    }
}

/// A provider with a fixed set of answers: asked about a security it has an
/// answer for, it hands the profile back; asked about any other, it fails.
pub struct ProfileSource {
    answers: StringHashMap<Profile>,
}

impl View for ProfileSource {
    type V = Map<Seq<char>, ProfileView>;

    closed spec fn view(&self) -> Map<Seq<char>, ProfileView> {
        self.answers@.map_values(|profile: Profile| profile@)
    }
}

impl ProfileSource {
    /// A provider that fails whatever it is asked.
    pub fn new() -> (source: ProfileSource)
        ensures
            source@ == Map::<Seq<char>, ProfileView>::empty(),
    {
        let source = ProfileSource { answers: StringHashMap::new() };
        assert(source@ =~= Map::<Seq<char>, ProfileView>::empty());
        source
    }

    /// Fixes the answer for a security, in place of an earlier one.
    pub fn answer(&mut self, stock_symbol: &str, profile: Profile)
        ensures
            final(self)@ == old(self)@.insert(stock_symbol@, profile@),
    {
        self.answers.insert(String::from_str(stock_symbol), profile);
        assert(self@ =~= old(self)@.insert(stock_symbol@, profile@));
    }

    /// Asks about a security.  `None` stands for a failed request.
    pub fn fetch(&self, stock_symbol: &str) -> (profile: Option<Profile>)
        ensures
            profile is Some <==> self@.contains_key(stock_symbol@),
            profile matches Some(p) ==> p@ == self@[stock_symbol@],
    {
        match self.answers.get(stock_symbol) {
            Some(profile) => Some(profile.duplicate()),
            None => None,
        }
    }
}

} // verus!
