//! Where the last price of a security is read from a provider's page.

use vstd::prelude::*;

verus! {

/// One element of one page: the page's address, and the selectors that
/// lead to the element whose text is wanted.
pub struct GetOneElementText {
    pub stock_symbol: String,
    pub url: String,
    pub selector: String,
    pub element: String,
}

/// A target as plain values.
pub struct TargetView {
    pub stock_symbol: Seq<char>,
    pub url: Seq<char>,
    pub selector: Seq<char>,
    pub element: Seq<char>,
}

impl View for GetOneElementText {
    type V = TargetView;

    open spec fn view(&self) -> TargetView {
        TargetView {
            stock_symbol: self.stock_symbol@,
            url: self.url@,
            selector: self.selector@,
            element: self.element@,
        }
    }
}

} // verus!
