//! The price of a security on its forum page.

use vstd::prelude::*;
use crate::price::{GetOneElementText, TargetView};

verus! {

/// Where the forum page of a security shows its price.
pub open spec fn target(host: Seq<char>, stock_symbol: Seq<char>) -> TargetView {
    TargetView {
        stock_symbol,
        url: "https://"@ + host + "/forum/stock/"@ + stock_symbol,
        selector: "section > div"@,
        element: "div.stockData__info > div"@,
    }
}

/// Says where to read the price of a security: the page on `host` and the
/// element on it.
pub fn get(host: &str, stock_symbol: &str) -> (wanted: GetOneElementText)
    ensures
        wanted@ == target(host@, stock_symbol@),
{
    let mut url = String::from_str("https://");
    url.append(host);
    url.append("/forum/stock/");
    url.append(stock_symbol);
    GetOneElementText {
        stock_symbol: String::from_str(stock_symbol),
        url,
        selector: String::from_str("section > div"),
        element: String::from_str("div.stockData__info > div"),
    }
}

} // verus!
