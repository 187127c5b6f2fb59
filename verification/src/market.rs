//! The request that asks the marketplace for one product.

use vstd::prelude::*;
use vstd::string::StringExecFns;

verus! {

/// The `User-Agent` header that every request carries.
pub const USER_AGENT: &'static str =
    "Mozilla/5.0 (Macintosh; Intel Mac OS X 10_15_7) AppleWebKit/605.1.15 (KHTML, like Gecko) Version/16.1 Safari/605.1.15";

/// The `Content-Type` header that every request carries.
pub const CONTENT_TYPE: &'static str = "application/json";

/// The address of the product `url_key`, with prices in pounds and the market
/// data included. The key goes in as it is.
pub open spec fn product_url(url_key: Seq<char>) -> Seq<char> {
    "https://stockx.com/api/products/"@ + url_key + "/?currency=GBP&includes=market"@
}

/// Writes the address to fetch for the product `url_key`.
pub fn request_url(url_key: &str) -> (url: String)
    ensures
        url@ == product_url(url_key@),
{
    let mut url = String::from_str("https://stockx.com/api/products/");
    url.append(url_key);
    url.append("/?currency=GBP&includes=market");
    url
}

/// Whether an answer with the HTTP status `status` counts as a success: the
/// statuses from 200 to 299 do, and no other.
pub fn status_accepted(status: u16) -> (accepted: bool)
    ensures
        accepted <==> 200 <= status <= 299,
{
    200 <= status && status <= 299
}

} // verus!
