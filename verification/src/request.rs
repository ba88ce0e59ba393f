//! Okx HTTP API request types and their routing.
//!
//! Each request kind knows the path it is served under. Turning a private
//! request into a signed wire request needs a clock and a signing key, so
//! that step lives with the unverified edge; the types and the routing are
//! the adapter's own logic and live here.

use vstd::prelude::*;
use vstd::string::StringExecFns;

verus! {

/// Okx HTTP API request types.
pub enum HttpRequest {
    /// Get (public requests).
    Get(Get),
    /// Private Get.
    PrivateGet(PrivateGet),
    /// Private Post.
    PrivatePost(PrivatePost),
}

/// Okx HTTP API public get request types.
pub enum Get {
    /// History candles.
    HistoryCandles(HistoryCandles),
    /// Get instruments.
    Instruments(Instruments),
    /// Earn offers.
    EarnOffers(EarnOffers),
}

impl Get {
    /// The path this request is served under.
    pub fn uri(&self) -> (r: &'static str)
        ensures
            self is HistoryCandles ==> r@ == "/api/v5/market/history-candles"@,
            self is Instruments ==> r@ == "/api/v5/public/instruments"@,
            self is EarnOffers ==> r@ == "/api/v5/finance/staking-defi/offers"@,
    {
        match self {
            Self::HistoryCandles(_) => "/api/v5/market/history-candles",
            Self::Instruments(_) => "/api/v5/public/instruments",
            Self::EarnOffers(_) => "/api/v5/finance/staking-defi/offers",
        }
    }
}

/// Okx HTTP API private get request types.
pub enum PrivateGet {
    /// Order.
    Order(Order),
    /// Earn active orders.
    EarnActiveOrders(EarnActiveOrders),
}

impl PrivateGet {
    /// The HTTP method this request is sent with.
    pub fn method(&self) -> (r: &'static str)
        ensures
            r@ == "GET"@,
    {
        "GET"
    }

    /// The path this request is served under.
    pub fn uri(&self) -> (r: &'static str)
        ensures
            self is Order ==> r@ == "/api/v5/trade/order"@,
            self is EarnActiveOrders ==> r@ == "/api/v5/finance/staking-defi/orders-active"@,
    {
        match self {
            Self::Order(_) => "/api/v5/trade/order",
            Self::EarnActiveOrders(_) => "/api/v5/finance/staking-defi/orders-active",
        }
    }
}

/// Okx HTTP API private post request types.
pub enum PrivatePost {
    /// Earn purchase.
    EarnPurchase(EarnPurchase),
    /// Earn redeem.
    EarnRedeem(EarnRedeem),
}

impl PrivatePost {
    /// The HTTP method this request is sent with.
    pub fn method(&self) -> (r: &'static str)
        ensures
            r@ == "POST"@,
    {
        "POST"
    }

    /// The path this request is served under.
    pub fn uri(&self) -> (r: &'static str)
        ensures
            self is EarnPurchase ==> r@ == "/api/v5/finance/staking-defi/purchase"@,
            self is EarnRedeem ==> r@ == "/api/v5/finance/staking-defi/redeem"@,
    {
        match self {
            Self::EarnPurchase(_) => "/api/v5/finance/staking-defi/purchase",
            Self::EarnRedeem(_) => "/api/v5/finance/staking-defi/redeem",
        }
    }
}

/// A query for historical candles.
pub struct HistoryCandles {
    /// Instrument ID.
    pub inst_id: String,
    /// Pagination: return records earlier than this timestamp.
    pub after: Option<String>,
    /// Pagination: return records newer than this timestamp.
    pub before: Option<String>,
    /// Bar size.
    pub bar: Option<String>,
    /// Number of results per request.
    pub limit: Option<String>,
}

/// A query for the instruments of a market segment.
pub struct Instruments {
    /// Instrument type, e.g. the spot segment.
    pub inst_type: String,
    /// Underlying (Optional).
    pub uly: Option<String>,
    /// Instrument ID (Optional).
    pub inst_id: Option<String>,
}

/// A query for one order's details.
pub struct Order {
    /// Instrument ID.
    pub inst_id: String,
    /// Order ID (Optional).
    pub ord_id: Option<String>,
    /// Client-assigned order ID (Optional).
    pub cl_ord_id: Option<String>,
}

/// Earn Offers.
pub struct EarnOffers {
    /// Product ID (Optional).
    /// Unique identifier for the product.
    pub product_id: Option<String>,
    /// Protocol Type (Optional).
    /// Describes the type of earning mechanism.
    pub protocol_type: Option<String>,
    /// Investment Currency (Optional).
    pub ccy: Option<String>,
}

/// Earn Active Orders.
pub struct EarnActiveOrders {
    /// Product ID (Optional).
    pub product_id: Option<String>,
    /// Protocol Type (Optional).
    pub protocol_type: Option<String>,
    /// Investment Currency (Optional).
    pub ccy: Option<String>,
    /// Order State (Optional).
    pub state: Option<String>,
}

/// Investment Data.
pub struct InvestmentData {
    /// Investment currency.
    pub ccy: String,
    /// Investment amount.
    pub amt: String,
}

/// Earn Purchase.
pub struct EarnPurchase {
    /// Product ID.
    pub product_id: String,
    /// Investment data.
    pub invest_data: Vec<InvestmentData>,
    /// Investment term.
    /// Must be specified for fixed-term product.
    pub term: Option<String>,
    /// Order tag.
    pub tag: Option<String>,
}

/// Earn redeem.
pub struct EarnRedeem {
    /// Order ID.
    pub ord_id: String,
    /// Protocol type.
    pub protocol_type: String,
}

/// The credential headers the key collaborator produced for one request.
/// Computing the signature needs the API secret and the clock, so it stays
/// with that collaborator; placing its output on the wire request is the
/// adapter's own logic.
pub struct SignedHeaders {
    /// The API key.
    pub api_key: String,
    /// The computed signature.
    pub signature: String,
    /// The timestamp the signature covers.
    pub timestamp: String,
    /// The key's passphrase.
    pub passphrase: String,
}

/// Assembles the full request URL and the four credential header pairs of
/// a signed private request: the URL is the host, the path, and the
/// serialized query joined with a question mark, and each header carries
/// exactly the value the key collaborator produced.
pub fn assemble_signed(host: &str, path: &str, query: &str, sign: &SignedHeaders) -> (r: (
    String,
    Vec<(String, String)>,
))
    ensures
        r.0@ == host@ + path@ + "?"@ + query@,
        r.1@.len() == 4,
        r.1@[0].0@ == "OK-ACCESS-KEY"@ && r.1@[0].1@ == sign.api_key@,
        r.1@[1].0@ == "OK-ACCESS-SIGN"@ && r.1@[1].1@ == sign.signature@,
        r.1@[2].0@ == "OK-ACCESS-TIMESTAMP"@ && r.1@[2].1@ == sign.timestamp@,
        r.1@[3].0@ == "OK-ACCESS-PASSPHRASE"@ && r.1@[3].1@ == sign.passphrase@,
{
    let mut url = host.to_owned();
    url.append(path);
    url.append("?");
    url.append(query);
    let mut headers: Vec<(String, String)> = Vec::new();
    headers.push(("OK-ACCESS-KEY".to_owned(), sign.api_key.clone()));
    headers.push(("OK-ACCESS-SIGN".to_owned(), sign.signature.clone()));
    headers.push(("OK-ACCESS-TIMESTAMP".to_owned(), sign.timestamp.clone()));
    headers.push(("OK-ACCESS-PASSPHRASE".to_owned(), sign.passphrase.clone()));
    (url, headers)
}

} // verus!
