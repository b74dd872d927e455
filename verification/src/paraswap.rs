//! The exchange-quote provider: prices a token by what a fixed amount of it trades for.

use vstd::prelude::*;
use crate::coingecko::{read_token_id, write_listing_url};
use crate::error::{reads_as, Call, ErrorKind, ScanError, ScanErrorView};
use crate::json::{is_keyed_selector, read_scalar, scalar_of, walk, walked, Scalar, ScalarView};
use crate::price_provider::{listing_url, token_id_reading, Price, PriceView};
use crate::retry::{fetch, fetch_step, FetchStep};
use crate::text::same_text;

verus! {

/// The exchange-quote provider.
#[derive(Clone, Copy, Debug, PartialEq, Eq, Structural)]
pub struct Paraswap;

/// The token that stands for a quote currency: the native coin for `eth`, a dollar token for
/// `usd`, none for any other code.
pub open spec fn quote_token_of(versus: Seq<char>) -> Option<Seq<char>> {
    if versus == "eth"@ {
        Some("0xeeeeeeeeeeeeeeeeeeeeeeeeeeeeeeeeeeeeeeee"@)
    } else if versus == "usd"@ {
        Some("0xdac17f958d2ee523a2206206994597c13d831ec7"@)
    } else {
        None
    }
}

/// Where the provider quotes a fixed amount of one token in another.
pub open spec fn price_url_of(
    from_contract_address: Seq<char>,
    to_contract_address: Seq<char>,
) -> Seq<char> {
    "https://apiv5.paraswap.io/prices/?srcToken="@ + from_contract_address + "&destToken="@
        + to_contract_address + "&amount="@ + "1000000000000"@ + "&network=1"@
}

/// The selector of the amount that a route arrives at.
pub open spec fn route_selector() -> Seq<char> {
    "\"priceRoute\".\"destAmount\""@
}

/// The price that a selected value gives: a text as written, else none.
pub open spec fn route_price_from(node: ScalarView) -> PriceView {
    match node {
        ScalarView::Text(text) => PriceView::Quoted(text),
        _ => PriceView::Unquoted,
    }
}

/// The price that the provider's answer holds.
pub open spec fn paraswap_price(document: serde_json::Value) -> PriceView {
    match walked(document, route_selector()) {
        Some(value) => route_price_from(scalar_of(value)),
        None => PriceView::Unquoted,
    }
}

/// The failure of a currency that the provider does not quote in.
pub open spec fn quote_failure(versus: Seq<char>) -> ScanErrorView {
    ScanErrorView { kind: ErrorKind::QuoteCurrency, subject: versus, detail: Seq::empty() }
}

/// The token that stands for a quote currency, or the failure that names the currency.
pub open spec fn quote_token_reading(versus: Seq<char>) -> Result<Seq<char>, ScanErrorView> {
    match quote_token_of(versus) {
        Some(token) => Ok(token),
        None => Err(quote_failure(versus)),
    }
}

/// Where the provider quotes a token in a currency, or the failure that names the currency.
pub open spec fn price_url_reading(from_contract_address: Seq<char>, versus: Seq<char>) -> Result<
    Seq<char>,
    ScanErrorView,
> {
    match quote_token_of(versus) {
        Some(token) => Ok(price_url_of(from_contract_address, token)),
        None => Err(quote_failure(versus)),
    }
}

/// The price that the provider's answer holds in a currency, or the failure that names the
/// currency.
pub open spec fn paraswap_price_reading(document: serde_json::Value, versus: Seq<char>) -> Result<
    PriceView,
    ScanErrorView,
> {
    match quote_token_of(versus) {
        Some(_) => Ok(paraswap_price(document)),
        None => Err(quote_failure(versus)),
    }
}

/// The route selector names keys and nothing else.
pub proof fn lemma_route_selector_keyed()
    ensures
        is_keyed_selector(route_selector()),
{
    reveal_strlit("\"priceRoute\".\"destAmount\"");
}

/// Reads a price off a selected value: a text as written, else none.
pub fn route_price_from_scalar(node: Scalar) -> (price: Price)
    ensures
        price@ == route_price_from(node@),
{
    match node {
        Scalar::Text(text) => Price::Quoted(text),
        _ => Price::Unquoted,
    }
}

/// The token that stands for a quote currency, or the failure that names the currency.
pub fn quote_token(versus: &str) -> (r: Result<&'static str, ScanError>)
    ensures
        reads_as(r, quote_token_reading(versus@)),
{
    if same_text(versus, "eth") {
        Ok("0xeeeeeeeeeeeeeeeeeeeeeeeeeeeeeeeeeeeeeeee")
    } else if same_text(versus, "usd") {
        Ok("0xdac17f958d2ee523a2206206994597c13d831ec7")
    } else {
        Err(ScanError::about(ErrorKind::QuoteCurrency, versus))
    }
}

impl Paraswap {
    /// One step of the retry envelope round a call to this provider.
    pub fn fetch(&self, body: Option<&str>, retry: u32) -> (step: FetchStep)
        ensures
            step@ == fetch_step(
                Call::Paraswap,
                retry,
                match body {
                    Some(text) => Some(text@),
                    None => None,
                },
            ),
    {
        fetch(Call::Paraswap, body, retry)
    }

    /// Where to ask for the listing of the token at a contract address.
    pub fn token_id_url(&self, contract_address: &str) -> (url: String)
        ensures
            url@ == listing_url(contract_address@),
    {
        write_listing_url(contract_address)
    }

    /// Reads the token's identifier out of a listing. A listing without an `id` is a failure of
    /// kind `Selection` of this provider's call; an `id` that is no string gives the empty
    /// identifier.
    pub fn get_token_id_from_contract_address(&self, document: &serde_json::Value) -> (r: Result<
        String,
        ScanError,
    >)
        ensures
            reads_as(r, token_id_reading(*document, Call::Paraswap)),
    {
        read_token_id(document, Call::Paraswap)
    }

    /// Where to ask what a fixed amount of the token trades for in `versus`. Only `usd` and
    /// `eth` are quoted.
    pub fn price_url(&self, from_contract_address: &str, versus: &str) -> (r: Result<
        String,
        ScanError,
    >)
        ensures
            reads_as(r, price_url_reading(from_contract_address@, versus@)),
    {
        match quote_token(versus) {
            Ok(to_contract_address) => {
                let mut url = String::from_str("https://apiv5.paraswap.io/prices/?srcToken=");
                url.append(from_contract_address);
                url.append("&destToken=");
                url.append(to_contract_address);
                url.append("&amount=");
                url.append("1000000000000");
                url.append("&network=1");
                Ok(url)
            },
            Err(error) => Err(error),
        }
    }

    /// Reads the price out of the provider's answer. A currency that the provider does not
    /// quote in is a failure; an answer without a route gives `Unquoted`.
    pub fn get_token_price(
        &self,
        document: &serde_json::Value,
        from_contract_address: &str,
        versus: &str,
    ) -> (r: Result<Price, ScanError>)
        ensures
            reads_as(r, paraswap_price_reading(*document, versus@)),
    {
        match quote_token(versus) {
            Ok(_) => {
                proof {
                    lemma_route_selector_keyed();
                }
                match walk(document, "\"priceRoute\".\"destAmount\"") {
                    Ok(value) => Ok(route_price_from_scalar(read_scalar(&value))),
                    Err(_) => Ok(Price::Unquoted),
                }
            },
            Err(error) => Err(error),
        }
    }
}

} // verus!
