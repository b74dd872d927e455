//! The price providers as a closed set, tried in a fixed order.

use vstd::prelude::*;
use crate::coingecko::{coingecko_price, Coingecko};
use crate::error::{reads_as, selection_failure, Call, ScanError, ScanErrorView};
use crate::json::{node_missing, walked, ScalarView};
use crate::paraswap::{paraswap_price_reading, Paraswap};
use crate::retry::{fetch_step, FetchStep};

verus! {

/// A price as a provider wrote it, or the word that it has none.
///
/// `Unquoted` is the zero sentinel: no listing, no quote. It is data, not a failure, and values
/// the holding at nothing.
#[derive(Clone, Debug, PartialEq, Eq)]
pub enum Price {
    Unquoted,
    Quoted(String),
}

/// A `Price` over sequences of characters.
pub enum PriceView {
    Unquoted,
    Quoted(Seq<char>),
}

impl View for Price {
    type V = PriceView;

    open spec fn view(&self) -> PriceView {
        match self {
            Price::Unquoted => PriceView::Unquoted,
            Price::Quoted(text) => PriceView::Quoted(text@),
        }
    }
}

impl Price {
    /// Whether the provider gave a quote.
    pub fn is_quoted(&self) -> (r: bool)
        ensures
            r == (self@ is Quoted),
    {
        match self {
            Price::Unquoted => false,
            Price::Quoted(_) => true,
        }
    }
}

/// The selector of a token's identifier in a listing.
pub open spec fn id_selector() -> Seq<char> {
    "\"id\""@
}

/// The identifier that a selected value gives: its text, or the empty identifier.
pub open spec fn token_id_from(node: ScalarView) -> Seq<char> {
    match node {
        ScalarView::Text(text) => text,
        _ => Seq::empty(),
    }
}

/// The identifier that a listing holds, or the failure of the call that asked for it.
pub open spec fn token_id_reading(document: serde_json::Value, call: Call) -> Result<
    Seq<char>,
    ScanErrorView,
> {
    match walked(document, id_selector()) {
        Some(value) => Ok(token_id_from(crate::json::scalar_of(value))),
        None => Err(selection_failure(call, node_missing("id"@))),
    }
}

/// Where a provider lists the token at a contract address.
pub open spec fn listing_url(contract_address: Seq<char>) -> Seq<char> {
    "https://api.coingecko.com/api/v3/coins/ethereum/contract/"@ + contract_address
}

/// A price provider: the market-data provider first, the exchange-quote provider second.
#[derive(Clone, Copy, Debug, PartialEq, Eq)]
pub enum PriceProvider {
    Coingecko(Coingecko),
    Paraswap(Paraswap),
}

/// How many providers the chain holds.
pub const PROVIDERS: usize = 2;

/// The call that goes to a provider.
pub open spec fn call_of(provider: PriceProvider) -> Call {
    match provider {
        PriceProvider::Coingecko(_) => Call::Coingecko,
        PriceProvider::Paraswap(_) => Call::Paraswap,
    }
}

/// The provider at a place in the chain.
pub open spec fn provider_at(index: int) -> PriceProvider {
    if index == 0 {
        PriceProvider::Coingecko(Coingecko)
    } else {
        PriceProvider::Paraswap(Paraswap)
    }
}

/// What a provider prices a token by: the market-data provider by its identifier, the
/// exchange-quote provider by the contract address.
pub open spec fn pricing_key_of(
    provider: PriceProvider,
    token_id: Seq<char>,
    contract_address: Seq<char>,
) -> Seq<char> {
    match provider {
        PriceProvider::Coingecko(_) => token_id,
        PriceProvider::Paraswap(_) => contract_address,
    }
}

/// Where a provider quotes a key in a currency, or the failure that names the currency.
pub open spec fn price_url_reading(
    provider: PriceProvider,
    key: Seq<char>,
    versus: Seq<char>,
) -> Result<Seq<char>, ScanErrorView> {
    match provider {
        PriceProvider::Coingecko(_) => Ok(crate::coingecko::price_url_of(key, versus)),
        PriceProvider::Paraswap(_) => crate::paraswap::price_url_reading(key, versus),
    }
}

/// The price that a provider's answer holds for a key and a quote currency.
pub open spec fn price_reading(
    provider: PriceProvider,
    document: serde_json::Value,
    key: Seq<char>,
    versus: Seq<char>,
) -> Result<PriceView, ScanErrorView> {
    match provider {
        PriceProvider::Coingecko(_) => Ok(coingecko_price(document, key, versus)),
        PriceProvider::Paraswap(_) => paraswap_price_reading(document, versus),
    }
}

impl PriceProvider {
    /// The provider at a place in the chain, `None` past its end.
    pub fn at(index: usize) -> (r: Option<PriceProvider>)
        ensures
            r == if index < PROVIDERS {
                Some(provider_at(index as int))
            } else {
                None
            },
    {
        if index == 0 {
            Some(PriceProvider::Coingecko(Coingecko))
        } else if index == 1 {
            Some(PriceProvider::Paraswap(Paraswap))
        } else {
            None
        }
    }

    /// The call that goes to the provider.
    pub fn call(&self) -> (r: Call)
        ensures
            r == call_of(*self),
    {
        match self {
            PriceProvider::Coingecko(_) => Call::Coingecko,
            PriceProvider::Paraswap(_) => Call::Paraswap,
        }
    }

    /// What the provider prices a token by.
    pub fn pricing_key<'a>(&self, token_id: &'a str, contract_address: &'a str) -> (r: &'a str)
        ensures
            r@ == pricing_key_of(*self, token_id@, contract_address@),
    {
        match self {
            PriceProvider::Coingecko(_) => token_id,
            PriceProvider::Paraswap(_) => contract_address,
        }
    }

    /// One step of the retry envelope round a call to this provider.
    pub fn fetch(&self, body: Option<&str>, retry: u32) -> (step: FetchStep)
        ensures
            step@ == fetch_step(
                call_of(*self),
                retry,
                match body {
                    Some(text) => Some(text@),
                    None => None,
                },
            ),
    {
        match self {
            PriceProvider::Coingecko(provider) => provider.fetch(body, retry),
            PriceProvider::Paraswap(provider) => provider.fetch(body, retry),
        }
    }

    /// Where to ask for the listing of the token at a contract address.
    pub fn token_id_url(&self, contract_address: &str) -> (url: String)
        ensures
            url@ == listing_url(contract_address@),
    {
        match self {
            PriceProvider::Coingecko(provider) => provider.token_id_url(contract_address),
            PriceProvider::Paraswap(provider) => provider.token_id_url(contract_address),
        }
    }

    /// Reads the token's identifier out of a listing. A listing without an `id` is a failure of
    /// kind `Selection`; an `id` that is no string gives the empty identifier.
    pub fn get_token_id_from_contract_address(&self, document: &serde_json::Value) -> (r: Result<
        String,
        ScanError,
    >)
        ensures
            reads_as(r, token_id_reading(*document, call_of(*self))),
    {
        match self {
            PriceProvider::Coingecko(provider) => provider.get_token_id_from_contract_address(
                document,
            ),
            PriceProvider::Paraswap(provider) => provider.get_token_id_from_contract_address(
                document,
            ),
        }
    }

    /// Where to ask for the price of `key` in `versus`. The exchange-quote provider quotes in
    /// `usd` and `eth` only, and has no address for any other currency.
    pub fn price_url(&self, key: &str, versus: &str) -> (r: Result<String, ScanError>)
        ensures
            reads_as(r, price_url_reading(*self, key@, versus@)),
    {
        match self {
            PriceProvider::Coingecko(provider) => Ok(provider.price_url(key, versus)),
            PriceProvider::Paraswap(provider) => provider.price_url(key, versus),
        }
    }

    /// Reads the price of `key` in `versus` out of the provider's answer. An answer without a
    /// quote gives `Unquoted`, not a failure.
    pub fn get_token_price(&self, document: &serde_json::Value, key: &str, versus: &str) -> (r:
        Result<Price, ScanError>)
        ensures
            reads_as(r, price_reading(*self, *document, key@, versus@)),
    {
        match self {
            PriceProvider::Coingecko(provider) => provider.get_token_price(document, key, versus),
            PriceProvider::Paraswap(provider) => provider.get_token_price(document, key, versus),
        }
    }
}

} // verus!
