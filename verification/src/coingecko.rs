//! The market-data provider: listings by contract address, prices by identifier.

use vstd::prelude::*;
use crate::error::{reads_as, Call, ErrorKind, ScanError};
use crate::json::{
    is_keyed_selector, read_scalar, scalar_of, selected_key, walk, walked, Scalar, ScalarView,
};
use crate::price_provider::{
    id_selector, listing_url, token_id_from, token_id_reading, Price, PriceView,
};
use crate::retry::{fetch, fetch_step, FetchStep};
use crate::text::has_char;

verus! {

/// The market-data provider.
#[derive(Clone, Copy, Debug, PartialEq, Eq, Structural)]
pub struct Coingecko;

/// Where the provider quotes `token_id` in `versus`.
pub open spec fn price_url_of(token_id: Seq<char>, versus: Seq<char>) -> Seq<char> {
    "https://api.coingecko.com/api/v3/simple/price?ids="@ + token_id + "&vs_currencies="@ + versus
}

/// The selector of the quote for `token_id` in `versus`: the two keys, each between double
/// quotes, with a dot between them.
pub open spec fn price_selector(token_id: Seq<char>, versus: Seq<char>) -> Seq<char> {
    "\""@ + token_id + "\".\""@ + versus + "\""@
}

/// The price that a selected value gives: a number as written, else none.
pub open spec fn price_from(node: ScalarView) -> PriceView {
    match node {
        ScalarView::Number(text) => PriceView::Quoted(text),
        _ => PriceView::Unquoted,
    }
}

/// The price that the provider's answer holds for `token_id` in `versus`. A key with `[` in it
/// cannot be selected and has no quote.
pub open spec fn coingecko_price(
    document: serde_json::Value,
    token_id: Seq<char>,
    versus: Seq<char>,
) -> PriceView {
    if is_keyed_selector(price_selector(token_id, versus)) {
        match walked(document, price_selector(token_id, versus)) {
            Some(value) => price_from(scalar_of(value)),
            None => PriceView::Unquoted,
        }
    } else {
        PriceView::Unquoted
    }
}

/// The identifier selector names one plain key and nothing else.
pub proof fn lemma_id_selector_keyed()
    ensures
        is_keyed_selector(id_selector()),
        selected_key(id_selector()) == Some("id"@),
{
    reveal_strlit("\"id\"");
    reveal_strlit("id");
    assert(id_selector().subrange(1, id_selector().len() - 1) =~= "id"@);
}

/// A price selector is keyed exactly when neither key holds `[`.
pub proof fn lemma_price_selector_keyed(token_id: Seq<char>, versus: Seq<char>)
    ensures
        is_keyed_selector(price_selector(token_id, versus)) <==> (forall|i: int|
            0 <= i < token_id.len() ==> token_id[i] != '[') && (forall|i: int|
            0 <= i < versus.len() ==> versus[i] != '['),
{
    reveal_strlit("\"");
    reveal_strlit("\".\"");
    let s = price_selector(token_id, versus);
    let a = token_id.len() as int;
    let b = versus.len() as int;
    assert(s.len() == a + b + 5);
    assert forall|i: int| 0 <= i < a implies s[i + 1] == token_id[i] by {}
    assert forall|i: int| 0 <= i < b implies s[i + a + 4] == versus[i] by {}
    if is_keyed_selector(s) {
        assert forall|i: int| 0 <= i < a implies token_id[i] != '[' by {
            assert(s[i + 1] == token_id[i]);
        }
        assert forall|i: int| 0 <= i < b implies versus[i] != '[' by {
            assert(s[i + a + 4] == versus[i]);
        }
    }
    if (forall|i: int| 0 <= i < a ==> token_id[i] != '[') && (forall|i: int|
        0 <= i < b ==> versus[i] != '[') {
        assert forall|i: int| 0 <= i < s.len() implies s[i] != '[' by {
            if i == 0 {
            } else if i < a + 1 {
                assert(s[i] == token_id[i - 1]);
            } else if i < a + 4 {
            } else if i < a + b + 4 {
                assert(s[i] == versus[i - a - 4]);
            } else {
            }
        }
    }
}

/// A token or a currency that the provider's answer does not hold has no quote: the lookup
/// gives the zero sentinel and no failure.
pub proof fn lemma_unknown_token_has_no_quote(
    document: serde_json::Value,
    token_id: Seq<char>,
    versus: Seq<char>,
)
    requires
        walked(document, price_selector(token_id, versus)) is None,
    ensures
        coingecko_price(document, token_id, versus) == PriceView::Unquoted,
{
}

/// Reads a token identifier off a selected value: its text, or the empty identifier.
pub fn token_id_from_scalar(node: Scalar) -> (token_id: String)
    ensures
        token_id@ == token_id_from(node@),
{
    match node {
        Scalar::Text(text) => text,
        _ => String::new(),
    }
}

/// Reads a price off a selected value: a number as written, else none.
pub fn price_from_scalar(node: Scalar) -> (price: Price)
    ensures
        price@ == price_from(node@),
{
    match node {
        Scalar::Number(text) => Price::Quoted(text),
        _ => Price::Unquoted,
    }
}

/// Reads the token's identifier out of a listing that `call` asked for, as every provider does.
pub fn read_token_id(document: &serde_json::Value, call: Call) -> (r: Result<String, ScanError>)
    ensures
        reads_as(r, token_id_reading(*document, call)),
{
    proof {
        lemma_id_selector_keyed();
    }
    match walk(document, "\"id\"") {
        Ok(value) => Ok(token_id_from_scalar(read_scalar(&value))),
        Err(message) => Err(ScanError::about(ErrorKind::Selection(call), message.as_str())),
    }
}

/// Writes the address of a listing.
pub fn write_listing_url(contract_address: &str) -> (url: String)
    ensures
        url@ == listing_url(contract_address@),
{
    let mut url = String::from_str("https://api.coingecko.com/api/v3/coins/ethereum/contract/");
    url.append(contract_address);
    url
}

impl Coingecko {
    /// One step of the retry envelope round a call to this provider.
    pub fn fetch(&self, body: Option<&str>, retry: u32) -> (step: FetchStep)
        ensures
            step@ == fetch_step(
                Call::Coingecko,
                retry,
                match body {
                    Some(text) => Some(text@),
                    None => None,
                },
            ),
    {
        fetch(Call::Coingecko, body, retry)
    }

    /// Where to ask for the listing of the token at a contract address.
    pub fn token_id_url(&self, contract_address: &str) -> (url: String)
        ensures
            url@ == listing_url(contract_address@),
    {
        write_listing_url(contract_address)
    }

    /// Reads the token's identifier out of a listing. A listing without an `id` is a failure of
    /// kind `Selection` of this provider's call; an `id` that is no string gives the empty
    /// identifier.
    pub fn get_token_id_from_contract_address(&self, document: &serde_json::Value) -> (r: Result<
        String,
        ScanError,
    >)
        ensures
            reads_as(r, token_id_reading(*document, Call::Coingecko)),
    {
        read_token_id(document, Call::Coingecko)
    }

    /// Where to ask for the price of `token_id` in `versus`.
    pub fn price_url(&self, token_id: &str, versus: &str) -> (url: String)
        ensures
            url@ == price_url_of(token_id@, versus@),
    {
        let mut url = String::from_str("https://api.coingecko.com/api/v3/simple/price?ids=");
        url.append(token_id);
        url.append("&vs_currencies=");
        url.append(versus);
        url
    }

    /// Reads the price of `token_id` in `versus` out of the provider's answer. An answer without
    /// that quote, or with something other than a number in its place, gives `Unquoted`.
    pub fn get_token_price(&self, document: &serde_json::Value, token_id: &str, versus: &str) -> (r:
        Result<Price, ScanError>)
        ensures
            r is Ok,
            r->Ok_0@ == coingecko_price(*document, token_id@, versus@),
    {
        proof {
            lemma_price_selector_keyed(token_id@, versus@);
        }
        if has_char(token_id, '[') || has_char(versus, '[') {
            return Ok(Price::Unquoted);
        }
        let mut selector = String::from_str("\"");
        selector.append(token_id);
        selector.append("\".\"");
        selector.append(versus);
        selector.append("\"");
        match walk(document, selector.as_str()) {
            Ok(value) => Ok(price_from_scalar(read_scalar(&value))),
            Err(_) => Ok(Price::Unquoted),
        }
    }
}

} // verus!
