use portfolio_scan::coingecko::{price_from_scalar, token_id_from_scalar, Coingecko};
use portfolio_scan::erc20::get_token_price;
use portfolio_scan::error::{Call, ErrorKind, ScanError, Scope};
use portfolio_scan::json::{read_scalar, Scalar};
use portfolio_scan::paraswap::{quote_token, route_price_from_scalar, Paraswap};
use portfolio_scan::price_provider::{Price, PriceProvider, PROVIDERS};

fn provider_document(text: &str) -> serde_json::Value {
    serde_json::from_str::<serde_json::Value>(text).unwrap()
}

fn answer_with_id() -> serde_json::Value {
    provider_document("{\"id\":\"aave\",\"symbol\":\"aave\"}")
}

#[test]
fn coingecko_get_token_id_success() {
    let coingecko = Coingecko;
    // YFI token address
    let erc20_contract_address = "0x0bc529c00C6401aEF6D220BE8C6Ea1667F6Ad93e";
    assert_eq!(
        coingecko.token_id_url(erc20_contract_address),
        "https://api.coingecko.com/api/v3/coins/ethereum/contract/0x0bc529c00C6401aEF6D220BE8C6Ea1667F6Ad93e"
    );
    let listing = provider_document(
        "{\"id\":\"yearn-finance\",\"symbol\":\"yfi\",\"name\":\"yearn.finance\"}",
    );
    let id = coingecko.get_token_id_from_contract_address(&listing).unwrap();
    assert_eq!(id, "yearn-finance");
}

#[test]
fn erc20_get_token_id_success() {
    let listing = provider_document("{\"id\":\"yearn-finance\"}");
    let id = PriceProvider::at(0)
        .unwrap()
        .get_token_id_from_contract_address(&listing)
        .unwrap();
    assert_eq!(id, "yearn-finance");
}

#[test]
fn coingecko_get_token_id_fail() {
    let coingecko = Coingecko;
    // what the provider answers for 0x0121212121212121212121212212121212121212
    let listing = provider_document("{\"error\":\"Could not find coin with the given id\"}");
    let result = coingecko.get_token_id_from_contract_address(&listing);
    match result {
        Err(err) => {
            assert_eq!(err.kind, ErrorKind::Selection(Call::Coingecko));
            assert_eq!(err.message(), "Node \"id\" not found on the parent element");
            assert_eq!(err.scope(), Scope::Token);
        }
        Ok(id) => panic!("expected a failure, got {:?}", id),
    }
}

#[test]
fn an_identifier_that_is_no_text_is_empty() {
    let listing = provider_document("{\"id\":17}");
    let id = Coingecko.get_token_id_from_contract_address(&listing).unwrap();
    assert_eq!(id, "");
}

#[test]
fn coingecko_get_token_price_success() {
    let coingecko = Coingecko;
    let erc20_token_id = "yearn-finance";
    assert_eq!(
        coingecko.price_url(erc20_token_id, "usd"),
        "https://api.coingecko.com/api/v3/simple/price?ids=yearn-finance&vs_currencies=usd"
    );
    let usd = provider_document("{\"yearn-finance\":{\"usd\":8123.45}}");
    let eth = provider_document("{\"yearn-finance\":{\"eth\":3.21}}");
    let price = coingecko.get_token_price(&usd, erc20_token_id, "usd").unwrap();
    let price_eth = coingecko.get_token_price(&eth, erc20_token_id, "eth").unwrap();
    assert_eq!(price, Price::Quoted("8123.45".to_string()));
    assert_eq!(price_eth, Price::Quoted("3.21".to_string()));
    assert_ne!(price, Price::Unquoted);
    assert_ne!(price_eth, Price::Unquoted);
}

#[test]
fn erc20_get_token_price_success() {
    let answer = provider_document("{\"yearn-finance\":{\"usd\":8123,\"eth\":3.5}}");
    let price = get_token_price(&answer, "yearn-finance", "usd");
    let price_eth = get_token_price(&answer, "yearn-finance", "eth");
    assert_eq!(price, Price::Quoted("8123".to_string()));
    assert_eq!(price_eth, Price::Quoted("3.5".to_string()));
}

#[test]
fn coingecko_get_token_price_fail() {
    let coingecko = Coingecko;
    // the provider answers an unknown identifier with an empty object
    let answer = provider_document("{}");
    let result = coingecko.get_token_price(&answer, "nonexistingtoken", "usd");
    assert_eq!(result, Ok(Price::Unquoted));
}

#[test]
fn erc20_get_token_price_fail() {
    let answer = provider_document("{}");
    let price = get_token_price(&answer, "nonexistingtoken", "usd");
    let price_eth = get_token_price(&answer, "nonexistingtoken", "eth");
    assert_eq!(price, Price::Unquoted);
    assert_eq!(price_eth, Price::Unquoted);
    assert!(!price.is_quoted());
}

#[test]
fn a_quote_that_is_no_number_is_no_quote() {
    let answer = provider_document("{\"dai\":{\"usd\":\"1.0\",\"eth\":null}}");
    assert_eq!(get_token_price(&answer, "dai", "usd"), Price::Unquoted);
    assert_eq!(get_token_price(&answer, "dai", "eth"), Price::Unquoted);
    assert_eq!(get_token_price(&answer, "dai", "gbp"), Price::Unquoted);
}

#[test]
fn a_key_with_a_bracket_is_never_selected() {
    let answer = provider_document("{\"a[0]\":{\"usd\":2}}");
    assert_eq!(get_token_price(&answer, "a[0]", "usd"), Price::Unquoted);
    assert_eq!(get_token_price(&answer, "a", "[0]"), Price::Unquoted);
    let huge = "x\"[99999999999999999999999999999999999999]\"";
    assert_eq!(get_token_price(&answer, huge, "usd"), Price::Unquoted);
}

#[test]
fn a_price_is_kept_as_the_provider_wrote_it() {
    let answer = provider_document("{\"shib\":{\"usd\":7.3e-6,\"eth\":0}}");
    assert_eq!(
        get_token_price(&answer, "shib", "usd"),
        Price::Quoted("7.3e-6".to_string())
    );
    assert_eq!(get_token_price(&answer, "shib", "eth"), Price::Quoted("0".to_string()));
}

#[test]
fn scalars_give_identifiers_and_prices() {
    assert_eq!(token_id_from_scalar(Scalar::Text("dai".to_string())), "dai");
    assert_eq!(token_id_from_scalar(Scalar::Number("7".to_string())), "");
    assert_eq!(token_id_from_scalar(Scalar::Other), "");
    assert_eq!(
        price_from_scalar(Scalar::Number("1.5".to_string())),
        Price::Quoted("1.5".to_string())
    );
    assert_eq!(price_from_scalar(Scalar::Text("1.5".to_string())), Price::Unquoted);
    assert_eq!(price_from_scalar(Scalar::Other), Price::Unquoted);
    assert_eq!(
        route_price_from_scalar(Scalar::Text("97".to_string())),
        Price::Quoted("97".to_string())
    );
    assert_eq!(route_price_from_scalar(Scalar::Number("97".to_string())), Price::Unquoted);
    assert_eq!(route_price_from_scalar(Scalar::Other), Price::Unquoted);
}

#[test]
fn a_value_reads_down_to_its_scalar() {
    assert_eq!(
        read_scalar(&provider_document("\"OK\"")),
        Scalar::Text("OK".to_string())
    );
    assert_eq!(
        read_scalar(&provider_document("18")),
        Scalar::Number("18".to_string())
    );
    assert_eq!(
        read_scalar(&provider_document("-0.25")),
        Scalar::Number("-0.25".to_string())
    );
    assert_eq!(read_scalar(&provider_document("null")), Scalar::Other);
    assert_eq!(read_scalar(&provider_document("true")), Scalar::Other);
    assert_eq!(read_scalar(&provider_document("[1]")), Scalar::Other);
    assert_eq!(read_scalar(&provider_document("{\"a\":1}")), Scalar::Other);
}

#[test]
fn paraswap_get_token_price_success() {
    let paraswap = Paraswap;
    // AAVE token address
    let contract_address = "0x7fc66500c84a76ad7e9c93437bfc5ac33e2ddae9";
    assert_eq!(
        paraswap.price_url(contract_address, "usd").unwrap(),
        "https://apiv5.paraswap.io/prices/?srcToken=0x7fc66500c84a76ad7e9c93437bfc5ac33e2ddae9&destToken=0xdac17f958d2ee523a2206206994597c13d831ec7&amount=1000000000000&network=1"
    );
    let answer = provider_document(
        "{\"priceRoute\":{\"srcAmount\":\"1000000000000\",\"destAmount\":\"97\"}}",
    );
    let price = paraswap.get_token_price(&answer, contract_address, "usd").unwrap();
    assert_eq!(price, Price::Quoted("97".to_string()));
    assert_ne!(price, Price::Unquoted);
}

#[test]
fn paraswap_get_token_price_fail() {
    let paraswap = Paraswap;
    // non existent token address
    let contract_address = "0x0121212121212121212121212212121212121212";
    let answer = provider_document("{\"error\":\"Token not found\"}");
    let result = paraswap.get_token_price(&answer, contract_address, "usd");
    assert_eq!(result, Ok(Price::Unquoted));
}

#[test]
fn paraswap_quotes_in_usd_and_eth_only() {
    assert_eq!(quote_token("eth").unwrap(), "0xeeeeeeeeeeeeeeeeeeeeeeeeeeeeeeeeeeeeeeee");
    assert_eq!(quote_token("usd").unwrap(), "0xdac17f958d2ee523a2206206994597c13d831ec7");
    let refused = quote_token("gbp").unwrap_err();
    assert_eq!(refused, ScanError::about(ErrorKind::QuoteCurrency, "gbp"));
    assert_eq!(refused.message(), "Could not fetch token price versus gbp");
    assert_eq!(
        Paraswap.price_url("0xabc", "ETH").unwrap_err().message(),
        "Could not fetch token price versus ETH"
    );
    let answer = provider_document("{\"priceRoute\":{\"destAmount\":\"97\"}}");
    assert_eq!(
        Paraswap.get_token_price(&answer, "0xabc", "").unwrap_err(),
        ScanError::about(ErrorKind::QuoteCurrency, "")
    );
    assert_eq!(
        Paraswap.price_url("0xabc", "eth").unwrap(),
        "https://apiv5.paraswap.io/prices/?srcToken=0xabc&destToken=0xeeeeeeeeeeeeeeeeeeeeeeeeeeeeeeeeeeeeeeee&amount=1000000000000&network=1"
    );
}

#[test]
fn a_route_amount_that_is_no_text_is_no_quote() {
    let answer = provider_document("{\"priceRoute\":{\"destAmount\":97}}");
    assert_eq!(Paraswap.get_token_price(&answer, "0xabc", "eth"), Ok(Price::Unquoted));
    let partial = provider_document("{\"priceRoute\":{}}");
    assert_eq!(Paraswap.get_token_price(&partial, "0xabc", "eth"), Ok(Price::Unquoted));
}

#[test]
fn the_chain_is_coingecko_then_paraswap() {
    assert_eq!(PROVIDERS, 2);
    assert_eq!(PriceProvider::at(0), Some(PriceProvider::Coingecko(Coingecko)));
    assert_eq!(PriceProvider::at(1), Some(PriceProvider::Paraswap(Paraswap)));
    assert_eq!(PriceProvider::at(2), None);
    assert_eq!(PriceProvider::at(usize::MAX), None);
    assert_eq!(PriceProvider::at(0).unwrap().call(), Call::Coingecko);
    assert_eq!(PriceProvider::at(1).unwrap().call(), Call::Paraswap);
}

#[test]
fn each_provider_prices_by_its_own_key() {
    let first = PriceProvider::at(0).unwrap();
    let second = PriceProvider::at(1).unwrap();
    assert_eq!(first.pricing_key("aave", "0x7fc6"), "aave");
    assert_eq!(second.pricing_key("aave", "0x7fc6"), "0x7fc6");
    assert_eq!(
        first.price_url("aave", "eth").unwrap(),
        "https://api.coingecko.com/api/v3/simple/price?ids=aave&vs_currencies=eth"
    );
    assert_eq!(
        second.price_url("0x7fc6", "usd").unwrap(),
        "https://apiv5.paraswap.io/prices/?srcToken=0x7fc6&destToken=0xdac17f958d2ee523a2206206994597c13d831ec7&amount=1000000000000&network=1"
    );
    assert_eq!(
        second.price_url("0x7fc6", "chf").unwrap_err().kind,
        ErrorKind::QuoteCurrency
    );
    assert_eq!(
        second.token_id_url("0x7fc6"),
        "https://api.coingecko.com/api/v3/coins/ethereum/contract/0x7fc6"
    );
    let unlisted = provider_document("{\"error\":\"coin not found\"}");
    assert_eq!(
        first.get_token_id_from_contract_address(&unlisted).unwrap_err().kind,
        ErrorKind::Selection(Call::Coingecko)
    );
    assert_eq!(
        second.get_token_id_from_contract_address(&unlisted).unwrap_err().kind,
        ErrorKind::Selection(Call::Paraswap)
    );
    assert_eq!(
        Paraswap.get_token_id_from_contract_address(&answer_with_id()).unwrap(),
        "aave"
    );
    let answer = provider_document(
        "{\"aave\":{\"usd\":90.5},\"priceRoute\":{\"destAmount\":\"88\"}}",
    );
    assert_eq!(
        first.get_token_price(&answer, "aave", "usd"),
        Ok(Price::Quoted("90.5".to_string()))
    );
    assert_eq!(
        second.get_token_price(&answer, "0x7fc6", "usd"),
        Ok(Price::Quoted("88".to_string()))
    );
    assert_eq!(
        second.get_token_price(&answer, "0x7fc6", "jpy").unwrap_err().message(),
        "Could not fetch token price versus jpy"
    );
}

#[test]
fn odd_keys_are_looked_up_without_a_panic() {
    let fragments = [
        "\"", "\\", ".", "..", ",", "|", "{", "}", "=", ":", "!", " ", "]", "a", "\"a\"", "0", "é",
        "\\u0041", "\\n", "{\"a\"}", "|{\"a\"}", "|={\"a\":\"b\"}", "|\"a\"", "\"a\",\"b\"",
    ];
    let documents = [
        provider_document("{}"),
        provider_document("[]"),
        provider_document("null"),
        provider_document("7"),
        provider_document("{\"a\":{\"usd\":1,\"b\":[1,{\"a\":2}]}}"),
        provider_document("[{\"a\":1},{\"a\":{\"usd\":2}},[[1,2],[3]],\"a\"]"),
        provider_document("{\"\":{\"\":3},\"a\":[{\"a\":\"b\"},{\"usd\":4}]}"),
    ];
    let mut looked_up: u32 = 0;
    for first in fragments {
        for second in fragments {
            for third in fragments {
                let key = format!("{}{}{}", first, second, third);
                for document in &documents {
                    let _ = get_token_price(document, key.as_str(), "usd");
                    let _ = get_token_price(document, "a", key.as_str());
                    looked_up += 2;
                }
            }
        }
    }
    assert_eq!(looked_up, 24 * 24 * 24 * 7 * 2);
}
