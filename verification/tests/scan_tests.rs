use portfolio_scan::account::parse_account;
use portfolio_scan::discovery::{Field, HistoryEntry, Token};
use portfolio_scan::erc20::{normalize, Balance};
use portfolio_scan::error::{Call, ErrorKind, ScanError};
use portfolio_scan::price_provider::Price;
use portfolio_scan::scan::{coingecko_link, Action, ApiKeys, Outcome, Scan, TokenInfo};

fn scan_document(text: &str) -> serde_json::Value {
    serde_json::from_str::<serde_json::Value>(text).unwrap()
}

fn test_keys() -> ApiKeys {
    ApiKeys { etherscan: "SCANKEY".to_string(), ethplorer: "PLORERKEY".to_string() }
}

fn seen(symbol: &str, contract_address: &str) -> HistoryEntry {
    HistoryEntry {
        symbol: Some(symbol.to_string()),
        name: symbol.to_lowercase(),
        contract_address: Field::Text(contract_address.to_string()),
    }
}

fn scan_of(entries: Vec<HistoryEntry>) -> Scan {
    let account = parse_account("0x000000000000000000000000000000000000dead").unwrap();
    Scan::over(&account, test_keys(), &entries).unwrap()
}

fn fetch_of(url: &str, call: Call, paced: bool) -> Action {
    Action::Fetch { url: url.to_string(), call, paced }
}

fn lost(call: Call) -> ScanError {
    ScanError::about(ErrorKind::Fetch(call), "<html>")
}

#[test]
fn a_token_goes_through_its_five_steps() {
    let mut scan = scan_of(vec![seen("AAVE", "0x7fc6")]);
    assert!(!scan.is_finished());
    assert_eq!(
        scan.next_action(),
        fetch_of(
            "https://api.coingecko.com/api/v3/coins/ethereum/contract/0x7fc6",
            Call::Coingecko,
            true
        )
    );
    scan = scan.advance(Ok(&scan_document("{\"id\":\"aave\"}")));
    assert_eq!(
        scan.next_action(),
        fetch_of(
            "https://api.etherscan.io/api?module=account&action=tokenbalance&contractaddress=0x7fc6&address=0x000000000000000000000000000000000000dead&tag=latest&apikey=SCANKEY",
            Call::Balance,
            false
        )
    );
    scan = scan.advance(Ok(&scan_document("{\"message\":\"OK\",\"result\":\"2500000000000000000\"}")));
    assert_eq!(
        scan.next_action(),
        fetch_of(
            "https://api.ethplorer.io/getTokenInfo/0x7fc6?apiKey=PLORERKEY",
            Call::Decimals,
            false
        )
    );
    scan = scan.advance(Ok(&scan_document("{\"decimals\":\"18\"}")));
    assert_eq!(
        scan.next_action(),
        fetch_of(
            "https://api.coingecko.com/api/v3/simple/price?ids=aave&vs_currencies=usd",
            Call::Coingecko,
            true
        )
    );
    scan = scan.advance(Ok(&scan_document("{\"aave\":{\"usd\":90.5}}")));
    assert_eq!(
        scan.next_action(),
        fetch_of(
            "https://api.coingecko.com/api/v3/simple/price?ids=aave&vs_currencies=eth",
            Call::Coingecko,
            true
        )
    );
    assert!(scan.holdings().is_empty());
    scan = scan.advance(Ok(&scan_document("{\"aave\":{\"eth\":0.05}}")));
    assert!(scan.is_finished());
    assert_eq!(scan.next_action(), Action::Finished);
    let holdings = scan.into_holdings();
    assert_eq!(
        holdings,
        vec![TokenInfo {
            symbol: "AAVE".to_string(),
            contract_address: "0x7fc6".to_string(),
            balance: normalize("2500000000000000000", 18, "0x7fc6").unwrap(),
            usd_price: Price::Quoted("90.5".to_string()),
            eth_price: Price::Quoted("0.05".to_string()),
            coingecko_link: "https://coingecko.com/en/coins/aave".to_string(),
        }]
    );
    assert_eq!(holdings[0].balance.decimal_text(), "2.500000000000000000");
}

#[test]
fn the_second_provider_is_asked_when_the_first_fails() {
    let mut scan = scan_of(vec![seen("AAVE", "0x7fc6")]);
    scan = scan.advance(Ok(&scan_document("{\"error\":\"coin not found\"}")));
    assert_eq!(
        scan.next_action(),
        fetch_of(
            "https://api.coingecko.com/api/v3/coins/ethereum/contract/0x7fc6",
            Call::Paraswap,
            true
        )
    );
    scan = scan.advance(Ok(&scan_document("{\"id\":\"aave\"}")));
    scan = scan.advance(Ok(&scan_document("{\"message\":\"OK\",\"result\":\"12\"}")));
    scan = scan.advance(Ok(&scan_document("{\"decimals\":1}")));
    assert_eq!(
        scan.next_action(),
        fetch_of(
            "https://apiv5.paraswap.io/prices/?srcToken=0x7fc6&destToken=0xdac17f958d2ee523a2206206994597c13d831ec7&amount=1000000000000&network=1",
            Call::Paraswap,
            true
        )
    );
    scan = scan.advance(Ok(&scan_document("{\"priceRoute\":{\"destAmount\":\"97\"}}")));
    assert_eq!(
        scan.next_action(),
        fetch_of(
            "https://apiv5.paraswap.io/prices/?srcToken=0x7fc6&destToken=0xeeeeeeeeeeeeeeeeeeeeeeeeeeeeeeeeeeeeeeee&amount=1000000000000&network=1",
            Call::Paraswap,
            true
        )
    );
    scan = scan.advance(Ok(&scan_document("{\"priceRoute\":{\"destAmount\":\"3\"}}")));
    assert!(scan.is_finished());
    let holdings = scan.into_holdings();
    assert_eq!(holdings.len(), 1);
    assert_eq!(holdings[0].usd_price, Price::Quoted("97".to_string()));
    assert_eq!(holdings[0].eth_price, Price::Quoted("3".to_string()));
    assert_eq!(holdings[0].balance.decimal_text(), "1.2");
    assert_eq!(holdings[0].coingecko_link, "https://coingecko.com/en/coins/aave");
}

#[test]
fn a_token_that_no_provider_resolves_is_dropped() {
    let mut scan = scan_of(vec![seen("JUNK", "0x01"), seen("DAI", "0x6b17")]);
    scan = scan.advance(Err(lost(Call::Coingecko)));
    assert_eq!(
        scan.next_action(),
        fetch_of(
            "https://api.coingecko.com/api/v3/coins/ethereum/contract/0x01",
            Call::Paraswap,
            true
        )
    );
    scan = scan.advance(Ok(&scan_document("{\"error\":\"coin not found\"}")));
    assert!(!scan.is_finished());
    assert!(scan.holdings().is_empty());
    assert_eq!(
        scan.next_action(),
        fetch_of(
            "https://api.coingecko.com/api/v3/coins/ethereum/contract/0x6b17",
            Call::Coingecko,
            true
        )
    );
}

#[test]
fn a_failure_costs_one_token_and_not_the_scan() {
    let entries = vec![
        seen("A", "0xa"),
        seen("B", "0xb"),
        seen("C", "0xc"),
        seen("D", "0xd"),
        seen("E", "0xe"),
    ];
    let mut scan = scan_of(entries);
    let listing = scan_document("{\"id\":\"coin\"}");
    let balance = scan_document("{\"message\":\"OK\",\"result\":\"1000\"}");
    let decimals = scan_document("{\"decimals\":3}");
    let price = scan_document("{\"coin\":{\"usd\":2,\"eth\":0.001}}");
    // A: the ledger refuses the balance
    scan = scan.advance(Ok(&listing));
    scan = scan.advance(Ok(&scan_document("{\"message\":\"NOTOK\",\"result\":\"bad\"}")));
    // B: the exponent cannot be read
    scan = scan.advance(Ok(&listing));
    scan = scan.advance(Ok(&balance));
    scan = scan.advance(Ok(&scan_document("{}")));
    // C: the price call fails for good
    scan = scan.advance(Ok(&listing));
    scan = scan.advance(Ok(&balance));
    scan = scan.advance(Ok(&decimals));
    scan = scan.advance(Err(lost(Call::Coingecko)));
    // D: the second price call fails for good
    scan = scan.advance(Ok(&listing));
    scan = scan.advance(Ok(&balance));
    scan = scan.advance(Ok(&decimals));
    scan = scan.advance(Ok(&price));
    scan = scan.advance(Err(lost(Call::Coingecko)));
    assert!(scan.holdings().is_empty());
    assert!(!scan.is_finished());
    // E: everything answers
    scan = scan.advance(Ok(&listing));
    scan = scan.advance(Ok(&balance));
    scan = scan.advance(Ok(&decimals));
    scan = scan.advance(Ok(&price));
    scan = scan.advance(Ok(&price));
    assert!(scan.is_finished());
    let holdings = scan.into_holdings();
    assert_eq!(holdings.len(), 1);
    assert_eq!(holdings[0].symbol, "E");
    assert_eq!(holdings[0].contract_address, "0xe");
    assert_eq!(holdings[0].balance.decimal_text(), "1.000");
    assert_eq!(holdings[0].usd_price, Price::Quoted("2".to_string()));
    assert_eq!(holdings[0].eth_price, Price::Quoted("0.001".to_string()));
}

#[test]
fn an_unquoted_price_is_recorded_not_dropped() {
    let mut scan = scan_of(vec![seen("DUST", "0xd")]);
    scan = scan.advance(Ok(&scan_document("{\"id\":\"dust\"}")));
    scan = scan.advance(Ok(&scan_document("{\"message\":\"OK\",\"result\":\"0\"}")));
    scan = scan.advance(Ok(&scan_document("{\"decimals\":\"0\"}")));
    scan = scan.advance(Ok(&scan_document("{}")));
    scan = scan.advance(Ok(&scan_document("{\"dust\":{}}")));
    let holdings = scan.into_holdings();
    assert_eq!(holdings.len(), 1);
    assert_eq!(holdings[0].usd_price, Price::Unquoted);
    assert_eq!(holdings[0].eth_price, Price::Unquoted);
    assert_eq!(holdings[0].balance.decimal_text(), "0");
}

#[test]
fn a_balance_that_cannot_be_normalised_drops_the_token() {
    let mut scan = scan_of(vec![seen("ODD", "0x0"), seen("DAI", "0x6b17")]);
    scan = scan.apply(Outcome::Identifier(Ok("odd".to_string())));
    scan = scan.apply(Outcome::RawBalance(Ok("12.5".to_string())));
    scan = scan.apply(Outcome::Decimals(Ok(18)));
    assert!(scan.holdings().is_empty());
    assert_eq!(
        scan.next_action(),
        fetch_of(
            "https://api.coingecko.com/api/v3/coins/ethereum/contract/0x6b17",
            Call::Coingecko,
            true
        )
    );
    scan = scan.apply(Outcome::Identifier(Ok("dai".to_string())));
    scan = scan.apply(Outcome::RawBalance(Ok("125".to_string())));
    scan = scan.apply(Outcome::Decimals(Ok(20)));
    assert!(scan.is_finished());
    assert!(scan.into_holdings().is_empty());
}

#[test]
fn an_outcome_that_was_not_asked_for_changes_nothing() {
    let mut scan = scan_of(vec![seen("DAI", "0x6b17")]);
    let first = scan.next_action();
    scan = scan.apply(Outcome::Price(Ok(Price::Unquoted)));
    scan = scan.apply(Outcome::Decimals(Ok(18)));
    scan = scan.apply(Outcome::RawBalance(Err(lost(Call::Balance))));
    assert_eq!(scan.next_action(), first);
    scan = scan.apply(Outcome::Identifier(Ok("dai".to_string())));
    let second = scan.next_action();
    scan = scan.apply(Outcome::Identifier(Ok("other".to_string())));
    scan = scan.apply(Outcome::Price(Err(lost(Call::Coingecko))));
    assert_eq!(scan.next_action(), second);
    assert!(!scan.is_finished());
}

#[test]
fn a_finished_scan_stays_finished() {
    let mut scan = scan_of(Vec::new());
    assert!(scan.is_finished());
    assert_eq!(scan.next_action(), Action::Finished);
    scan = scan.advance(Ok(&scan_document("{\"id\":\"aave\"}")));
    scan = scan.advance(Err(lost(Call::Coingecko)));
    scan = scan.apply(Outcome::Identifier(Ok("aave".to_string())));
    assert!(scan.is_finished());
    assert!(scan.tokens().is_empty());
    assert!(scan.into_holdings().is_empty());
}

#[test]
fn a_scan_starts_from_the_answer_to_the_history_query() {
    let account = parse_account("000000000000000000000000000000000000dead").unwrap();
    let answer = scan_document(
        "{\"status\":\"1\",\"message\":\"OK\",\"result\":[{\"tokenSymbol\":\"AAVE\",\"tokenName\":\"Aave\",\"contractAddress\":\"X\"},{\"tokenSymbol\":\"AAVE\",\"tokenName\":\"Aave\",\"contractAddress\":\"X\"},{\"tokenSymbol\":\"DAI\",\"tokenName\":\"Dai\",\"contractAddress\":\"Y\"}]}",
    );
    let scan = Scan::start(&account, test_keys(), &answer).unwrap();
    assert_eq!(
        scan.tokens(),
        &vec![
            Token {
                symbol: "AAVE".to_string(),
                name: "Aave".to_string(),
                contract_address: "X".to_string()
            },
            Token {
                symbol: "DAI".to_string(),
                name: "Dai".to_string(),
                contract_address: "Y".to_string()
            },
        ]
    );
    assert!(scan.holdings().is_empty());
    assert_eq!(
        scan.next_action(),
        fetch_of(
            "https://api.coingecko.com/api/v3/coins/ethereum/contract/X",
            Call::Coingecko,
            true
        )
    );
}

#[test]
fn a_refused_history_starts_no_scan() {
    let account = parse_account("0x0121212121212121212121212212121212121212").unwrap();
    let answer = scan_document("{\"status\":\"0\",\"message\":\"NOTOK\",\"result\":[]}");
    match Scan::start(&account, test_keys(), &answer) {
        Err(error) => {
            assert_eq!(error, ScanError::bare(ErrorKind::History));
            assert_eq!(error.message(), "Error on processing the list of ERC20 tokens");
        }
        Ok(_) => panic!("a refused history started a scan"),
    }
    let mut nameless = seen("A", "0xa");
    nameless.symbol = None;
    match Scan::over(&account, test_keys(), &vec![nameless]) {
        Err(error) => assert_eq!(error, ScanError::bare(ErrorKind::SymbolMissing)),
        Ok(_) => panic!("a history without symbols started a scan"),
    }
}

#[test]
fn every_holding_has_its_own_symbol() {
    let entries = vec![
        seen("A", "0xa"),
        seen("B", "0xb"),
        seen("A", "0xa2"),
        seen("C", "0xc"),
        seen("B", "0xb"),
    ];
    let mut scan = scan_of(entries);
    assert_eq!(scan.tokens().len(), 3);
    let mut calls: u32 = 0;
    while !scan.is_finished() {
        let answer = match scan.next_action() {
            Action::Fetch { call: Call::Balance, .. } => "{\"message\":\"OK\",\"result\":\"7\"}",
            Action::Fetch { call: Call::Decimals, .. } => "{\"decimals\":0}",
            Action::Fetch { .. } => "{\"id\":\"coin\",\"coin\":{\"usd\":1,\"eth\":1}}",
            Action::Finished => unreachable!(),
        };
        scan = scan.advance(Ok(&scan_document(answer)));
        calls += 1;
    }
    assert_eq!(calls, 15);
    let holdings = scan.into_holdings();
    let symbols: Vec<&str> = holdings.iter().map(|holding| holding.symbol.as_str()).collect();
    assert_eq!(symbols, vec!["A", "B", "C"]);
    let addresses: Vec<&str> =
        holdings.iter().map(|holding| holding.contract_address.as_str()).collect();
    assert_eq!(addresses, vec!["0xa", "0xb", "0xc"]);
}

#[test]
fn the_native_holding_is_worth_one_of_itself() {
    let native =
        TokenInfo::native("1500000000000000000", Price::Quoted("1800.25".to_string())).unwrap();
    assert_eq!(native.symbol, "ETH");
    assert_eq!(native.contract_address, "");
    assert_eq!(native.balance, Balance::native("1500000000000000000").unwrap());
    assert_eq!(native.balance.decimal_text(), "1.500000000000000000");
    assert_eq!(native.usd_price, Price::Quoted("1800.25".to_string()));
    assert_eq!(native.eth_price, Price::Quoted("1".to_string()));
    assert_eq!(native.coingecko_link, "https://coingecko.com/en/coins/ethereum");
    let large = TokenInfo::native("340282366920938463463374607431768211456", Price::Unquoted);
    assert_eq!(
        large.unwrap().balance.decimal_text(),
        "340282366920938463463.374607431768211456"
    );
    assert_eq!(
        TokenInfo::native("1,5", Price::Unquoted),
        Err(ScanError::about(ErrorKind::NativeBalance, "1,5"))
    );
}

#[test]
fn a_holding_is_made_of_what_it_is_given() {
    let info = TokenInfo::new(
        "YFI",
        "0x0bc529c00C6401aEF6D220BE8C6Ea1667F6Ad93e",
        normalize("5", 1, "0x0bc5").unwrap(),
        Price::Quoted("8000".to_string()),
        Price::Unquoted,
        coingecko_link("yearn-finance").as_str(),
    );
    assert_eq!(info.symbol, "YFI");
    assert_eq!(info.contract_address, "0x0bc529c00C6401aEF6D220BE8C6Ea1667F6Ad93e");
    assert_eq!(info.balance.decimal_text(), "0.5");
    assert_eq!(info.usd_price, Price::Quoted("8000".to_string()));
    assert_eq!(info.eth_price, Price::Unquoted);
    assert_eq!(info.coingecko_link, "https://coingecko.com/en/coins/yearn-finance");
    assert_eq!(coingecko_link(""), "https://coingecko.com/en/coins/");
}
