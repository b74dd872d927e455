use portfolio_scan::coingecko::Coingecko;
use portfolio_scan::error::{Call, ErrorKind, ScanError, Scope};
use portfolio_scan::paraswap::Paraswap;
use portfolio_scan::price_provider::PriceProvider;
use portfolio_scan::retry::{after_failure, fetch, FetchStep, MAX_ATTEMPTS};

#[test]
fn coingecko_fetch_success() {
    let coingecko = Coingecko;
    // what the provider answers for the YFI token address
    // 0x0bc529c00C6401aEF6D220BE8C6Ea1667F6Ad93e
    let body = "{\"id\":\"yearn-finance\",\"symbol\":\"yfi\",\"name\":\"yearn.finance\"}";
    match coingecko.fetch(Some(body), 0) {
        FetchStep::Done(document) => assert!(document.is_object()),
        other => panic!("expected a document, got {:?}", other),
    }
}

#[test]
fn coingecko_fetch_non_existent_token_fail() {
    let coingecko = Coingecko;
    // what the provider answers for 0x0121212121212121212121212212121212121212
    let body = "{\"error\":\"Could not find coin with the given id\"}";
    match coingecko.fetch(Some(body), 0) {
        FetchStep::Done(document) => assert_eq!(
            document.to_string(),
            "{\"error\":\"Could not find coin with the given id\"}"
        ),
        other => panic!("expected a document, got {:?}", other),
    }
}

#[test]
fn paraswap_fetch_success() {
    let paraswap = Paraswap;
    let body = "{\"priceRoute\":{\"srcToken\":\"0x7fc66500c84a76ad7e9c93437bfc5ac33e2ddae9\",\"destToken\":\"0xdac17f958d2ee523a2206206994597c13d831ec7\",\"srcAmount\":\"1000000000000\",\"destAmount\":\"97\"}}";
    match paraswap.fetch(Some(body), 0) {
        FetchStep::Done(document) => assert!(document.is_object()),
        other => panic!("expected a document, got {:?}", other),
    }
}

#[test]
fn paraswap_fetch_non_existent_token_fail() {
    let paraswap = Paraswap;
    let body = "{\"error\":\"Token not found\"}";
    match paraswap.fetch(Some(body), 0) {
        FetchStep::Done(document) => {
            assert_eq!(document.to_string(), "{\"error\":\"Token not found\"}")
        }
        other => panic!("expected a document, got {:?}", other),
    }
}

#[test]
fn a_document_is_parsed_not_handed_back() {
    match fetch(Call::Balance, Some(" { \"a\" : [ 1 , 2 ] } "), 3) {
        FetchStep::Done(document) => {
            assert_eq!(document.to_string(), "{\"a\":[1,2]}");
            assert_eq!(document["a"][1], serde_json::Value::from(2));
        }
        other => panic!("expected a document, got {:?}", other),
    }
}

#[test]
fn a_well_formed_not_found_answer_is_not_retried() {
    let step = fetch(Call::Coingecko, Some("{\"error\":\"coin not found\"}"), 0);
    assert!(matches!(step, FetchStep::Done(_)));
}

#[test]
fn backoff_doubles_from_two_seconds() {
    let expected: [u64; 4] = [2000, 4000, 8000, 16000];
    let mut retry: u32 = 0;
    for wait in expected {
        match after_failure(Call::Coingecko, retry, "<html>") {
            FetchStep::Wait { retry: next, wait_ms } => {
                assert_eq!(next, retry + 1);
                assert_eq!(wait_ms, wait);
                retry = next;
            }
            other => panic!("expected a wait, got {:?}", other),
        }
    }
    assert_eq!(retry, MAX_ATTEMPTS - 1);
    assert!(matches!(after_failure(Call::Coingecko, retry, "<html>"), FetchStep::GiveUp(_)));
}

#[test]
fn fails_twice_then_succeeds_on_the_third_attempt() {
    let bodies = ["<html>busy</html>", "", "{\"id\":\"yearn-finance\"}"];
    let mut retry: u32 = 0;
    let mut waits: Vec<u64> = Vec::new();
    let mut answer = None;
    for body in bodies {
        match fetch(Call::Coingecko, Some(body), retry) {
            FetchStep::Done(document) => {
                answer = Some(document);
                break;
            }
            FetchStep::Wait { retry: next, wait_ms } => {
                waits.push(wait_ms);
                retry = next;
            }
            FetchStep::GiveUp(error) => panic!("gave up: {}", error.message()),
        }
    }
    assert_eq!(answer.unwrap()["id"], serde_json::Value::from("yearn-finance"));
    assert_eq!(waits, vec![2000, 4000]);
    assert_eq!(retry, 2);
    assert!(retry + 1 <= MAX_ATTEMPTS);
}

#[test]
fn fails_on_every_attempt_up_to_the_ceiling() {
    let mut retry: u32 = 0;
    let mut attempts: u32 = 0;
    let failure;
    loop {
        attempts += 1;
        let body = format!("bad gateway {}", attempts);
        match fetch(Call::Coingecko, Some(body.as_str()), retry) {
            FetchStep::Done(_) => panic!("no attempt returned a document"),
            FetchStep::Wait { retry: next, .. } => retry = next,
            FetchStep::GiveUp(error) => {
                failure = error;
                break;
            }
        }
    }
    assert_eq!(MAX_ATTEMPTS, 5);
    assert_eq!(attempts, 5);
    assert_eq!(retry, 4);
    assert_eq!(failure.kind, ErrorKind::Fetch(Call::Coingecko));
    assert_eq!(failure.subject, "bad gateway 5");
    assert_eq!(
        failure.message(),
        "Could not fetch from coingecko: response body: \"bad gateway 5\""
    );
    assert_eq!(failure.scope(), Scope::Token);
}

#[test]
fn a_history_call_that_fails_for_good_ends_the_scan() {
    match fetch(Call::History, Some("<html>"), 4) {
        FetchStep::GiveUp(error) => {
            assert_eq!(error.kind, ErrorKind::Fetch(Call::History));
            assert_eq!(error.scope(), Scope::Account);
            assert_eq!(
                error.message(),
                "Could not fetch from etherscan: response body: \"<html>\""
            );
        }
        other => panic!("expected a failure, got {:?}", other),
    }
    match fetch(Call::Balance, Some("<html>"), 4) {
        FetchStep::GiveUp(error) => assert_eq!(error.scope(), Scope::Token),
        other => panic!("expected a failure, got {:?}", other),
    }
}

#[test]
fn the_fifth_failed_attempt_is_the_last() {
    assert!(matches!(
        after_failure(Call::Paraswap, 3, "x"),
        FetchStep::Wait { retry: 4, wait_ms: 16000 }
    ));
    assert_eq!(
        after_failure(Call::Paraswap, 4, "x"),
        FetchStep::GiveUp(ScanError::about(ErrorKind::Fetch(Call::Paraswap), "x"))
    );
    assert!(matches!(after_failure(Call::Paraswap, 5, "x"), FetchStep::GiveUp(_)));
    assert!(matches!(after_failure(Call::Paraswap, 6, "x"), FetchStep::GiveUp(_)));
    assert!(matches!(after_failure(Call::Paraswap, u32::MAX, "x"), FetchStep::GiveUp(_)));
}

#[test]
fn a_transport_failure_is_retried_like_a_bad_body() {
    assert_eq!(
        fetch(Call::Decimals, None, 0),
        FetchStep::Wait { retry: 1, wait_ms: 2000 }
    );
    match fetch(Call::Decimals, None, 4) {
        FetchStep::GiveUp(error) => {
            assert_eq!(error.subject, "");
            assert_eq!(
                error.message(),
                "Could not fetch from ethplorer: response body: \"\""
            );
        }
        other => panic!("expected a failure, got {:?}", other),
    }
}

#[test]
fn the_message_quotes_the_body_as_debug_does() {
    match after_failure(Call::Paraswap, 9, "line \"one\"\nline two") {
        FetchStep::GiveUp(error) => assert_eq!(
            error.message(),
            "Could not fetch from paraswap: response body: \"line \\\"one\\\"\\nline two\""
        ),
        other => panic!("expected a failure, got {:?}", other),
    }
}

#[test]
fn a_provider_in_the_chain_fetches_under_its_own_name() {
    let second = PriceProvider::at(1).unwrap();
    match second.fetch(Some("oops"), 4) {
        FetchStep::GiveUp(error) => {
            assert_eq!(error.kind, ErrorKind::Fetch(Call::Paraswap))
        }
        other => panic!("expected a failure, got {:?}", other),
    }
    let first = PriceProvider::at(0).unwrap();
    assert_eq!(
        first.fetch(Some("oops"), 0),
        FetchStep::Wait { retry: 1, wait_ms: 2000 }
    );
}
