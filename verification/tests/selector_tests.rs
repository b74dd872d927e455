use portfolio_scan::erc20::get_token_decimal;
use portfolio_scan::error::{Call, ErrorKind};

fn held(text: &str) -> serde_json::Value {
    serde_json::from_str::<serde_json::Value>(text).unwrap()
}

#[test]
fn a_missing_key_is_refused_by_its_name() {
    let keys = [
        "", "a", "decimals", "two words", " ", ".", "..", "a.b", ",", "a,b", "|", "{", "}", "{a}",
        "=", ":", "!", "]", "0", "12", "é", "日本", "\n", "\t", "'", "/", "#", "Node", "a]b",
        "|{a}", "|={a:b}", ".a", "a.", "a!", "..a",
    ];
    let documents = [
        held("{}"),
        held("[]"),
        held("[{\"a\":1}]"),
        held("null"),
        held("7"),
        held("\"a\""),
        held("true"),
        held("{\"unheld\":{\"a\":1,\"decimals\":2}}"),
    ];
    for key in keys {
        let selector = format!("\"{}\"", key);
        let refusal = format!("Node \"{}\" not found on the parent element", key);
        for document in &documents {
            assert_eq!(jql::walker(document, selector.as_str()), Err(refusal.clone()));
        }
    }
}

#[test]
fn a_held_key_is_selected_whatever_it_holds() {
    let keys = ["", "a", "two words", "a.b", "a,b", "|", "{a}", "!", "é", "..", "]"];
    let values = ["null", "0", "\"text\"", "[]", "[1,[2],{\"a\":3}]", "{}", "{\"a\":[1]}", "false"];
    for key in keys {
        let selector = format!("\"{}\"", key);
        for value in values {
            let mut members = serde_json::Map::new();
            members.insert(key.to_string(), held(value));
            members.insert("other".to_string(), held("1"));
            let document = serde_json::Value::Object(members);
            assert_eq!(jql::walker(&document, selector.as_str()), Ok(held(value)));
        }
    }
}

#[test]
fn the_reader_of_the_exponent_hands_the_refusal_on() {
    let failure = get_token_decimal(&held("{\"decimal\":18}"), "0xa").unwrap_err();
    assert_eq!(failure.kind, ErrorKind::Selection(Call::Decimals));
    assert_eq!(failure.subject, "Node \"decimals\" not found on the parent element");
    assert_eq!(failure.detail, "");
}
