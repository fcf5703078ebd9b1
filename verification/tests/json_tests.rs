use validators_app::json::parse_json;
use validators_app::json::Json;
use validators_app::num::Dec;
use validators_app::models::Network;
use validators_app::models::ValidatorsOrder;

fn obj_get<'a>(j: &'a Json, key: &str) -> Option<&'a Json> {
    match j {
        Json::Obj(ms) => ms.iter().find(|m| m.key == key).map(|m| &m.value),
        _ => None,
    }
}

#[test]
fn parses_scalars() {
    assert!(matches!(parse_json("null"), Some(Json::Null)));
    assert!(matches!(parse_json("true"), Some(Json::Bool(true))));
    assert!(matches!(parse_json("false"), Some(Json::Bool(false))));
    match parse_json("-12.5e3") {
        Some(Json::Num(t)) => assert_eq!(t, "-12.5e3"),
        _ => panic!("expected a number"),
    }
    match parse_json("\"hi\"") {
        Some(Json::Str(s)) => assert_eq!(s, "hi"),
        _ => panic!("expected a string"),
    }
}

#[test]
fn parses_nested_documents() {
    let j = parse_json(" { \"a\" : [ 1 , {\"b\": null} ] , \"c\" : \"x\" } ").unwrap();
    match obj_get(&j, "a") {
        Some(Json::Arr(items)) => {
            assert_eq!(items.len(), 2);
            match &items[0] {
                Json::Num(t) => assert_eq!(t, "1"),
                _ => panic!("expected a number"),
            }
            match obj_get(&items[1], "b") {
                Some(Json::Null) => (),
                _ => panic!("expected null"),
            }
        },
        _ => panic!("expected an array"),
    }
    match obj_get(&j, "c") {
        Some(Json::Str(s)) => assert_eq!(s, "x"),
        _ => panic!("expected a string"),
    }
}

#[test]
fn decodes_string_escapes() {
    match parse_json("\"a\\n\\t\\\\\\\"\\u0041\\u00e9\"") {
        Some(Json::Str(s)) => assert_eq!(s, "a\n\t\\\"A\u{e9}"),
        _ => panic!("expected a string"),
    }
}

#[test]
fn decodes_surrogate_pairs() {
    match parse_json("\"\\uD834\\uDD1E\"") {
        Some(Json::Str(s)) => assert_eq!(s, "\u{1D11E}"),
        _ => panic!("expected a string"),
    }
    assert!(parse_json("\"\\uD834\"").is_none());
}

#[test]
fn rejects_malformed_documents() {
    assert!(parse_json("").is_none());
    assert!(parse_json("{").is_none());
    assert!(parse_json("[1,]").is_none());
    assert!(parse_json("{\"a\": 1,}").is_none());
    assert!(parse_json("01").is_none());
    assert!(parse_json("1 2").is_none());
    assert!(parse_json("'x'").is_none());
    assert!(parse_json("{\"a\" 1}").is_none());
}

#[test]
fn decimal_accepts_numbers_and_rejects_the_rest() {
    assert_eq!(Dec::parse("12.5").unwrap().as_str(), "12.5");
    assert_eq!(Dec::parse("-0.125").unwrap().as_str(), "-0.125");
    assert_eq!(Dec::parse("1e3").unwrap().as_str(), "1e3");
    assert_eq!(Dec::parse("+2.5E-7").unwrap().as_str(), "+2.5E-7");
    assert_eq!(Dec::parse("007").unwrap().as_str(), "007");
    assert!(Dec::parse("NaN").is_none());
    assert!(Dec::parse("inf").is_none());
    assert!(Dec::parse("").is_none());
    assert!(Dec::parse("1.").is_none());
    assert!(Dec::parse(".5").is_none());
    assert!(Dec::parse("--1").is_none());
    assert!(Dec::parse("1.2.3").is_none());
    assert_eq!(Dec::zero().as_str(), "0");
}

#[test]
fn network_and_order_segments() {
    assert_eq!(Network::Main.segment(), "mainnet");
    assert_eq!(Network::Test.segment(), "testnet");
    assert_eq!(ValidatorsOrder::Score.key(), "score");
    assert_eq!(ValidatorsOrder::Name.key(), "name");
    assert_eq!(ValidatorsOrder::Stake.key(), "stake");
}

#[test]
fn parses_empty_containers() {
    match parse_json("[]") {
        Some(Json::Arr(items)) => assert!(items.is_empty()),
        _ => panic!("expected an array"),
    }
    match parse_json(" { } ") {
        Some(Json::Obj(ms)) => assert!(ms.is_empty()),
        _ => panic!("expected an object"),
    }
}
