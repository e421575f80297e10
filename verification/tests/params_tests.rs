use jsonrpc_core::{Error, ErrorCode};
use rpc_dispatch::params::{bind_outcome, canonical_value, parse_params, ParamsWire};
use serde_json::Value;

fn text(s: &str) -> Value {
    Value::String(s.to_string())
}

#[test]
fn absent_payload_is_the_empty_array() {
    assert_eq!(canonical_value(ParamsWire::Absent), Value::Array(Vec::new()));
}

#[test]
fn empty_list_is_the_empty_array() {
    assert_eq!(
        canonical_value(ParamsWire::PositionalList(Vec::new())),
        Value::Array(Vec::new())
    );
}

#[test]
fn single_item_list_is_unwrapped() {
    assert_eq!(
        canonical_value(ParamsWire::PositionalList(vec![Value::from(7)])),
        Value::from(7)
    );
    let inner = Value::Array(vec![Value::from(1), Value::from(2)]);
    assert_eq!(
        canonical_value(ParamsWire::PositionalList(vec![inner.clone()])),
        inner
    );
}

#[test]
fn longer_list_keeps_its_items_in_order() {
    let items = vec![Value::from(2), Value::from(3), text("x")];
    assert_eq!(
        canonical_value(ParamsWire::PositionalList(items.clone())),
        Value::Array(items)
    );
}

#[test]
fn named_parameters_become_an_object() {
    let mut fields = serde_json::Map::new();
    fields.insert("a".to_string(), Value::from(1));
    fields.insert("b".to_string(), text("two"));
    assert_eq!(
        canonical_value(ParamsWire::NamedObject(fields.clone())),
        Value::Object(fields)
    );
}

#[test]
fn bind_outcome_keeps_decoded_arguments() {
    let bound: Result<(i64, String), Error> = bind_outcome(Ok((4, "four".to_string())));
    assert_eq!(bound, Ok((4, "four".to_string())));
}

#[test]
fn bind_outcome_builds_the_invalid_params_error() {
    let bound: Result<i64, Error> = bind_outcome(Err("a number".to_string()));
    let error = bound.unwrap_err();
    assert_eq!(error.code, ErrorCode::InvalidParams);
    assert_eq!(error.message, "expected a number");
    assert_eq!(error.data, None);
    assert_eq!(error, Error::invalid_params("expected a number"));
}

#[test]
fn parse_params_decodes_a_pair() {
    let params = ParamsWire::PositionalList(vec![Value::from(2), Value::from(3)]);
    let bound = parse_params(params, |value| {
        serde_json::from_value::<(i64, i64)>(value).map_err(|e| e.to_string())
    });
    assert_eq!(bound, Ok((2, 3)));
}

#[test]
fn parse_params_hands_the_canonical_value_to_the_decoder() {
    let params = ParamsWire::PositionalList(vec![text("only")]);
    let mut seen = None;
    let bound = parse_params(params, |value| {
        seen = Some(value);
        Ok::<u8, String>(1)
    });
    assert_eq!(bound, Ok(1));
    assert_eq!(seen, Some(text("only")));
}

#[test]
fn parse_params_reports_what_was_expected() {
    let params = ParamsWire::PositionalList(vec![text("garbage")]);
    let detail = serde_json::from_value::<i64>(text("garbage")).unwrap_err().to_string();
    let bound = parse_params(params, |value| {
        serde_json::from_value::<i64>(value).map_err(|e| e.to_string())
    });
    assert_eq!(bound, Err(Error::invalid_params(format!("expected {}", detail))));
}

#[test]
fn single_item_list_decodes_as_the_bare_value() {
    let bare = Value::from(41);
    let direct = serde_json::from_value::<i64>(bare.clone()).map_err(|e| e.to_string());
    let listed = parse_params(ParamsWire::PositionalList(vec![bare]), |value| {
        serde_json::from_value::<i64>(value).map_err(|e| e.to_string())
    });
    assert_eq!(listed, bind_outcome(direct));
    assert_eq!(listed, Ok(41));
}

#[test]
fn marker_attribute_returns_the_item_unchanged() {
    let attr: proc_macro2::TokenStream = "name = \"x\"".parse().unwrap();
    let item: proc_macro2::TokenStream = "fn ping(&self) -> u8 { 1 }".parse().unwrap();
    let out = rpc_dispatch::rpc(attr, item.clone());
    assert_eq!(out.to_string(), item.to_string());
    assert!(!out.is_empty());
}
