use jsonrpc_core::Error;
use rpc_dispatch::dispatch::{build_table, DispatchTable, HandlerDeclaration};
use rpc_dispatch::attrs::{Annotation, MetaItem, NestedItem};
use rpc_dispatch::invoke::{bind_arguments, serialize_result, write_skip_notice, Invocation};
use rpc_dispatch::params::ParamsWire;
use serde_json::Value;

fn declare(identifier: &str, notification: bool, types: &[&str]) -> HandlerDeclaration {
    let annotations = if notification {
        vec![Annotation {
            meta: Some(MetaItem::List(
                "rpc".to_string(),
                vec![NestedItem::Meta(MetaItem::Word("notification".to_string()))],
            )),
        }]
    } else {
        vec![]
    };
    HandlerDeclaration {
        identifier: identifier.to_string(),
        annotations,
        param_types: types.iter().map(|t| t.to_string()).collect(),
        return_type: None,
    }
}

fn service() -> DispatchTable {
    build_table(vec![
        declare("ping", false, &[]),
        declare("double", false, &["i64"]),
        declare("sum", false, &["i64", "i64"]),
        declare("tick", true, &[]),
        declare("note", true, &["String"]),
    ])
}

fn text(s: &str) -> Value {
    Value::String(s.to_string())
}

fn to_value<T: serde::Serialize>(result: T) -> Value {
    serde_json::to_value(&result).unwrap()
}

fn decode<D: serde::de::DeserializeOwned>(value: Value) -> Result<D, String> {
    serde_json::from_value::<D>(value).map_err(|e| e.to_string())
}

#[test]
fn sum_of_two_positional_parameters() {
    let table = service();
    let outcome = table.lookup("sum").unwrap().invoke(
        ParamsWire::PositionalList(vec![Value::from(2), Value::from(3)]),
        decode::<(i64, i64)>,
        |arguments: Option<(i64, i64)>| {
            let (a, b) = arguments.unwrap();
            Ok::<i64, Error>(a + b)
        },
        to_value::<i64>,
    );
    assert_eq!(outcome, Invocation::Reply(Ok(Value::from(5))));
}

#[test]
fn handler_without_parameters_ignores_the_payload() {
    let table = service();
    let mut fields = serde_json::Map::new();
    fields.insert("x".to_string(), Value::Null);
    let payloads = vec![
        ParamsWire::Absent,
        ParamsWire::PositionalList(vec![text("garbage")]),
        ParamsWire::PositionalList(vec![Value::from(1), Value::from(2)]),
        ParamsWire::NamedObject(fields),
    ];
    for payload in payloads {
        let mut asked = false;
        let outcome = table.lookup("ping").unwrap().invoke(
            payload,
            |value| {
                asked = true;
                decode::<()>(value)
            },
            |arguments: Option<()>| {
                assert_eq!(arguments, None);
                Ok::<&str, Error>("pong")
            },
            to_value::<&str>,
        );
        assert_eq!(outcome, Invocation::Reply(Ok(text("pong"))));
        assert!(!asked);
    }
}

#[test]
fn notification_with_wrong_arity_is_skipped_and_logged() {
    let table = service();
    let mut ran = false;
    let outcome = table.lookup("note").unwrap().invoke(
        ParamsWire::PositionalList(vec![]),
        decode::<String>,
        |_arguments: Option<String>| {
            ran = true;
            Ok::<(), Error>(())
        },
        to_value::<()>,
    );
    assert_eq!(
        outcome,
        Invocation::Silent(Some(
            "wrong parameter types for notification (rpc: note), skip".to_string()
        ))
    );
    assert!(!ran);
}

#[test]
fn notification_runs_and_leaves_nothing() {
    let table = service();
    let mut seen = None;
    let outcome = table.lookup("note").unwrap().invoke(
        ParamsWire::PositionalList(vec![text("hello")]),
        decode::<String>,
        |arguments: Option<String>| {
            seen = arguments;
            Ok::<u8, Error>(9)
        },
        to_value::<u8>,
    );
    assert_eq!(outcome, Invocation::Silent(None));
    assert_eq!(seen, Some("hello".to_string()));
}

#[test]
fn notification_discards_the_failure_of_its_handler() {
    let table = service();
    let outcome = table.lookup("tick").unwrap().invoke(
        ParamsWire::Absent,
        decode::<()>,
        |_arguments: Option<()>| Err::<(), Error>(Error::internal_error()),
        to_value::<()>,
    );
    assert_eq!(outcome, Invocation::Silent(None));
}

#[test]
fn method_reports_invalid_parameters() {
    let table = service();
    let mut ran = false;
    let detail = decode::<i64>(text("seven")).unwrap_err();
    let outcome = table.lookup("double").unwrap().invoke(
        ParamsWire::PositionalList(vec![text("seven")]),
        decode::<i64>,
        |arguments: Option<i64>| {
            ran = true;
            Ok::<i64, Error>(arguments.unwrap() * 2)
        },
        to_value::<i64>,
    );
    assert_eq!(
        outcome,
        Invocation::Reply(Err(Error::invalid_params(format!("expected {}", detail))))
    );
    assert!(!ran);
}

#[test]
fn method_passes_the_failure_of_its_handler_on() {
    let table = service();
    let failure = Error::invalid_request();
    let expected = failure.clone();
    let outcome = table.lookup("double").unwrap().invoke(
        ParamsWire::PositionalList(vec![Value::from(4)]),
        decode::<i64>,
        move |_arguments: Option<i64>| Err::<i64, Error>(failure),
        to_value::<i64>,
    );
    assert_eq!(outcome, Invocation::Reply(Err(expected)));
}

#[test]
fn single_parameter_takes_the_item_of_a_list_of_one() {
    let table = service();
    let outcome = table.lookup("double").unwrap().invoke(
        ParamsWire::PositionalList(vec![Value::from(21)]),
        decode::<i64>,
        |arguments: Option<i64>| Ok::<i64, Error>(arguments.unwrap() * 2),
        to_value::<i64>,
    );
    assert_eq!(outcome, Invocation::Reply(Ok(Value::from(42))));
    assert_eq!(decode::<i64>(Value::from(21)), Ok(21));
}

#[test]
fn named_parameters_are_refused_where_positions_are_needed() {
    let table = service();
    let mut fields = serde_json::Map::new();
    fields.insert("a".to_string(), Value::from(2));
    fields.insert("b".to_string(), Value::from(3));
    let mut asked = false;
    let outcome = table.lookup("sum").unwrap().invoke(
        ParamsWire::NamedObject(fields),
        |value| {
            asked = true;
            decode::<(i64, i64)>(value)
        },
        |arguments: Option<(i64, i64)>| Ok::<i64, Error>(arguments.unwrap().0),
        to_value::<i64>,
    );
    assert_eq!(
        outcome,
        Invocation::Reply(Err(Error::invalid_params("expected positional parameters")))
    );
    assert!(!asked);
}

#[test]
fn named_parameters_reach_a_single_parameter_as_an_object() {
    let mut fields = serde_json::Map::new();
    fields.insert("k".to_string(), Value::from(1));
    let bound = bind_arguments(1, ParamsWire::NamedObject(fields.clone()), decode::<serde_json::Map<String, Value>>);
    assert_eq!(bound, Ok(Some(fields)));
}

#[test]
fn binding_for_no_parameters_gives_no_arguments() {
    let bound = bind_arguments(0, ParamsWire::PositionalList(vec![text("x")]), decode::<i64>);
    assert_eq!(bound, Ok(None));
}

#[test]
fn serialising_keeps_a_failure_and_converts_a_result() {
    assert_eq!(
        serialize_result(Ok::<Vec<u8>, Error>(vec![1, 2]), to_value::<Vec<u8>>),
        Ok(Value::Array(vec![Value::from(1), Value::from(2)]))
    );
    assert_eq!(
        serialize_result(Err::<u8, Error>(Error::parse_error()), to_value::<u8>),
        Err(Error::parse_error())
    );
}

#[test]
fn skip_notice_names_the_wire_name() {
    assert_eq!(
        write_skip_notice("publicName"),
        "wrong parameter types for notification (rpc: publicName), skip"
    );
    assert_eq!(write_skip_notice(""), "wrong parameter types for notification (rpc: ), skip");
}
