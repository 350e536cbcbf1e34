use hdnode::json::Json;
use hdnode::json::Number;
use hdnode::jsonrpc::Error;
use hdnode::jsonrpc::Id;
use hdnode::jsonrpc::JsonRpc;
use hdnode::jsonrpc::Params;
use hdnode::jsonrpc::Request;
use hdnode::jsonrpc::Response;
use serde_json::Value;

fn value_of(json: &Json) -> Value {
    serde_json::from_str(&json.encode().unwrap()).unwrap()
}

fn object(members: Vec<(&str, Value)>) -> Value {
    let mut map = serde_json::Map::new();
    for (key, value) in members {
        map.insert(key.to_string(), value);
    }
    Value::Object(map)
}

fn foo_request() -> Request {
    Request {
        jsonrpc: JsonRpc::V2,
        method: "foo".to_string(),
        params: Some(Params::Array(vec![
            Json::Number(Number::from_u64(1)),
            Json::String("2".to_string()),
        ])),
        id: Id::Number(Number::from_i64(42)),
    }
}

fn foo_request_value() -> Value {
    object(vec![
        ("jsonrpc", Value::from("2.0")),
        ("method", Value::from("foo")),
        ("params", Value::Array(vec![Value::from(1), Value::from("2")])),
        ("id", Value::from(42)),
    ])
}

fn ok_response() -> Response {
    Response {
        jsonrpc: JsonRpc::V2,
        result: Ok(Json::String("foo".to_string())),
        id: Id::Number(Number::from_i64(42)),
    }
}

fn err_response() -> Response {
    Response {
        jsonrpc: JsonRpc::V2,
        result: Err(Error { code: 42, message: "error".to_string(), data: None }),
        id: Id::Number(Number::from_i64(42)),
    }
}

fn check_version() {
    assert_eq!(value_of(&JsonRpc::V2.to_json()), Value::from("2.0"));
}

fn check_id() {
    assert_eq!(value_of(&Id::String("1".to_string()).to_json()), Value::from("1"));
    assert_eq!(Id::Number(Number::from_i64(42)).to_json().encode().unwrap(), "42");
    assert_eq!(Id::Number(Number::from_text("13.37")).to_json().encode().unwrap(), "13.37");
    assert_eq!(value_of(&Id::Null.to_json()), Value::Null);
}

fn check_missing_id() {
    let body = object(vec![
        ("jsonrpc", Value::from("2.0")),
        ("method", Value::from("foo")),
        ("params", Value::Array(vec![])),
    ])
    .to_string();
    assert!(Request::decode(&body).is_none());
}

fn check_request() {
    assert_eq!(value_of(&foo_request().to_json()), foo_request_value());
}

fn check_responses() {
    assert_eq!(
        value_of(&ok_response().to_json()),
        object(vec![
            ("jsonrpc", Value::from("2.0")),
            ("result", Value::from("foo")),
            ("id", Value::from(42)),
        ]),
    );
    assert_eq!(
        value_of(&err_response().to_json()),
        object(vec![
            ("jsonrpc", Value::from("2.0")),
            (
                "error",
                object(vec![("code", Value::from(42)), ("message", Value::from("error"))]),
            ),
            ("id", Value::from(42)),
        ]),
    );
}

#[test]
fn jsonrpc_jsonrpc_version() {
    check_version();
}

#[test]
fn jsonrpc_id() {
    check_id();
}

#[test]
fn jsonrpc_invalid_missing_id() {
    check_missing_id();
}

#[test]
fn jsonrpc_request() {
    check_request();
}

#[test]
fn jsonrpc_responses() {
    check_responses();
}

#[test]
fn rpc_jsonrpc_version() {
    check_version();
}

#[test]
fn rpc_id() {
    check_id();
}

#[test]
fn rpc_invalid_missing_id() {
    check_missing_id();
}

#[test]
fn rpc_request() {
    check_request();
}

#[test]
fn rpc_responses() {
    check_responses();
}

#[test]
fn request_reads_back() {
    let text = foo_request().encode().unwrap();
    assert_eq!(Request::decode(&text), Some(foo_request()));
}

#[test]
fn request_without_params_writes_null_and_reads_back() {
    let request = Request {
        jsonrpc: JsonRpc::V2,
        method: "eth_blockNumber".to_string(),
        params: None,
        id: Id::String("a".to_string()),
    };
    let text = request.encode().unwrap();
    let value: Value = serde_json::from_str(&text).unwrap();
    assert_eq!(value["params"], Value::Null);
    assert_eq!(Request::decode(&text), Some(request));
    let bare = r#"{"jsonrpc":"2.0","method":"eth_blockNumber","id":"a"}"#;
    assert_eq!(Request::decode(bare).unwrap().params, None);
}

#[test]
fn request_with_named_params_reads_back() {
    let request = Request {
        jsonrpc: JsonRpc::V2,
        method: "m".to_string(),
        params: Some(Params::Object(vec![("a".to_string(), Json::Bool(true))])),
        id: Id::Null,
    };
    assert_eq!(Request::decode(&request.encode().unwrap()), Some(request));
}

#[test]
fn request_with_other_version_or_params_is_none() {
    assert!(Request::decode(r#"{"jsonrpc":"1.0","method":"m","id":1}"#).is_none());
    assert!(Request::decode(r#"{"jsonrpc":"2.0","method":"m","params":5,"id":1}"#).is_none());
    assert!(Request::decode(r#"{"jsonrpc":"2.0","method":7,"id":1}"#).is_none());
    assert!(Request::decode(r#"{"jsonrpc":"2.0","method":"m","id":true}"#).is_none());
    assert!(Request::decode("not json").is_none());
}

#[test]
fn response_reads_back() {
    for response in [ok_response(), err_response()] {
        let text = response.encode().unwrap();
        assert_eq!(Response::decode(&text), Some(response));
    }
}

#[test]
fn response_with_null_result_reads_back() {
    let response = Response { jsonrpc: JsonRpc::V2, result: Ok(Json::Null), id: Id::Null };
    let text = response.encode().unwrap();
    assert_eq!(Response::decode(&text), Some(response));
}

#[test]
fn response_with_error_data_reads_back() {
    let response = Response {
        jsonrpc: JsonRpc::V2,
        result: Err(Error {
            code: -32000,
            message: "reverted".to_string(),
            data: Some(Json::Array(vec![Json::String("0x".to_string())])),
        }),
        id: Id::Number(Number::from_u64(7)),
    };
    let text = response.encode().unwrap();
    let value: Value = serde_json::from_str(&text).unwrap();
    assert_eq!(value["error"]["code"], Value::from(-32000));
    assert!(value.get("result").is_none());
    assert_eq!(Response::decode(&text), Some(response));
}

#[test]
fn response_needs_exactly_one_of_result_and_error() {
    let both = r#"{"jsonrpc":"2.0","result":1,"error":{"code":1,"message":"m"},"id":1}"#;
    let neither = r#"{"jsonrpc":"2.0","id":1}"#;
    assert!(Response::decode(both).is_none());
    assert!(Response::decode(neither).is_none());
    assert!(Response::decode(r#"{"jsonrpc":"2.0","result":1,"id":1}"#).is_some());
    assert!(Response::decode(r#"{"jsonrpc":"2.0","error":{"code":1,"message":"m"},"id":1}"#)
        .is_some());
}

#[test]
fn error_code_has_to_be_a_whole_number_of_64_bits() {
    let fraction = r#"{"jsonrpc":"2.0","error":{"code":1.5,"message":"m"},"id":1}"#;
    let large = r#"{"jsonrpc":"2.0","error":{"code":9223372036854775808,"message":"m"},"id":1}"#;
    let least = r#"{"jsonrpc":"2.0","error":{"code":-9223372036854775808,"message":"m"},"id":1}"#;
    assert!(Response::decode(fraction).is_none());
    assert!(Response::decode(large).is_none());
    let response = Response::decode(least).unwrap();
    assert_eq!(response.result.unwrap_err().code, i64::MIN);
}

#[test]
fn well_known_errors() {
    assert_eq!(Error::parse_error().code, -32700);
    assert_eq!(Error::parse_error().message, "Parse error");
    assert_eq!(Error::invalid_request().code, -32600);
    assert_eq!(Error::invalid_request().message, "Invalid Request");
    assert_eq!(Error::invalid_params().code, -32602);
    assert_eq!(Error::invalid_params().message, "Invalid params");
    assert_eq!(Error::internal_error().code, -32603);
    assert_eq!(Error::internal_error().message, "Internal error");
    assert_eq!(Error::internal_error().text(), "Internal error");
    assert_eq!(Error::internal_error().data, None);
}

#[test]
fn numbers_in_decimal() {
    assert_eq!(Number::from_u64(0).0, "0");
    assert_eq!(Number::from_u64(u64::MAX).0, "18446744073709551615");
    assert_eq!(Number::from_i64(-1).0, "-1");
    assert_eq!(Number::from_i64(i64::MIN).0, "-9223372036854775808");
    assert_eq!(Number::from_text("18446744073709551615").as_u64(), Some(u64::MAX));
    assert_eq!(Number::from_text("18446744073709551616").as_u64(), None);
    assert_eq!(Number::from_text("-5").as_u64(), None);
    assert_eq!(Number::from_text("1.0").as_u64(), None);
    assert_eq!(Number::from_text("").as_u64(), None);
    assert_eq!(Number::from_text("-5").as_i64(), Some(-5));
    assert_eq!(Number::from_text("9223372036854775807").as_i64(), Some(i64::MAX));
    assert_eq!(Number::from_text("9223372036854775808").as_i64(), None);
}

#[test]
fn json_text_goes_through_serde_json() {
    let text = r#" { "b" : [1, 2.5, null, true], "a" : "x" } "#;
    let json = Json::decode(text).unwrap();
    assert_eq!(
        json,
        Json::Object(vec![
            ("a".to_string(), Json::String("x".to_string())),
            (
                "b".to_string(),
                Json::Array(vec![
                    Json::Number(Number::from_text("1")),
                    Json::Number(Number::from_text("2.5")),
                    Json::Null,
                    Json::Bool(true),
                ]),
            ),
        ]),
    );
    assert_eq!(json.encode().unwrap(), r#"{"a":"x","b":[1,2.5,null,true]}"#);
    assert_eq!(Json::decode("{"), None);
    assert_eq!(Json::Number(Number::from_text("one")).encode(), None);
}
