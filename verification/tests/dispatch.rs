use std::collections::BTreeMap;

use axum_jrpc::{
    JrpcResult, JsonRpcAnswer, JsonRpcError, JsonRpcErrorReason, JsonRpcExtractor, JsonRpcResponse,
};
use serde_json::Value;

fn json(text: &str) -> Value {
    serde_json::from_str(text).unwrap()
}

fn handle(text: &str) -> JsonRpcExtractor {
    JsonRpcExtractor::from_value(&json(text)).unwrap()
}

fn failure(response: &JsonRpcResponse) -> &JsonRpcError {
    match &response.result {
        JsonRpcAnswer::Error(e) => e,
        JsonRpcAnswer::Result(_) => panic!("not an error"),
    }
}

fn router(req: JsonRpcExtractor) -> JrpcResult {
    let req_id = req.get_answer_id();
    let method = req.method().to_owned();
    match method.as_str() {
        "add" => {
            let params: [i32; 2] = req.parse_params()?;
            Ok(JsonRpcResponse::success(req_id, params[0] + params[1]))
        }
        m => Ok(req.method_not_found(m)),
    }
}

fn answer(text: &str) -> Value {
    let response = match JsonRpcExtractor::from_value(&json(text)).and_then(router) {
        Ok(response) => response,
        Err(response) => response,
    };
    response.to_value()
}

#[test]
fn add_example() {
    assert_eq!(
        answer(r#"{"id":1,"jsonrpc":"2.0","method":"add","params":[2,3]}"#),
        json(r#"{"jsonrpc":"2.0","id":1,"result":5}"#)
    );
}

#[test]
fn invalid_version_example() {
    assert_eq!(
        answer(r#"{"id":7,"jsonrpc":"1.0","method":"x","params":null}"#),
        json(r#"{"jsonrpc":"2.0","id":7,"error":{"code":-32600,"message":"Invalid jsonrpc version","data":null}}"#)
    );
}

#[test]
fn unknown_method_example() {
    assert_eq!(
        answer(r#"{"id":2,"jsonrpc":"2.0","method":"mul","params":[2,3]}"#),
        json(r#"{"jsonrpc":"2.0","id":2,"error":{"code":-32601,"message":"Method `mul` not found","data":null}}"#)
    );
}

#[test]
fn params_of_the_wrong_shape_example() {
    let value = answer(r#"{"id":3,"jsonrpc":"2.0","method":"add","params":[2,"x"]}"#);
    assert_eq!(value["id"], json("3"));
    assert_eq!(value["error"]["code"], json("-32602"));
    assert_eq!(value["error"]["data"], Value::Null);
    assert!(value.get("result").is_none());
}

#[test]
fn method_not_found_names_the_method() {
    let req = handle(r#"{"id":9,"jsonrpc":"2.0","method":"bar","params":null}"#);
    let response = req.method_not_found("foo");
    assert_eq!(response.id, 9);
    let e = failure(&response);
    assert_eq!(e.reason, JsonRpcErrorReason::MethodNotFound);
    assert_eq!(e.code(), -32601);
    assert_eq!(e.message, "Method `foo` not found");
    assert!(e.message.contains("foo"));
    assert_eq!(e.data, Value::Null);
    // The handle is still there afterwards.
    assert_eq!(req.method(), "bar");
}

#[test]
fn parse_params_decodes_the_requested_shape() {
    let req = handle(r#"{"id":1,"jsonrpc":"2.0","method":"m","params":[2,3]}"#);
    let pair: Result<[i32; 2], JsonRpcResponse> = req.parse_params();
    assert_eq!(pair.unwrap(), [2, 3]);

    let req = handle(r#"{"id":1,"jsonrpc":"2.0","method":"m","params":{"a":1,"b":2}}"#);
    let table: BTreeMap<String, i64> = req.parse_params().unwrap();
    assert_eq!(table.len(), 2);
    assert_eq!(table["a"], 1);
    assert_eq!(table["b"], 2);

    let req = handle(r#"{"id":1,"jsonrpc":"2.0","method":"m","params":null}"#);
    let nothing: Option<String> = req.parse_params().unwrap();
    assert_eq!(nothing, None);

    let req = handle(r#"{"id":1,"jsonrpc":"2.0","method":"m","params":["x",true]}"#);
    let mixed: (String, bool) = req.parse_params().unwrap();
    assert_eq!(mixed, ("x".to_owned(), true));
}

#[test]
fn parse_params_failure_is_an_invalid_params_response() {
    let cases = [
        r#"{"id":21,"jsonrpc":"2.0","method":"m","params":null}"#,
        r#"{"id":21,"jsonrpc":"2.0","method":"m","params":[1]}"#,
        r#"{"id":21,"jsonrpc":"2.0","method":"m","params":[1,2,3]}"#,
        r#"{"id":21,"jsonrpc":"2.0","method":"m","params":["1","2"]}"#,
        r#"{"id":21,"jsonrpc":"2.0","method":"m","params":{"a":1}}"#,
        r#"{"id":21,"jsonrpc":"2.0","method":"m","params":[1,4294967296]}"#,
    ];
    for text in cases {
        let req = handle(text);
        let expected = serde_json::from_value::<[i32; 2]>(req.parsed.clone())
            .unwrap_err()
            .to_string();
        let out: Result<[i32; 2], JsonRpcResponse> = req.parse_params();
        let response = out.unwrap_err();
        assert_eq!(response.id, 21);
        let e = failure(&response);
        assert_eq!(e.reason, JsonRpcErrorReason::InvalidParams);
        assert_eq!(e.code(), -32602);
        assert_eq!(e.message, expected);
        assert!(!e.message.is_empty());
        assert_eq!(e.data, Value::Null);
    }
}

#[test]
fn params_or_failure_keeps_decoded_params() {
    let out = JsonRpcExtractor::params_or_failure(4, Ok::<Vec<u8>, String>(vec![1, 2]));
    assert_eq!(out, Ok(vec![1, 2]));
}

#[test]
fn params_or_failure_reports_the_diagnostic() {
    let out = JsonRpcExtractor::params_or_failure::<u8>(-4, Err("out of range".to_owned()));
    let response = out.unwrap_err();
    assert_eq!(response.id, -4);
    let e = failure(&response);
    assert_eq!(e.reason, JsonRpcErrorReason::InvalidParams);
    assert_eq!(e.code(), -32602);
    assert_eq!(e.message, "out of range");
    assert_eq!(e.data, Value::Null);
}
