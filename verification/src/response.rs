//! The response envelope.

use vstd::prelude::*;
use serde_json::Value;
use crate::error::{JsonRpcError, JsonRpcErrorReason};
use crate::json::{
    error_text, integer_value, json_model, new_object, no_members, null_value, object_insert,
    object_value, text_value, to_value, JsonModel, JsonNumber,
};

verus! {

/// What a response carries: the result of the call, or the error that took
/// its place.
#[derive(Clone, Debug, PartialEq, Eq)]
pub enum JsonRpcAnswer {
    Result(Value),
    Error(JsonRpcError),
}

/// A response: the id of the request that it answers, and the answer. Its
/// protocol version is always `"2.0"`.
#[derive(Clone, Debug, PartialEq, Eq)]
pub struct JsonRpcResponse {
    /// The answer: a result or an error, never both.
    pub result: JsonRpcAnswer,
    /// The id of the request.
    pub id: i64,
}

impl JsonRpcResponse {
    /// Whether this response reports an error with the given reason and no
    /// data.
    pub open spec fn is_failure(&self, reason: JsonRpcErrorReason) -> bool {
        &&& self.result is Error
        &&& self.result->Error_0.reason == reason
        &&& json_model(self.result->Error_0.data) == JsonModel::Null
    }

    /// The JSON object that carries this response on the wire: `jsonrpc`,
    /// `id`, and then `result` for a result or `error` for an error.
    pub open spec fn wire(&self) -> JsonModel {
        let head = no_members().insert("jsonrpc"@, JsonModel::Text("2.0"@)).insert(
            "id"@,
            JsonModel::Number(JsonNumber::Integer(self.id as int)),
        );
        match self.result {
            JsonRpcAnswer::Result(value) => JsonModel::Object(head.insert("result"@, json_model(value))),
            JsonRpcAnswer::Error(error) => JsonModel::Object(head.insert("error"@, error.wire())),
        }
    }

    fn new(id: i64, result: JsonRpcAnswer) -> (r: Self)
        ensures
            r.id == id,
            r.result == result,
    {
        JsonRpcResponse { result, id }
    }

    /// The response that reports `error` for the request `id`.
    pub fn error(id: i64, error: JsonRpcError) -> (r: Self)
        ensures
            r.id == id,
            r.result == JsonRpcAnswer::Error(error),
    {
        JsonRpcResponse::new(id, JsonRpcAnswer::Error(error))
    }

    /// The response that reports a failure with the given reason and message
    /// and no data.
    pub fn failure(id: i64, reason: JsonRpcErrorReason, message: String) -> (r: Self)
        ensures
            r.id == id,
            r.is_failure(reason),
            r.result->Error_0.message == message,
    {
        JsonRpcResponse::error(id, JsonRpcError::new(reason, message, null_value()))
    }

    /// The response for a payload whose encoding came out as `encoded`: the
    /// encoded value as the result, or an internal error whose message is the
    /// encoder's diagnostic.
    pub fn from_encoded(id: i64, encoded: Result<Value, String>) -> (r: Self)
        ensures
            r.id == id,
            match encoded {
                Ok(value) => r.result == JsonRpcAnswer::Result(value),
                Err(diagnostic) => r.is_failure(JsonRpcErrorReason::InternalError)
                    && r.result->Error_0.message == diagnostic,
            },
    {
        match encoded {
            Ok(value) => JsonRpcResponse::new(id, JsonRpcAnswer::Result(value)),
            Err(diagnostic) => JsonRpcResponse::failure(id, JsonRpcErrorReason::InternalError, diagnostic),
        }
    }

    /// The response that carries `result` for the request `id`. A payload
    /// that cannot be encoded as JSON gives an internal error instead.
    pub fn success<T: serde::Serialize>(id: i64, result: T) -> (r: Self)
        ensures
            r.id == id,
            r.result is Result || r.is_failure(JsonRpcErrorReason::InternalError),
    {
        let encoded = match to_value(result) {
            Ok(value) => Ok(value),
            Err(e) => Err(error_text(&e)),
        };
        JsonRpcResponse::from_encoded(id, encoded)
    }

    /// The protocol version that every response states.
    pub fn jsonrpc(&self) -> (v: &'static str)
        ensures
            v@ == "2.0"@,
    {
        "2.0"
    }

    /// This response as a JSON value, in its wire form.
    pub fn to_value(&self) -> (v: Value)
        ensures
            json_model(v) == self.wire(),
    {
        let mut members = new_object();
        object_insert(&mut members, "jsonrpc".to_owned(), text_value("2.0".to_owned()));
        object_insert(&mut members, "id".to_owned(), integer_value(self.id));
        match &self.result {
            JsonRpcAnswer::Result(value) => {
                object_insert(&mut members, "result".to_owned(), value.clone());
            },
            JsonRpcAnswer::Error(error) => {
                object_insert(&mut members, "error".to_owned(), error.to_value());
            },
        }
        object_value(members)
    }

    /// Every response has, on the wire, the members `jsonrpc` and `id` and
    /// exactly one of `result` and `error`, and no member besides these: a
    /// response with a result has `result`, one with an error has `error`.
    pub proof fn wire_has_one_outcome(&self)
        ensures
            self.wire() is Object,
            self.wire()->Object_0.dom() =~= (if self.result is Result {
                set!["jsonrpc"@, "id"@, "result"@]
            } else {
                set!["jsonrpc"@, "id"@, "error"@]
            }),
            self.wire()->Object_0.contains_key("result"@) <==> self.result is Result,
            self.wire()->Object_0.contains_key("error"@) <==> self.result is Error,
            self.wire()->Object_0.contains_key("result"@) != self.wire()->Object_0.contains_key("error"@),
            self.wire()->Object_0["jsonrpc"@] == JsonModel::Text("2.0"@),
            self.wire()->Object_0["id"@] == JsonModel::Number(JsonNumber::Integer(self.id as int)),
    {
        reveal_strlit("jsonrpc");
        reveal_strlit("id");
        reveal_strlit("result");
        reveal_strlit("error");
        assert("jsonrpc"@.len() == 7);
        assert("id"@.len() == 2);
        assert("result"@.len() == 6);
        assert("error"@.len() == 5);
    }
}

} // verus!
