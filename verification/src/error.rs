//! Error reasons, their codes, and the error object of a response.

use vstd::prelude::*;
use serde_json::Value;
use crate::json::{
    integer_value, json_model, new_object, no_members, object_insert, object_members, object_value,
    text_value, JsonModel, JsonNumber,
};

verus! {

/// Why a request failed.
#[derive(Clone, Copy, Debug, PartialEq, Eq, Structural)]
pub enum JsonRpcErrorReason {
    /// The message is not a valid request object.
    InvalidRequest,
    /// The method does not exist.
    MethodNotFound,
    /// The parameters do not have the shape that the method takes.
    InvalidParams,
    /// The server failed while it handled the request.
    InternalError,
    /// A failure that the application defines, with a code of its own.
    ApplicationError(i32),
}

impl JsonRpcErrorReason {
    /// The code that stands for this reason on the wire.
    pub open spec fn code_spec(self) -> int {
        match self {
            JsonRpcErrorReason::InvalidRequest => -32600,
            JsonRpcErrorReason::MethodNotFound => -32601,
            JsonRpcErrorReason::InvalidParams => -32602,
            JsonRpcErrorReason::InternalError => -32603,
            JsonRpcErrorReason::ApplicationError(code) => code as int,
        }
    }

    /// The code that stands for this reason on the wire.
    pub fn code(self) -> (c: i32)
        ensures
            c == self.code_spec(),
    {
        match self {
            JsonRpcErrorReason::InvalidRequest => -32600,
            JsonRpcErrorReason::MethodNotFound => -32601,
            JsonRpcErrorReason::InvalidParams => -32602,
            JsonRpcErrorReason::InternalError => -32603,
            JsonRpcErrorReason::ApplicationError(code) => code,
        }
    }
}

/// The error object of a failed request.
#[derive(Clone, Debug, PartialEq, Eq)]
pub struct JsonRpcError {
    /// Why the request failed; it fixes the code.
    pub reason: JsonRpcErrorReason,
    /// A description for people.
    pub message: String,
    /// Further detail; `null` where there is none.
    pub data: Value,
}

impl JsonRpcError {
    /// The JSON object that carries this error on the wire: its `code`, its
    /// `message` and its `data`, and no other member.
    pub open spec fn wire(&self) -> JsonModel {
        JsonModel::Object(
            no_members().insert("code"@, JsonModel::Number(JsonNumber::Integer(self.reason.code_spec())))
                .insert("message"@, JsonModel::Text(self.message@))
                .insert("data"@, json_model(self.data)),
        )
    }

    /// An error object with the given reason, message and data.
    pub fn new(reason: JsonRpcErrorReason, message: String, data: Value) -> (e: Self)
        ensures
            e.reason == reason,
            e.message == message,
            e.data == data,
    {
        JsonRpcError { reason, message, data }
    }

    /// The code of this error's reason.
    pub fn code(&self) -> (c: i32)
        ensures
            c == self.reason.code_spec(),
    {
        self.reason.code()
    }

    /// This error as a JSON value, in its wire form.
    pub fn to_value(&self) -> (v: Value)
        ensures
            json_model(v) == self.wire(),
    {
        let mut members = new_object();
        object_insert(&mut members, "code".to_owned(), integer_value(self.reason.code() as i64));
        object_insert(&mut members, "message".to_owned(), text_value(self.message.clone()));
        object_insert(&mut members, "data".to_owned(), self.data.clone());
        object_value(members)
    }
}

} // verus!
