//! The handle on a validated request that dispatch code works with.

use vstd::prelude::*;
use serde_json::Value;
use crate::error::JsonRpcErrorReason;
use crate::json::{error_text, from_value, json_model, JsonModel, JsonNumber};
use crate::request::{
    envelope_error, envelope_error_is_none_iff_envelope, is_envelope, JsonRpcRequest,
};
use crate::response::JsonRpcResponse;

verus! {

/// The id that a response carries where the request's own id is unknown.
pub open spec fn unknown_id() -> i64 {
    0
}

/// The message of the response to a request of another protocol version.
pub open spec fn invalid_version_message() -> Seq<char> {
    "Invalid jsonrpc version"@
}

/// The message of the response to a call of a method that does not exist.
pub open spec fn method_not_found_message(method: Seq<char>) -> Seq<char> {
    "Method `"@ + method + "` not found"@
}

/// A validated request: its id, the name of the method that it calls, and
/// the parameters of the call, not yet decoded.
#[derive(Clone, Debug, PartialEq, Eq)]
pub struct JsonRpcExtractor {
    pub parsed: Value,
    pub method: String,
    pub id: i64,
}

impl JsonRpcExtractor {
    /// The id that the response to this request carries.
    pub fn get_answer_id(&self) -> (id: i64)
        ensures
            id == self.id,
    {
        self.id
    }

    /// The name of the method that this request calls.
    pub fn method(&self) -> (name: &str)
        ensures
            name@ == self.method@,
    {
        self.method.as_str()
    }

    /// The parameters for a request `id` whose decoding came out as
    /// `decoded`: the decoded parameters, or the response that reports them
    /// as invalid, with the decoder's diagnostic as its message.
    pub fn params_or_failure<T>(id: i64, decoded: Result<T, String>) -> (r: Result<
        T,
        JsonRpcResponse,
    >)
        ensures
            match decoded {
                Ok(params) => r == Ok::<T, JsonRpcResponse>(params),
                Err(diagnostic) => {
                    &&& r is Err
                    &&& r->Err_0.id == id
                    &&& r->Err_0.is_failure(JsonRpcErrorReason::InvalidParams)
                    &&& r->Err_0.result->Error_0.message == diagnostic
                },
            },
    {
        match decoded {
            Ok(params) => Ok(params),
            Err(diagnostic) => Err(
                JsonRpcResponse::failure(id, JsonRpcErrorReason::InvalidParams, diagnostic),
            ),
        }
    }

    /// Decodes the parameters as a `T`. Where they do not decode, the result
    /// is the response that reports them as invalid, for this request's id.
    pub fn parse_params<T: serde::de::DeserializeOwned>(self) -> (r: Result<T, JsonRpcResponse>)
        ensures
            r is Err ==> r->Err_0.id == self.id && r->Err_0.is_failure(
                JsonRpcErrorReason::InvalidParams,
            ),
    {
        let decoded = match from_value::<T>(self.parsed) {
            Ok(params) => Ok(params),
            Err(e) => Err(error_text(&e)),
        };
        JsonRpcExtractor::params_or_failure(self.id, decoded)
    }

    /// The response that reports `method` as not found, for this request's
    /// id.
    pub fn method_not_found(&self, method: &str) -> (r: JsonRpcResponse)
        ensures
            r.id == self.id,
            r.is_failure(JsonRpcErrorReason::MethodNotFound),
            r.result->Error_0.message@ == method_not_found_message(method@),
    {
        let mut message = "Method `".to_owned();
        message.push_str(method);
        message.push_str("` not found");
        JsonRpcResponse::failure(self.id, JsonRpcErrorReason::MethodNotFound, message)
    }

    /// The response to a message that could not be read as a request at
    /// all: an invalid request of unknown id, with the reader's diagnostic as
    /// its message.
    pub fn rejection(diagnostic: String) -> (r: JsonRpcResponse)
        ensures
            r.id == unknown_id(),
            r.is_failure(JsonRpcErrorReason::InvalidRequest),
            r.result->Error_0.message == diagnostic,
    {
        JsonRpcResponse::failure(0, JsonRpcErrorReason::InvalidRequest, diagnostic)
    }

    /// Turns the outcome of reading a message into a handle or into the
    /// response that rejects the message.
    ///
    /// A message that could not be read is rejected as by
    /// [`rejection`](Self::rejection). One that was read is accepted just
    /// when its protocol version is `"2.0"`; the handle then has its id,
    /// method and parameters. Any other version is rejected as an invalid
    /// request under the request's own id.
    pub fn from_request(read: Result<JsonRpcRequest, String>) -> (r: Result<Self, JsonRpcResponse>)
        ensures
            match read {
                Err(diagnostic) => {
                    &&& r is Err
                    &&& r->Err_0.id == unknown_id()
                    &&& r->Err_0.is_failure(JsonRpcErrorReason::InvalidRequest)
                    &&& r->Err_0.result->Error_0.message == diagnostic
                },
                Ok(request) => if request.jsonrpc@ == "2.0"@ {
                    &&& r is Ok
                    &&& r->Ok_0.id == request.id
                    &&& r->Ok_0.method == request.method
                    &&& r->Ok_0.parsed == request.params
                } else {
                    &&& r is Err
                    &&& r->Err_0.id == request.id
                    &&& r->Err_0.is_failure(JsonRpcErrorReason::InvalidRequest)
                    &&& r->Err_0.result->Error_0.message@ == invalid_version_message()
                },
            },
    {
        let request = match read {
            Ok(request) => request,
            Err(diagnostic) => { return Err(JsonRpcExtractor::rejection(diagnostic)); },
        };
        if request.jsonrpc != "2.0".to_owned() {
            return Err(
                JsonRpcResponse::failure(
                    request.id,
                    JsonRpcErrorReason::InvalidRequest,
                    "Invalid jsonrpc version".to_owned(),
                ),
            );
        }
        Ok(JsonRpcExtractor { parsed: request.params, method: request.method, id: request.id })
    }

    /// Reads a JSON value as a request.
    ///
    /// An envelope whose `jsonrpc` member is `"2.0"` gives the handle with
    /// its id, method and parameters. An envelope of another version is
    /// rejected as an invalid request under its own id. A value that is no
    /// envelope is rejected as an invalid request of unknown id, with the
    /// diagnostic of its first structural fault as the message.
    pub fn from_value(raw: &Value) -> (r: Result<Self, JsonRpcResponse>)
        ensures
            is_envelope(json_model(*raw)) && json_model(*raw)->Object_0["jsonrpc"@]
                == JsonModel::Text("2.0"@) ==> {
                &&& r is Ok
                &&& JsonModel::Number(JsonNumber::Integer(r->Ok_0.id as int)) == json_model(
                    *raw,
                )->Object_0["id"@]
                &&& JsonModel::Text(r->Ok_0.method@) == json_model(*raw)->Object_0["method"@]
                &&& json_model(r->Ok_0.parsed) == json_model(*raw)->Object_0["params"@]
            },
            is_envelope(json_model(*raw)) && json_model(*raw)->Object_0["jsonrpc"@]
                != JsonModel::Text("2.0"@) ==> {
                &&& r is Err
                &&& JsonModel::Number(JsonNumber::Integer(r->Err_0.id as int)) == json_model(
                    *raw,
                )->Object_0["id"@]
                &&& r->Err_0.is_failure(JsonRpcErrorReason::InvalidRequest)
                &&& r->Err_0.result->Error_0.message@ == invalid_version_message()
            },
            !is_envelope(json_model(*raw)) ==> {
                &&& r is Err
                &&& r->Err_0.id == unknown_id()
                &&& r->Err_0.is_failure(JsonRpcErrorReason::InvalidRequest)
                &&& envelope_error(json_model(*raw)) is Some
                &&& r->Err_0.result->Error_0.message@ == envelope_error(
                    json_model(*raw),
                )->Some_0.message_spec()
            },
    {
        proof {
            envelope_error_is_none_iff_envelope(json_model(*raw));
        }
        let read = match JsonRpcRequest::decode(raw) {
            Ok(request) => Ok(request),
            Err(fault) => Err(fault.message()),
        };
        JsonRpcExtractor::from_request(read)
    }
}

} // verus!
