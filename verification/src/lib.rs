//! The message layer of JSON-RPC 2.0: decoding and validating a request
//! envelope, handing the request to dispatch code, and building the
//! response envelope that answers it.
//!
//! A dispatcher reads a request with [`JsonRpcExtractor::from_value`],
//! matches on [`JsonRpcExtractor::method`], decodes the parameters with
//! [`JsonRpcExtractor::parse_params`] and answers with
//! [`JsonRpcResponse::success`]. Every failure on the way is itself a
//! response, so each branch can hand it back with `?`.

use vstd::prelude::*;

pub mod error;
pub mod extractor;
pub mod json;
pub mod request;
pub mod response;

pub use crate::error::{JsonRpcError, JsonRpcErrorReason};
pub use crate::extractor::JsonRpcExtractor;
pub use crate::request::{EnvelopeError, EnvelopeField, JsonRpcRequest};
pub use crate::response::{JsonRpcAnswer, JsonRpcResponse};

verus! {

/// What a dispatcher returns: the response, whether it reports a result or
/// an error.
pub type JrpcResult = Result<JsonRpcResponse, JsonRpcResponse>;

} // verus!

