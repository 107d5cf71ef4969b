//! The request envelope and its structural decoding.

use vstd::prelude::*;
use vstd::set_lib::*;
use serde_json::Value;
use crate::json::{as_i64, as_object, as_str, json_model, object_get, object_len, JsonModel, JsonNumber};

verus! {

/// One of the four members of a request.
#[derive(Clone, Copy, Debug, PartialEq, Eq, Structural)]
pub enum EnvelopeField {
    Id,
    Jsonrpc,
    Method,
    Params,
}

impl EnvelopeField {
    /// The member's key on the wire.
    pub open spec fn name_spec(self) -> Seq<char> {
        match self {
            EnvelopeField::Id => "id"@,
            EnvelopeField::Jsonrpc => "jsonrpc"@,
            EnvelopeField::Method => "method"@,
            EnvelopeField::Params => "params"@,
        }
    }

    /// The member's key on the wire.
    pub fn name(self) -> (s: &'static str)
        ensures
            s@ == self.name_spec(),
    {
        match self {
            EnvelopeField::Id => "id",
            EnvelopeField::Jsonrpc => "jsonrpc",
            EnvelopeField::Method => "method",
            EnvelopeField::Params => "params",
        }
    }
}

/// Why a JSON value is not a request envelope.
#[derive(Clone, Copy, Debug, PartialEq, Eq, Structural)]
pub enum EnvelopeError {
    /// The value is not an object.
    NotAnObject,
    /// The object lacks this member.
    MissingField(EnvelopeField),
    /// The object has a member besides the four of a request.
    UnknownField,
    /// This member holds a value of the wrong type.
    InvalidType(EnvelopeField),
}

impl EnvelopeError {
    /// The diagnostic for this error.
    pub open spec fn message_spec(self) -> Seq<char> {
        match self {
            EnvelopeError::NotAnObject => "request is not an object"@,
            EnvelopeError::MissingField(field) => "missing field `"@ + field.name_spec() + "`"@,
            EnvelopeError::UnknownField => "unknown field"@,
            EnvelopeError::InvalidType(field) => "invalid type for field `"@ + field.name_spec()
                + "`"@,
        }
    }

    /// The diagnostic for this error.
    pub fn message(self) -> (s: String)
        ensures
            s@ == self.message_spec(),
    {
        match self {
            EnvelopeError::NotAnObject => "request is not an object".to_owned(),
            EnvelopeError::MissingField(field) => {
                let mut s = "missing field `".to_owned();
                s.push_str(field.name());
                s.push_str("`");
                s
            },
            EnvelopeError::UnknownField => "unknown field".to_owned(),
            EnvelopeError::InvalidType(field) => {
                let mut s = "invalid type for field `".to_owned();
                s.push_str(field.name());
                s.push_str("`");
                s
            },
        }
    }
}

/// The keys of a request envelope.
pub open spec fn envelope_fields() -> Set<Seq<char>> {
    set!["id"@, "jsonrpc"@, "method"@, "params"@]
}

/// Whether a JSON value can serve as a request id: an integer that fits in
/// 64 bits with a sign.
pub open spec fn is_id(v: JsonModel) -> bool {
    match v {
        JsonModel::Number(JsonNumber::Integer(n)) => i64::MIN <= n <= i64::MAX,
        _ => false,
    }
}

/// Whether a JSON value is a request envelope: an object whose members are
/// exactly `id`, an integer of 64 bits, `jsonrpc` and `method`, strings, and
/// `params`, any value.
pub open spec fn is_envelope(raw: JsonModel) -> bool {
    &&& raw is Object
    &&& raw->Object_0.dom() =~= envelope_fields()
    &&& is_id(raw->Object_0["id"@])
    &&& raw->Object_0["jsonrpc"@] is Text
    &&& raw->Object_0["method"@] is Text
}

/// What is wrong with a JSON value as a request envelope, `None` where
/// nothing is. A value that has several faults is reported by the first of:
/// not an object; a missing member, in the order `id`, `jsonrpc`, `method`,
/// `params`; an unknown member; a member of the wrong type, in the order
/// `id`, `jsonrpc`, `method`.
pub open spec fn envelope_error(raw: JsonModel) -> Option<EnvelopeError> {
    match raw {
        JsonModel::Object(members) => {
            if !members.contains_key("id"@) {
                Some(EnvelopeError::MissingField(EnvelopeField::Id))
            } else if !members.contains_key("jsonrpc"@) {
                Some(EnvelopeError::MissingField(EnvelopeField::Jsonrpc))
            } else if !members.contains_key("method"@) {
                Some(EnvelopeError::MissingField(EnvelopeField::Method))
            } else if !members.contains_key("params"@) {
                Some(EnvelopeError::MissingField(EnvelopeField::Params))
            } else if !members.dom().subset_of(envelope_fields()) {
                Some(EnvelopeError::UnknownField)
            } else if !is_id(members["id"@]) {
                Some(EnvelopeError::InvalidType(EnvelopeField::Id))
            } else if !(members["jsonrpc"@] is Text) {
                Some(EnvelopeError::InvalidType(EnvelopeField::Jsonrpc))
            } else if !(members["method"@] is Text) {
                Some(EnvelopeError::InvalidType(EnvelopeField::Method))
            } else {
                None
            }
        },
        _ => Some(EnvelopeError::NotAnObject),
    }
}

/// A request as it came in: the four members of its envelope, not yet
/// checked for the protocol version.
#[derive(Clone, Debug, PartialEq, Eq)]
pub struct JsonRpcRequest {
    pub id: i64,
    pub jsonrpc: String,
    pub method: String,
    pub params: Value,
}

impl JsonRpcRequest {
    /// Whether this request holds what the members of the JSON value `raw`
    /// hold.
    pub open spec fn decodes(&self, raw: JsonModel) -> bool {
        &&& raw is Object
        &&& raw->Object_0.dom() =~= envelope_fields()
        &&& raw->Object_0["id"@] == JsonModel::Number(JsonNumber::Integer(self.id as int))
        &&& raw->Object_0["jsonrpc"@] == JsonModel::Text(self.jsonrpc@)
        &&& raw->Object_0["method"@] == JsonModel::Text(self.method@)
        &&& raw->Object_0["params"@] == json_model(self.params)
    }

    /// Decodes a JSON value as a request envelope. An envelope gives the
    /// request that holds its four members; any other value gives its first
    /// structural fault.
    pub fn decode(raw: &Value) -> (r: Result<JsonRpcRequest, EnvelopeError>)
        ensures
            match r {
                Ok(request) => envelope_error(json_model(*raw)) is None && request.decodes(
                    json_model(*raw),
                ),
                Err(e) => envelope_error(json_model(*raw)) == Some(e),
            },
    {
        let members = match as_object(raw) {
            Some(members) => members,
            None => { return Err(EnvelopeError::NotAnObject); },
        };
        let id_value = match object_get(members, "id") {
            Some(value) => value,
            None => { return Err(EnvelopeError::MissingField(EnvelopeField::Id)); },
        };
        let jsonrpc_value = match object_get(members, "jsonrpc") {
            Some(value) => value,
            None => { return Err(EnvelopeError::MissingField(EnvelopeField::Jsonrpc)); },
        };
        let method_value = match object_get(members, "method") {
            Some(value) => value,
            None => { return Err(EnvelopeError::MissingField(EnvelopeField::Method)); },
        };
        let params_value = match object_get(members, "params") {
            Some(value) => value,
            None => { return Err(EnvelopeError::MissingField(EnvelopeField::Params)); },
        };
        let count: usize = object_len(members);
        proof {
            lemma_only_envelope_fields(json_model(*raw)->Object_0.dom());
        }
        if count != 4 {
            return Err(EnvelopeError::UnknownField);
        }
        let id: i64 = match as_i64(id_value) {
            Some(id) => id,
            None => { return Err(EnvelopeError::InvalidType(EnvelopeField::Id)); },
        };
        let jsonrpc = match as_str(jsonrpc_value) {
            Some(text) => text.to_owned(),
            None => { return Err(EnvelopeError::InvalidType(EnvelopeField::Jsonrpc)); },
        };
        let method = match as_str(method_value) {
            Some(text) => text.to_owned(),
            None => { return Err(EnvelopeError::InvalidType(EnvelopeField::Method)); },
        };
        Ok(JsonRpcRequest { id, jsonrpc, method, params: params_value.clone() })
    }
}

/// The four keys of an envelope differ from one another.
pub proof fn lemma_envelope_fields_len()
    ensures
        envelope_fields().finite(),
        envelope_fields().len() == 4,
{
    reveal_strlit("id");
    reveal_strlit("jsonrpc");
    reveal_strlit("method");
    reveal_strlit("params");
    assert("id"@.len() == 2);
    assert("jsonrpc"@.len() == 7);
    assert("method"@[0] == 'm');
    assert("params"@[0] == 'p');
    broadcast use vstd::set::group_set_axioms;
}

/// A finite set of keys that holds the four keys of an envelope holds no
/// other key just when it has four elements.
proof fn lemma_only_envelope_fields(keys: Set<Seq<char>>)
    requires
        keys.finite(),
        envelope_fields().subset_of(keys),
    ensures
        keys.len() == 4 <==> keys.subset_of(envelope_fields()),
{
    lemma_envelope_fields_len();
    if keys.len() == 4 {
        lemma_subset_equality(envelope_fields(), keys);
    }
    if keys.subset_of(envelope_fields()) {
        assert(keys =~= envelope_fields());
    }
}

/// A JSON value has no structural fault just when it is an envelope. An
/// object that lacks one of the four members, or holds a member besides them,
/// has one: a missing field or an unknown field.
pub proof fn envelope_error_is_none_iff_envelope(raw: JsonModel)
    ensures
        envelope_error(raw) is None <==> is_envelope(raw),
        raw is Object && !(raw->Object_0.dom() =~= envelope_fields()) ==> {
            &&& envelope_error(raw) is Some
            &&& (envelope_error(raw)->Some_0 is MissingField || envelope_error(raw)->Some_0
                is UnknownField)
        },
{
}

} // verus!
