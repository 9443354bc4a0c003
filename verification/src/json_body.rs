//! JSON body conversion: serializing a value as the response body, and
//! decoding the request body into a value.  Decoding is done by serde_json
//! behind a trusted boundary; everything around the call is verified.

use vstd::prelude::*;

use crate::conn::{problem_response_v, Conn, ConnApiErrorExt, ConnView, Response};
use crate::error::{json_serialize_error, kind_view, ApiError, ErrView, ErrorKind};
use crate::json::{pairs_model, to_json_string, ser, JsonModel, JsonValue};

verus! {

/// What serde_json yields for a byte slice: the model of the decoded
/// document, or nothing when the bytes are no JSON document the library's
/// value type can hold.
pub uninterp spec fn json_parse(bytes: Seq<u8>) -> Option<JsonModel>;

/// Declares `serde_json::Value`, the decoder's own document type, so the
/// conversion below can take it; it stays opaque here.
#[verifier::external_type_specification]
#[verifier::external_body]
pub struct ExValue(serde_json::Value);

/// Relies on the variants of `serde_json::Value`: each is moved, one arm
/// each, into the library's own value type.  A number outside the `i64`
/// range has no counterpart there and yields absence.
#[verifier::external_body]
fn from_value(v: serde_json::Value) -> Option<JsonValue> {
    match v {
        serde_json::Value::Null => Some(JsonValue::Null),
        serde_json::Value::Bool(b) => Some(JsonValue::Bool(b)),
        serde_json::Value::Number(n) => n.as_i64().map(JsonValue::Int),
        serde_json::Value::String(s) => Some(JsonValue::Str(s)),
        serde_json::Value::Array(a) => a.into_iter().map(from_value).collect::<Option<Vec<_>>>(
        ).map(JsonValue::Arr),
        serde_json::Value::Object(o) => o.into_iter().map(
            |(k, x)| Some((k, from_value(x)?)),
        ).collect::<Option<Vec<_>>>().map(JsonValue::Obj),
    }
}

/// Relies on `serde_json::from_slice`: decodes a byte slice holding one
/// JSON document; the outcome is a function of the bytes alone.
#[verifier::external_body]
fn decode_json_bytes(bytes: &[u8]) -> (r: Result<JsonValue, String>)
    ensures
        match json_parse(bytes@) {
            Option::Some(m) => r matches Ok(v) && v@ == m,
            Option::None => r is Err,
        },
{
    match serde_json::from_slice::<serde_json::Value>(bytes) {
        Ok(v) => from_value(v).ok_or_else(|| String::from("number out of range")),
        Err(e) => Err(e.to_string()),
    }
}

/// The successful JSON response for a serialized body: 200, the JSON
/// content type, the body, and the request halted.
pub open spec fn ok_json_response(body: Seq<char>) -> Response {
    Response {
        status: Option::Some(200u16),
        content_type: Option::Some("application/json"@),
        body: Option::Some(body),
        halted: true,
    }
}

/// The descriptor value reported when a response body would not serialize
/// and diagnostics are enabled: the serialization-failure category with the
/// underlying message attached as an `innerError` member.
pub open spec fn serialize_failure_view(msg: Seq<char>) -> ErrView {
    ErrView {
        type_uri: crate::error::kind_type_uri(ErrorKind::JsonSerializeError),
        title: crate::error::kind_title(ErrorKind::JsonSerializeError),
        status: crate::error::kind_status(ErrorKind::JsonSerializeError),
        detail: crate::error::kind_detail(ErrorKind::JsonSerializeError),
        data: Option::Some(
            JsonModel::Obj(seq![("innerError"@, JsonModel::Str(msg))]),
        ),
    }
}

/// JSON responses and request-body decoding.
pub trait JsonBodyConnExt: ConnView + Sized {
    /// Serializes `value`, responds 200 `application/json` with it, and
    /// halts the request.
    fn json(self, value: &JsonValue) -> (r: Self)
        ensures
            r.response() == ok_json_response(ser(value@)),
            r.req_body() == self.req_body(),
            r.route_params() == self.route_params(),
    ;

    /// Sets the JSON content type and the serialized body only; status and
    /// completion stay with the caller.
    fn with_json(self, value: &JsonValue) -> (r: Self)
        ensures
            r.response() == (Response {
                content_type: Option::Some("application/json"@),
                body: Option::Some(ser(value@)),
                ..self.response()
            }),
            r.req_body() == self.req_body(),
            r.route_params() == self.route_params(),
    ;

    /// Decodes the request body as a JSON document.  No error is reported
    /// here: the outcome is handed back for the caller's combinators.
    fn request_body_json(&self) -> (r: Result<JsonValue, String>)
        ensures
            match json_parse(self.req_body()) {
                Option::Some(m) => r matches Ok(v) && v@ == m,
                Option::None => r is Err,
            },
    ;
}

impl JsonBodyConnExt for Conn {
    fn json(self, value: &JsonValue) -> (r: Self) {
        let body = to_json_string(value);
        let r = Conn {
            status: Some(200),
            content_type: Some(String::from_str("application/json")),
            body: Some(body),
            halted: true,
            ..self
        };
        proof {
            assert(r.response() =~= ok_json_response(ser(value@)));
        }
        r
    }

    fn with_json(self, value: &JsonValue) -> (r: Self) {
        let body = to_json_string(value);
        let ghost before = self.response();
        let r = Conn {
            content_type: Some(String::from_str("application/json")),
            body: Some(body),
            ..self
        };
        proof {
            assert(r.response() =~= (Response {
                content_type: Option::Some("application/json"@),
                body: Option::Some(ser(value@)),
                ..before
            }));
        }
        r
    }

    fn request_body_json(&self) -> (r: Result<JsonValue, String>) {
        decode_json_bytes(self.request_body.as_slice())
    }
}

/// The occurrence reported when a response body would not serialize: the
/// serialization-failure category, with the underlying message attached as
/// `innerError` data only when `debug` is set — a production response
/// carries the category's fixed fields alone.
pub fn serialize_failure_error(msg: String, debug: bool) -> (r: ApiError)
    ensures
        !debug ==> r@ == kind_view(ErrorKind::JsonSerializeError),
        debug ==> r@ == serialize_failure_view(msg@),
{
    let base = json_serialize_error();
    proof {
        assert(base@ =~= kind_view(ErrorKind::JsonSerializeError));
    }
    if debug {
        let ghost msg_view = msg@;
        let wrapped = JsonValue::Obj(vec![(String::from_str("innerError"), JsonValue::Str(msg))]);
        proof {
            assert(pairs_model(wrapped->Obj_0@) =~= seq![
                ("innerError"@, JsonModel::Str(msg_view)),
            ]);
        }
        let r = base.with_data(wrapped);
        proof {
            assert(r@ =~= serialize_failure_view(msg_view));
        }
        r
    } else {
        base
    }
}

impl Conn {
    /// Responds with an already-attempted serialization: a successful one
    /// is sent as a 200 `application/json` response; a failed one is routed
    /// through the serialization-failure category (its message attached as
    /// `innerError` data only when `debug` is set) — never through a 200.
    /// The request side is left alone either way.
    pub fn json_result(self, serialized: Result<String, String>, debug: bool) -> (r: Conn)
        ensures
            match serialized {
                Result::Ok(body) => r.response() == ok_json_response(body@),
                Result::Err(msg) => r.response() == problem_response_v(
                    if debug {
                        serialize_failure_view(msg@)
                    } else {
                        kind_view(ErrorKind::JsonSerializeError)
                    },
                ),
            },
            r.response().status == Option::Some(200u16) ==> serialized is Ok,
            r.req_body() == self.req_body(),
            r.route_params() == self.route_params(),
    {
        match serialized {
            Ok(body) => {
                let r = Conn {
                    status: Some(200),
                    content_type: Some(String::from_str("application/json")),
                    body: Some(body),
                    halted: true,
                    ..self
                };
                proof {
                    assert(r.response() =~= ok_json_response(serialized->Ok_0@));
                }
                r
            },
            Err(msg) => {
                let err = serialize_failure_error(msg, debug);
                self.error(err)
            },
        }
    }
}

} // verus!
