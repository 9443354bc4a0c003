//! The short-circuiting propagation protocol: each combinator either yields
//! the success value together with the untouched connection, or hands back
//! a connection that already carries the one error response and is halted.
//! A handler checks the outcome and returns the halted connection at once,
//! so no statement after the failing step runs and no second response can
//! be written.

use vstd::prelude::*;

use crate::conn::{problem_response_v, ConnApiErrorExt, ConnView};
use crate::error::{json_deserialize_error, kind_view, ApiError, ErrView, ErrorKind};
use crate::json::{pairs_model, JsonModel, JsonValue};
use crate::json_body::{json_parse, JsonBodyConnExt};

verus! {

/// The structured data attached in debug builds: the stringified underlying
/// error, under a `debug.error` key.
pub open spec fn debug_data_model(msg: Seq<char>) -> JsonModel {
    JsonModel::Obj(seq![("debug"@, JsonModel::Obj(seq![("error"@, JsonModel::Str(msg))]))])
}

/// Builds the occurrence reported for a failure: the chosen descriptor,
/// with the underlying message attached as debug data when `debug` is set.
fn failure_occurrence(error: ApiError, msg: String, debug: bool) -> (r: ApiError)
    ensures
        !debug ==> r@ == error@,
        debug ==> r@ == (ErrView { data: Option::Some(debug_data_model(msg@)), ..error@ }),
{
    if debug {
        let ghost msg_view = msg@;
        let inner = JsonValue::Obj(vec![(String::from_str("error"), JsonValue::Str(msg))]);
        proof {
            assert(pairs_model(inner->Obj_0@) =~= seq![("error"@, JsonModel::Str(msg_view))]);
        }
        let wrapped = JsonValue::Obj(vec![(String::from_str("debug"), inner)]);
        proof {
            assert(pairs_model(wrapped->Obj_0@) =~= seq![
                ("debug"@, JsonModel::Obj(seq![("error"@, JsonModel::Str(msg_view))])),
            ]);
        }
        let r = error.with_data(wrapped);
        proof {
            assert(r@ =~= (ErrView { data: Option::Some(debug_data_model(msg_view)), ..r@ }));
        }
        r
    } else {
        error
    }
}

/// Evaluates the outcome of a fallible operation.  Success yields the value
/// and the untouched connection; failure responds with the chosen
/// descriptor (the stringified error attached as debug data when `debug` is
/// set) and hands back the halted connection, which the handler returns at
/// once.
pub fn conn_try<T, C: ConnApiErrorExt>(
    result: Result<T, String>,
    conn: C,
    error: ApiError,
    debug: bool,
) -> (r: Result<(T, C), C>)
    ensures
        match result {
            Result::Ok(v) => r matches Ok(p) && p.0 == v && p.1 == conn,
            Result::Err(msg) => r matches Err(c) && c.response() == problem_response_v(
                if debug {
                    (ErrView { data: Option::Some(debug_data_model(msg@)), ..error@ })
                } else {
                    error@
                },
            ),
        },
{
    match result {
        Ok(v) => Ok((v, conn)),
        Err(msg) => {
            let occurrence = failure_occurrence(error, msg, debug);
            Err(conn.error(occurrence))
        },
    }
}

/// Evaluates an optional value.  Presence yields the value and the
/// untouched connection; absence responds with the chosen descriptor and
/// hands back the halted connection.
pub fn conn_unwrap<T, C: ConnApiErrorExt>(value: Option<T>, conn: C, error: ApiError) -> (r: Result<
    (T, C),
    C,
>)
    ensures
        value matches Some(v) ==> (r matches Ok(p) && p.0 == v && p.1 == conn),
        value is None ==> (r matches Err(c) && c.response() == problem_response_v(error@)),
{
    match value {
        Some(v) => Ok((v, conn)),
        None => Err(conn.error(error)),
    }
}

/// Extracts the typed request payload.  A body that decodes yields its
/// value and the untouched connection; one that does not is reported
/// through the payload-parse-failure category, and the halted connection
/// is handed back — nothing after the extraction point runs.
pub fn extract_payload<C: ConnApiErrorExt + JsonBodyConnExt>(conn: C, debug: bool) -> (r: Result<
    (JsonValue, C),
    C,
>)
    ensures
        json_parse(conn.req_body()) matches Some(m) ==> (r matches Ok(p) && p.0@ == m && p.1
            == conn),
        json_parse(conn.req_body()) is None ==> (r matches Err(c) && c.response().status
            == Option::Some(crate::error::kind_status(ErrorKind::JsonDeserializeError))
            && c.response().content_type == Option::Some("application/problem+json"@)
            && c.response().halted),
        json_parse(conn.req_body()) is None && !debug ==> (r matches Err(c) && c.response()
            == problem_response_v(kind_view(ErrorKind::JsonDeserializeError))),
        json_parse(conn.req_body()) is None && debug ==> (r matches Err(c) && (exists|m: Seq<char>|
            c.response() == problem_response_v(
                (ErrView {
                    data: Option::Some(#[trigger] debug_data_model(m)),
                    ..kind_view(ErrorKind::JsonDeserializeError)
                }),
            ))),
{
    let decoded = conn.request_body_json();
    let ghost dec = decoded;
    let ghost body = conn.req_body();
    let err = json_deserialize_error();
    proof {
        assert(err@ =~= kind_view(ErrorKind::JsonDeserializeError));
    }
    let r = conn_try(decoded, conn, err, debug);
    proof {
        if json_parse(body) is None && debug {
            let m = dec->Err_0@;
            assert(r->Err_0.response() == problem_response_v(
                (ErrView {
                    data: Option::Some(debug_data_model(m)),
                    ..kind_view(ErrorKind::JsonDeserializeError)
                }),
            ));
        }
    }
    r
}

} // verus!
