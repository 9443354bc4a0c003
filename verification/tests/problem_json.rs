use problem_json::combinators::{conn_try, conn_unwrap, extract_payload};
use problem_json::conn::{Conn, ConnApiErrorExt};
use problem_json::error::{
    dummy, internal_server_error, json_deserialize_error, json_serialize_error, not_found,
    validation_error, ApiError,
};
use problem_json::json::{to_json_string, JsonValue};
use problem_json::json_body::JsonBodyConnExt;
use problem_json::typed_param::{parse_i64, TypedParamConnExt};

fn fresh_conn(params: Vec<(&str, &str)>, body: &[u8]) -> Conn {
    Conn::new(
        params
            .into_iter()
            .map(|(k, v)| (k.to_string(), v.to_string()))
            .collect(),
        body.to_vec(),
    )
}

#[test]
fn catalog_type_uris_pairwise_distinct() {
    let entries = vec![
        dummy(),
        not_found(),
        internal_server_error(),
        json_serialize_error(),
        json_deserialize_error(),
        validation_error(),
    ];
    for i in 0..entries.len() {
        for j in 0..entries.len() {
            if i != j {
                assert_ne!(entries[i].type_uri, entries[j].type_uri);
            }
        }
    }
}

#[test]
fn catalog_entry_fields() {
    let e = not_found();
    assert_eq!(e.type_uri, "https://docs.isua.land/problems/not_found");
    assert_eq!(e.title, "Resource not found.");
    assert_eq!(e.status, 404);
    assert_eq!(
        e.detail,
        "The requested resource is not available. It might have been deleted or never existed."
    );
    assert!(e.data.is_none());
    assert_eq!(dummy().status, 418);
    assert_eq!(internal_server_error().status, 500);
    assert_eq!(json_serialize_error().status, 500);
    assert_eq!(json_deserialize_error().status, 400);
    assert_eq!(validation_error().status, 400);
}

#[test]
fn derived_copies_leave_catalog_unchanged() {
    let before = not_found();
    let _one = not_found().with_detail("gone for good".to_string());
    let _two = not_found().with_title("nope".to_string());
    let _three = not_found().with_data(JsonValue::Int(3));
    assert_eq!(not_found(), before);
}

#[test]
fn with_detail_changes_only_detail() {
    let d = not_found().with_detail("it left".to_string());
    let base = not_found();
    assert_eq!(d.type_uri, base.type_uri);
    assert_eq!(d.title, base.title);
    assert_eq!(d.status, base.status);
    assert_eq!(d.detail, "it left");
    assert!(d.data.is_none());
}

#[test]
fn with_title_changes_only_title() {
    let d = dummy().with_title("Teapot".to_string());
    let base = dummy();
    assert_eq!(d.type_uri, base.type_uri);
    assert_eq!(d.title, "Teapot");
    assert_eq!(d.status, base.status);
    assert_eq!(d.detail, base.detail);
}

#[test]
fn with_data_null_serializes_as_absent() {
    let plain = dummy().to_problem_json();
    let with_null = dummy().with_data(JsonValue::Null).to_problem_json();
    assert_eq!(plain, with_null);
}

#[test]
fn with_data_scalar_wrapped_under_data_key() {
    let doc = dummy().with_data(JsonValue::Int(42)).to_problem_json();
    let expected = "{\"type\":\"https://docs.isua.land/problems/dummy\",\"title\":\"This is a dummy error.\",\"status\":418,\"detail\":\"This error is solely for demonstrating the framework's ability to use problem+json errors.\",\"data\":42}";
    assert_eq!(doc, expected);
}

#[test]
fn with_data_object_merges_at_top_level() {
    let doc = not_found()
        .with_data(JsonValue::Obj(vec![("a".to_string(), JsonValue::Int(1))]))
        .to_problem_json();
    assert!(doc.ends_with(",\"a\":1}"));
    assert!(!doc.contains("\"data\""));
}

#[test]
fn with_data_empty_object_serializes_as_absent() {
    let plain = dummy().to_problem_json();
    let with_empty = dummy().with_data(JsonValue::Obj(vec![])).to_problem_json();
    assert_eq!(plain, with_empty);
}

#[test]
fn serializer_exact_forms() {
    assert_eq!(to_json_string(&JsonValue::Null), "null");
    assert_eq!(to_json_string(&JsonValue::Bool(true)), "true");
    assert_eq!(to_json_string(&JsonValue::Bool(false)), "false");
    assert_eq!(to_json_string(&JsonValue::Int(0)), "0");
    assert_eq!(to_json_string(&JsonValue::Int(-123)), "-123");
    assert_eq!(
        to_json_string(&JsonValue::Int(i64::MIN)),
        "-9223372036854775808"
    );
    assert_eq!(to_json_string(&JsonValue::Str("hi".to_string())), "\"hi\"");
    assert_eq!(
        to_json_string(&JsonValue::Arr(vec![
            JsonValue::Int(1),
            JsonValue::Str("x".to_string()),
            JsonValue::Null,
        ])),
        "[1,\"x\",null]"
    );
    assert_eq!(
        to_json_string(&JsonValue::Obj(vec![
            ("a".to_string(), JsonValue::Int(1)),
            ("b".to_string(), JsonValue::Arr(vec![])),
        ])),
        "{\"a\":1,\"b\":[]}"
    );
}

#[test]
fn serializer_escapes_strings() {
    assert_eq!(
        to_json_string(&JsonValue::Str("a\"b\\c\nd\te\r".to_string())),
        "\"a\\\"b\\\\c\\nd\\te\\r\""
    );
    assert_eq!(
        to_json_string(&JsonValue::Str("\u{1}\u{1f}".to_string())),
        "\"\\u0001\\u001f\""
    );
}

#[test]
fn error_writes_problem_response_and_halts() {
    let c = fresh_conn(vec![], b"").error(dummy());
    assert_eq!(c.status, Some(418));
    assert_eq!(c.content_type.as_deref(), Some("application/problem+json"));
    assert_eq!(c.body, Some(dummy().to_problem_json()));
    assert!(c.halted);
}

#[test]
fn json_responds_200_and_halts() {
    let c = fresh_conn(vec![], b"").json(&JsonValue::Int(7));
    assert_eq!(c.status, Some(200));
    assert_eq!(c.content_type.as_deref(), Some("application/json"));
    assert_eq!(c.body.as_deref(), Some("7"));
    assert!(c.halted);
}

#[test]
fn with_json_leaves_status_and_completion_alone() {
    let c = fresh_conn(vec![], b"").with_json(&JsonValue::Bool(true));
    assert_eq!(c.status, None);
    assert_eq!(c.content_type.as_deref(), Some("application/json"));
    assert_eq!(c.body.as_deref(), Some("true"));
    assert!(!c.halted);
}

#[test]
fn json_result_failure_is_serialization_error_not_200() {
    let c = fresh_conn(vec![], b"").json_result(Err("cyclic".to_string()), true);
    assert_eq!(c.status, Some(500));
    assert_ne!(c.status, Some(200));
    assert_eq!(c.content_type.as_deref(), Some("application/problem+json"));
    let body = c.body.unwrap();
    assert!(body.contains("https://docs.isua.land/problems/json_serialize_error"));
    assert!(body.contains("\"innerError\":\"cyclic\""));
    assert!(c.halted);
}

#[test]
fn json_result_failure_without_debug_omits_diagnostics() {
    let c = fresh_conn(vec![], b"").json_result(Err("cyclic".to_string()), false);
    assert_eq!(c.status, Some(500));
    assert_eq!(c.content_type.as_deref(), Some("application/problem+json"));
    let body = c.body.unwrap();
    assert_eq!(body, json_serialize_error().to_problem_json());
    assert!(!body.contains("innerError"));
    assert!(!body.contains("cyclic"));
    assert!(c.halted);
}

#[test]
fn json_result_success_is_plain_200() {
    let c = fresh_conn(vec![], b"").json_result(Ok("[1,2]".to_string()), false);
    assert_eq!(c.status, Some(200));
    assert_eq!(c.content_type.as_deref(), Some("application/json"));
    assert_eq!(c.body.as_deref(), Some("[1,2]"));
    assert!(c.halted);
}

#[test]
fn request_body_json_decodes_object() {
    let c = fresh_conn(vec![], b"{\"a\": 1}");
    let v = c.request_body_json().unwrap();
    assert_eq!(
        v,
        JsonValue::Obj(vec![("a".to_string(), JsonValue::Int(1))])
    );
}

#[test]
fn request_body_json_rejects_malformed() {
    let c = fresh_conn(vec![], b"{\"a\": }");
    assert!(c.request_body_json().is_err());
}

#[test]
fn request_body_json_decodes_nested() {
    let c = fresh_conn(vec![], b"[true, null, {\"k\": \"v\"}, -5]");
    let v = c.request_body_json().unwrap();
    assert_eq!(
        v,
        JsonValue::Arr(vec![
            JsonValue::Bool(true),
            JsonValue::Null,
            JsonValue::Obj(vec![("k".to_string(), JsonValue::Str("v".to_string()))]),
            JsonValue::Int(-5),
        ])
    );
}

#[test]
fn typed_param_converts_integers() {
    let c = fresh_conn(vec![("id", "42")], b"");
    assert_eq!(c.typed_param("id"), Some(42));
}

#[test]
fn typed_param_rejects_non_integers_and_absence() {
    let c = fresh_conn(vec![("id", "abc"), ("neg", "-17")], b"");
    assert_eq!(c.typed_param("id"), None);
    assert_eq!(c.typed_param("missing"), None);
    assert_eq!(c.typed_param("neg"), Some(-17));
}

#[test]
fn parse_i64_edges() {
    assert_eq!(parse_i64("0"), Some(0));
    assert_eq!(parse_i64("007"), Some(7));
    assert_eq!(parse_i64("9223372036854775807"), Some(i64::MAX));
    assert_eq!(parse_i64("9223372036854775808"), None);
    assert_eq!(parse_i64("-9223372036854775808"), Some(i64::MIN));
    assert_eq!(parse_i64("-9223372036854775809"), None);
    assert_eq!(parse_i64(""), None);
    assert_eq!(parse_i64("-"), None);
    assert_eq!(parse_i64("12x"), None);
    assert_eq!(parse_i64("99999999999999999999999"), None);
    assert_eq!(parse_i64("00000000000000000000042"), Some(42));
}

#[test]
fn conn_try_passes_success_through() {
    let conn = fresh_conn(vec![], b"");
    let r: Result<(u32, Conn), Conn> = conn_try(Ok(5u32), conn, internal_server_error(), false);
    let (v, c) = r.ok().unwrap();
    assert_eq!(v, 5);
    assert_eq!(c.status, None);
    assert!(!c.halted);
}

#[test]
fn conn_try_failure_reports_chosen_descriptor() {
    let conn = fresh_conn(vec![], b"");
    let r: Result<(u32, Conn), Conn> =
        conn_try(Err("boom".to_string()), conn, not_found(), false);
    let c = r.err().unwrap();
    assert_eq!(c.status, Some(404));
    assert_eq!(c.content_type.as_deref(), Some("application/problem+json"));
    assert_eq!(c.body, Some(not_found().to_problem_json()));
    assert!(c.halted);
}

#[test]
fn conn_try_debug_attaches_underlying_error() {
    let conn = fresh_conn(vec![], b"");
    let r: Result<(u32, Conn), Conn> =
        conn_try(Err("boom".to_string()), conn, internal_server_error(), true);
    let c = r.err().unwrap();
    let body = c.body.unwrap();
    assert!(body.contains("\"debug\":{\"error\":\"boom\"}"));
    assert_eq!(c.status, Some(500));
}

#[test]
fn conn_unwrap_handles_absence() {
    let conn = fresh_conn(vec![], b"");
    let r: Result<(u32, Conn), Conn> = conn_unwrap(None, conn, internal_server_error());
    let c = r.err().unwrap();
    assert_eq!(c.status, Some(500));
    assert!(c.halted);

    let conn2 = fresh_conn(vec![], b"");
    let r2: Result<(u32, Conn), Conn> = conn_unwrap(Some(9u32), conn2, internal_server_error());
    assert_eq!(r2.ok().unwrap().0, 9);
}

fn payload_handler(conn: Conn, reached_after: &mut bool) -> Conn {
    let (payload, conn) = match extract_payload(conn, false) {
        Ok(p) => p,
        Err(halted) => return halted,
    };
    *reached_after = true;
    conn.json(&payload)
}

#[test]
fn extract_payload_malformed_body_halts_before_handler_rest() {
    let mut reached_after = false;
    let c = payload_handler(fresh_conn(vec![], b"{\"a\": }"), &mut reached_after);
    assert!(!reached_after);
    assert_eq!(c.status, Some(400));
    assert_eq!(c.content_type.as_deref(), Some("application/problem+json"));
    let body = c.body.unwrap();
    assert!(body.contains("\"type\":\"https://docs.isua.land/problems/json_deserialize_error\""));
    assert!(c.halted);
}

#[test]
fn extract_payload_well_formed_body_reaches_handler_rest() {
    let mut reached_after = false;
    let c = payload_handler(fresh_conn(vec![], b"[1,2,3]"), &mut reached_after);
    assert!(reached_after);
    assert_eq!(c.status, Some(200));
    assert_eq!(c.body.as_deref(), Some("[1,2,3]"));
}
