//! The error model: immutable problem+json descriptors, a fixed catalog of
//! named categories, derived per-occurrence copies, and the serialized wire
//! form of a descriptor.

use vstd::prelude::*;

use crate::json::{
    dec_chars, escape_str, pairs_model, push_dec_u64, push_escaped_str, push_str_chars, ser,
    ser_members, write_json, write_members, JsonModel, JsonValue,
};

verus! {

/// One category of failure: a stable type URI, a short title, the HTTP
/// status to send, a longer detail text, and optional structured data
/// attached to a specific occurrence.
#[derive(Debug, PartialEq)]
pub struct ApiError {
    pub type_uri: String,
    pub title: String,
    pub status: u16,
    pub detail: String,
    pub data: Option<JsonValue>,
}

/// The named categories of the catalog.
#[derive(Debug, Clone, Copy, PartialEq, Eq, Structural)]
pub enum ErrorKind {
    Dummy,
    NotFound,
    InternalServerError,
    JsonSerializeError,
    JsonDeserializeError,
    ValidationError,
}

/// The type URI of a catalog category: the base URL followed by the
/// lowercased category name.
pub open spec fn kind_type_uri(k: ErrorKind) -> Seq<char> {
    match k {
        ErrorKind::Dummy => "https://docs.isua.land/problems/dummy"@,
        ErrorKind::NotFound => "https://docs.isua.land/problems/not_found"@,
        ErrorKind::InternalServerError => "https://docs.isua.land/problems/internal_server_error"@,
        ErrorKind::JsonSerializeError => "https://docs.isua.land/problems/json_serialize_error"@,
        ErrorKind::JsonDeserializeError => "https://docs.isua.land/problems/json_deserialize_error"@,
        ErrorKind::ValidationError => "https://docs.isua.land/problems/validation_error"@,
    }
}

pub open spec fn kind_title(k: ErrorKind) -> Seq<char> {
    match k {
        ErrorKind::Dummy => "This is a dummy error."@,
        ErrorKind::NotFound => "Resource not found."@,
        ErrorKind::InternalServerError => "Internal Server Error"@,
        ErrorKind::JsonSerializeError => "Internal Server Error"@,
        ErrorKind::JsonDeserializeError => "Bad Request"@,
        ErrorKind::ValidationError => "Invalid Payload"@,
    }
}

pub open spec fn kind_status(k: ErrorKind) -> u16 {
    match k {
        ErrorKind::Dummy => 418,
        ErrorKind::NotFound => 404,
        ErrorKind::InternalServerError => 500,
        ErrorKind::JsonSerializeError => 500,
        ErrorKind::JsonDeserializeError => 400,
        ErrorKind::ValidationError => 400,
    }
}

pub open spec fn kind_detail(k: ErrorKind) -> Seq<char> {
    match k {
        ErrorKind::Dummy => "This error is solely for demonstrating the framework's ability to use problem+json errors."@,
        ErrorKind::NotFound => "The requested resource is not available. It might have been deleted or never existed."@,
        ErrorKind::InternalServerError => "There was an error while processing your request that could not be recovered."@,
        ErrorKind::JsonSerializeError => "Response payload could not be serialized as JSON."@,
        ErrorKind::JsonDeserializeError => "The provided payload could not be parsed from a json string."@,
        ErrorKind::ValidationError => "The provided payload did not match the expected format"@,
    }
}

/// What it means for a descriptor to be the catalog entry of category `k`:
/// the fixed fields of the category, and no occurrence data.
pub open spec fn catalog_shape(e: ApiError, k: ErrorKind) -> bool {
    &&& e.type_uri@ == kind_type_uri(k)
    &&& e.title@ == kind_title(k)
    &&& e.status == kind_status(k)
    &&& e.detail@ == kind_detail(k)
    &&& e.data is None
}

/// The read-only catalog: the descriptor of a named category, the same on
/// every lookup.
pub fn catalog(k: ErrorKind) -> (r: ApiError)
    ensures
        catalog_shape(r, k),
{
    let (type_uri, title, status, detail): (&str, &str, u16, &str) = match k {
        ErrorKind::Dummy => (
            "https://docs.isua.land/problems/dummy",
            "This is a dummy error.",
            418,
            "This error is solely for demonstrating the framework's ability to use problem+json errors.",
        ),
        ErrorKind::NotFound => (
            "https://docs.isua.land/problems/not_found",
            "Resource not found.",
            404,
            "The requested resource is not available. It might have been deleted or never existed.",
        ),
        ErrorKind::InternalServerError => (
            "https://docs.isua.land/problems/internal_server_error",
            "Internal Server Error",
            500,
            "There was an error while processing your request that could not be recovered.",
        ),
        ErrorKind::JsonSerializeError => (
            "https://docs.isua.land/problems/json_serialize_error",
            "Internal Server Error",
            500,
            "Response payload could not be serialized as JSON.",
        ),
        ErrorKind::JsonDeserializeError => (
            "https://docs.isua.land/problems/json_deserialize_error",
            "Bad Request",
            400,
            "The provided payload could not be parsed from a json string.",
        ),
        ErrorKind::ValidationError => (
            "https://docs.isua.land/problems/validation_error",
            "Invalid Payload",
            400,
            "The provided payload did not match the expected format",
        ),
    };
    ApiError {
        type_uri: type_uri.to_owned(),
        title: title.to_owned(),
        status,
        detail: detail.to_owned(),
        data: None,
    }
}

pub fn dummy() -> (r: ApiError)
    ensures
        catalog_shape(r, ErrorKind::Dummy),
{
    catalog(ErrorKind::Dummy)
}

pub fn not_found() -> (r: ApiError)
    ensures
        catalog_shape(r, ErrorKind::NotFound),
{
    catalog(ErrorKind::NotFound)
}

pub fn internal_server_error() -> (r: ApiError)
    ensures
        catalog_shape(r, ErrorKind::InternalServerError),
{
    catalog(ErrorKind::InternalServerError)
}

pub fn json_serialize_error() -> (r: ApiError)
    ensures
        catalog_shape(r, ErrorKind::JsonSerializeError),
{
    catalog(ErrorKind::JsonSerializeError)
}

pub fn json_deserialize_error() -> (r: ApiError)
    ensures
        catalog_shape(r, ErrorKind::JsonDeserializeError),
{
    catalog(ErrorKind::JsonDeserializeError)
}

pub fn validation_error() -> (r: ApiError)
    ensures
        catalog_shape(r, ErrorKind::ValidationError),
{
    catalog(ErrorKind::ValidationError)
}

/// No two catalog categories share a type URI.
pub proof fn lemma_catalog_types_distinct(a: ErrorKind, b: ErrorKind)
    ensures
        a != b ==> kind_type_uri(a) != kind_type_uri(b),
{
    reveal_strlit("https://docs.isua.land/problems/dummy");
    reveal_strlit("https://docs.isua.land/problems/not_found");
    reveal_strlit("https://docs.isua.land/problems/internal_server_error");
    reveal_strlit("https://docs.isua.land/problems/json_serialize_error");
    reveal_strlit("https://docs.isua.land/problems/json_deserialize_error");
    reveal_strlit("https://docs.isua.land/problems/validation_error");
    assert("https://docs.isua.land/problems/dummy"@.len() == 37);
    assert("https://docs.isua.land/problems/not_found"@.len() == 41);
    assert("https://docs.isua.land/problems/internal_server_error"@.len() == 53);
    assert("https://docs.isua.land/problems/json_serialize_error"@.len() == 52);
    assert("https://docs.isua.land/problems/json_deserialize_error"@.len() == 54);
    assert("https://docs.isua.land/problems/validation_error"@.len() == 48);
}

/// Two lookups of the same category are indistinguishable: the catalog is a
/// constant mapping, unchanged however many derived copies are made from
/// its entries.
pub proof fn lemma_catalog_constant(k: ErrorKind, a: ApiError, b: ApiError)
    requires
        catalog_shape(a, k),
        catalog_shape(b, k),
    ensures
        a.type_uri@ == b.type_uri@,
        a.title@ == b.title@,
        a.status == b.status,
        a.detail@ == b.detail@,
        a.data == b.data,
        problem_doc(a) == problem_doc(b),
{
}

/// The model of the `data` slot.
pub open spec fn data_model(d: Option<JsonValue>) -> Option<JsonModel> {
    match d {
        Option::None => Option::None,
        Option::Some(v) => Option::Some(v@),
    }
}

/// The merge rule for attached data: `null` counts as absent, an object is
/// kept as is (its fields will sit at the top level of the document), and
/// any other value is wrapped under a single `data` key.
pub open spec fn merged_data(v: JsonModel) -> Option<JsonModel> {
    match v {
        JsonModel::Null => Option::None,
        JsonModel::Obj(pairs) => Option::Some(JsonModel::Obj(pairs)),
        other => Option::Some(JsonModel::Obj(seq![("data"@, other)])),
    }
}

/// The mathematical shape of a descriptor.
#[verifier::ext_equal]
pub struct ErrView {
    pub type_uri: Seq<char>,
    pub title: Seq<char>,
    pub status: u16,
    pub detail: Seq<char>,
    pub data: Option<JsonModel>,
}

impl View for ApiError {
    type V = ErrView;

    open spec fn view(&self) -> ErrView {
        ErrView {
            type_uri: self.type_uri@,
            title: self.title@,
            status: self.status,
            detail: self.detail@,
            data: data_model(self.data),
        }
    }
}

/// The descriptor of category `k`, as a value.
pub open spec fn kind_view(k: ErrorKind) -> ErrView {
    ErrView {
        type_uri: kind_type_uri(k),
        title: kind_title(k),
        status: kind_status(k),
        detail: kind_detail(k),
        data: Option::None,
    }
}

impl ApiError {
    /// A copy with `detail` replaced; no other field changes.
    pub fn with_detail(self, detail: String) -> (r: ApiError)
        ensures
            r.type_uri@ == self.type_uri@,
            r.title@ == self.title@,
            r.status == self.status,
            r.detail@ == detail@,
            r.data == self.data,
    {
        ApiError { detail, ..self }
    }

    /// A copy with `title` replaced; no other field changes.
    pub fn with_title(self, title: String) -> (r: ApiError)
        ensures
            r.type_uri@ == self.type_uri@,
            r.title@ == title@,
            r.status == self.status,
            r.detail@ == self.detail@,
            r.data == self.data,
    {
        ApiError { title, ..self }
    }

    /// A copy with `data` set per the merge rule; no other field changes.
    /// The operation is total: any value is accepted.
    pub fn with_data(self, value: JsonValue) -> (r: ApiError)
        ensures
            r.type_uri@ == self.type_uri@,
            r.title@ == self.title@,
            r.status == self.status,
            r.detail@ == self.detail@,
            data_model(r.data) == merged_data(value@),
    {
        let data: Option<JsonValue> = match value {
            JsonValue::Null => None,
            JsonValue::Obj(pairs) => Some(JsonValue::Obj(pairs)),
            other => {
                let wrapped = JsonValue::Obj(vec![(String::from_str("data"), other)]);
                proof {
                    assert(pairs_model(wrapped->Obj_0@) =~= seq![("data"@, value@)]);
                }
                Some(wrapped)
            },
        };
        ApiError { data, ..self }
    }
}

/// The members that attached data contributes to the document, each with
/// its leading comma; absent data contributes nothing.
pub open spec fn data_members(d: Option<JsonModel>) -> Seq<char> {
    match d {
        Option::None => Seq::empty(),
        Option::Some(JsonModel::Obj(pairs)) => if pairs.len() == 0 {
            Seq::empty()
        } else {
            seq![','] + ser_members(pairs)
        },
        Option::Some(other) => seq![','] + ser_members(seq![("data"@, other)]),
    }
}

/// The problem+json document for a descriptor's value: the four category
/// fields, then the merged data members.
pub open spec fn problem_doc_v(e: ErrView) -> Seq<char> {
    "{\"type\":\""@ + escape_str(e.type_uri) + "\",\"title\":\""@ + escape_str(e.title)
        + "\",\"status\":"@ + dec_chars(e.status as nat) + ",\"detail\":\""@ + escape_str(e.detail)
        + seq!['"'] + data_members(e.data) + seq!['}']
}

/// The problem+json document for a descriptor.
pub open spec fn problem_doc(e: ApiError) -> Seq<char> {
    problem_doc_v(e@)
}

impl ApiError {
    /// Serializes the descriptor as its problem+json document.  This never
    /// fails: every descriptor has a document.
    pub fn to_problem_json(&self) -> (r: String)
        ensures
            r@ == problem_doc(*self),
    {
        let mut out: Vec<char> = Vec::new();
        push_str_chars("{\"type\":\"", &mut out);
        push_escaped_str(self.type_uri.as_str(), &mut out);
        push_str_chars("\",\"title\":\"", &mut out);
        push_escaped_str(self.title.as_str(), &mut out);
        push_str_chars("\",\"status\":", &mut out);
        push_dec_u64(self.status as u64, &mut out);
        push_str_chars(",\"detail\":\"", &mut out);
        push_escaped_str(self.detail.as_str(), &mut out);
        out.push('"');
        match &self.data {
            None => {},
            Some(v) => {
                match v {
                    JsonValue::Obj(pairs) => {
                        if pairs.len() > 0 {
                            out.push(',');
                            write_members(pairs, &mut out);
                        }
                    },
                    _ => {
                        out.push(',');
                        out.push('"');
                        push_escaped_str("data", &mut out);
                        push_str_chars("\":", &mut out);
                        write_json(v, &mut out);
                        proof {
                            reveal_strlit("\":");
                            assert(ser_members(seq![("data"@, v@)]) =~= seq!['"'] + escape_str(
                                "data"@,
                            ) + seq!['"', ':'] + ser(v@));
                        }
                    },
                }
            },
        }
        out.push('}');
        proof {
            assert(out@ =~= problem_doc(*self));
        }
        crate::json::chars_into_string(out)
    }
}

/// A descriptor whose data was set to `null` serializes exactly as the
/// descriptor it was derived from, when that one carried no data.
pub proof fn lemma_with_data_null_serializes_same(e: ApiError, r: ApiError)
    requires
        e.data is None,
        r.type_uri@ == e.type_uri@,
        r.title@ == e.title@,
        r.status == e.status,
        r.detail@ == e.detail@,
        data_model(r.data) == merged_data(JsonModel::Null),
    ensures
        problem_doc(r) == problem_doc(e),
{
    assert(r.data is None);
}

} // verus!
