//! A model of one HTTP exchange as the handlers see it: the route
//! parameters and request body handed in by the surrounding framework, and
//! the response being assembled — status, content type, body, and whether
//! the request has been halted (fully handled, no further writes).

use vstd::prelude::*;

use crate::error::{problem_doc_v, ApiError, ErrView};

verus! {

/// The observable response side of an exchange.
#[verifier::ext_equal]
pub struct Response {
    pub status: Option<u16>,
    pub content_type: Option<Seq<char>>,
    pub body: Option<Seq<char>>,
    pub halted: bool,
}

/// The view of an optional string.
pub open spec fn opt_str_view(o: Option<String>) -> Option<Seq<char>> {
    match o {
        Option::None => Option::None,
        Option::Some(s) => Option::Some(s@),
    }
}

/// The terminal response for a descriptor: its status, the problem+json
/// content type, its document as body, and the request halted.
pub open spec fn problem_response_v(e: ErrView) -> Response {
    Response {
        status: Option::Some(e.status),
        content_type: Option::Some("application/problem+json"@),
        body: Option::Some(problem_doc_v(e)),
        halted: true,
    }
}

/// What a connection-like type exposes to the contracts: its response so
/// far, the bytes of the request body, and the route parameters.
pub trait ConnView {
    spec fn response(&self) -> Response;

    spec fn req_body(&self) -> Seq<u8>;

    spec fn route_params(&self) -> Seq<(Seq<char>, Seq<char>)>;
}

/// Halting a request with a problem+json error response.
pub trait ConnApiErrorExt: ConnView + Sized {
    /// Halt the request and respond with a problem+json error: the
    /// descriptor's status, the problem+json content type, the descriptor's
    /// document as body, and no further processing.  This never fails.
    fn error(self, error: ApiError) -> (r: Self)
        ensures
            r.response() == problem_response_v(error@),
            r.req_body() == self.req_body(),
            r.route_params() == self.route_params(),
    ;
}

/// One HTTP exchange, as plain values.
#[derive(Debug, PartialEq)]
pub struct Conn {
    pub params: Vec<(String, String)>,
    pub request_body: Vec<u8>,
    pub status: Option<u16>,
    pub content_type: Option<String>,
    pub body: Option<String>,
    pub halted: bool,
}

/// The view of a parameter list.
pub open spec fn params_view(params: Seq<(String, String)>) -> Seq<(Seq<char>, Seq<char>)> {
    Seq::new(
        params.len(),
        |i: int|
            if 0 <= i < params.len() {
                (params[i].0@, params[i].1@)
            } else {
                (Seq::<char>::empty(), Seq::<char>::empty())
            },
    )
}

impl ConnView for Conn {
    open spec fn response(&self) -> Response {
        Response {
            status: self.status,
            content_type: opt_str_view(self.content_type),
            body: opt_str_view(self.body),
            halted: self.halted,
        }
    }

    open spec fn req_body(&self) -> Seq<u8> {
        self.request_body@
    }

    open spec fn route_params(&self) -> Seq<(Seq<char>, Seq<char>)> {
        params_view(self.params@)
    }
}

impl Conn {
    /// A fresh exchange: the given route parameters and request body, and
    /// nothing written to the response yet.
    pub fn new(params: Vec<(String, String)>, request_body: Vec<u8>) -> (r: Conn)
        ensures
            r.route_params() == params_view(params@),
            r.req_body() == request_body@,
            r.response() == (Response {
                status: Option::None,
                content_type: Option::None,
                body: Option::None,
                halted: false,
            }),
    {
        Conn { params, request_body, status: None, content_type: None, body: None, halted: false }
    }
}

impl ConnApiErrorExt for Conn {
    fn error(self, error: ApiError) -> (r: Self) {
        let body = error.to_problem_json();
        let status = error.status;
        let r = Conn {
            status: Some(status),
            content_type: Some(String::from_str("application/problem+json")),
            body: Some(body),
            halted: true,
            ..self
        };
        proof {
            assert(r.response() =~= problem_response_v(error@));
        }
        r
    }
}

} // verus!
