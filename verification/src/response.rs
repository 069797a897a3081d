//! Conversion of handler return values into responses.
//!
//! A type that implements [`IntoResponse`] can be returned from a handler;
//! its `response_model` spec pins down exactly which response it converts to.
//! A type that implements [`IntoResponseParts`] contributes to the status and
//! headers of a response already produced by another value, as in a tuple
//! `(StatusCode, body)`.

use vstd::prelude::*;

use crate::message::{
    Headers, Response, ResponseBody, ResponseBodyModel, ResponseModel, ResponseParts,
    ResponsePartsModel, StatusCode,
};

verus! {

/// The rejection of conversions and extractions that cannot fail. It has no
/// public constructor and nothing in this crate builds one, so every failure
/// path that carries it is dead code.
pub struct Never {
    no_value: (),
}

/// The response a text value converts to: 200 with a plain-text body.
pub open spec fn text_response_model(s: Seq<char>) -> ResponseModel {
    ResponseModel {
        status: 200,
        headers: seq![("content-type"@, "text/plain;charset=utf-8"@)],
        body: ResponseBodyModel::Text(s),
    }
}

/// The response a byte buffer converts to: 200 with an octet-stream body.
pub open spec fn octets_response_model(b: Seq<u8>) -> ResponseModel {
    ResponseModel {
        status: 200,
        headers: seq![("content-type"@, "application/octet-stream"@)],
        body: ResponseBodyModel::Octets(b),
    }
}

/// The response a bare status code converts to: that status, empty body.
pub open spec fn status_response_model(code: u16) -> ResponseModel {
    ResponseModel {
        status: code,
        headers: Seq::empty(),
        body: ResponseBodyModel::Empty,
    }
}

/// A value that converts into a complete response.
pub trait IntoResponse: Sized {
    /// The response this value converts to.
    spec fn response_model(self) -> ResponseModel;

    fn into_response(self) -> (r: Response)
        ensures
            r@ == self.response_model(),
    ;
}

/// A value that rewrites the status and headers of an existing response.
pub trait IntoResponseParts: Sized {
    type Error: IntoResponse;

    /// Whether this contributor accepts the given status and headers.
    spec fn parts_accepts(self, parts: ResponsePartsModel) -> bool;

    /// The rewritten status and headers, when accepted.
    spec fn parts_value(self, parts: ResponsePartsModel) -> ResponsePartsModel;

    /// The response of the rejection returned when not accepted.
    spec fn parts_error_response(self, parts: ResponsePartsModel) -> ResponseModel;

    fn into_response_parts(self, res: ResponseParts) -> (r: Result<ResponseParts, Self::Error>)
        ensures
            self.parts_accepts(res@) ==> (r matches Ok(p) && p@ == self.parts_value(res@)),
            !self.parts_accepts(res@) ==> (r matches Err(e) && e.response_model()
                == self.parts_error_response(res@)),
    ;
}

impl IntoResponse for Never {
    open spec fn response_model(self) -> ResponseModel {
        status_response_model(500)
    }

    fn into_response(self) -> (r: Response) {
        StatusCode::internal_server_error().into_response()
    }
}

impl IntoResponse for StatusCode {
    open spec fn response_model(self) -> ResponseModel {
        status_response_model(self.code)
    }

    fn into_response(self) -> (r: Response) {
        let r = Response { status: self, headers: Headers::empty(), body: ResponseBody::Empty };
        proof {
            assert(r@ =~= status_response_model(self.code));
        }
        r
    }
}

impl IntoResponseParts for StatusCode {
    type Error = Never;

    open spec fn parts_accepts(self, parts: ResponsePartsModel) -> bool {
        true
    }

    open spec fn parts_value(self, parts: ResponsePartsModel) -> ResponsePartsModel {
        ResponsePartsModel { status: self.code, headers: parts.headers }
    }

    open spec fn parts_error_response(self, parts: ResponsePartsModel) -> ResponseModel {
        arbitrary()
    }

    fn into_response_parts(self, res: ResponseParts) -> (r: Result<ResponseParts, Never>) {
        let ghost before = res@;
        let r = ResponseParts { status: self, headers: res.headers };
        proof {
            assert(r@ =~= self.parts_value(before));
        }
        Ok(r)
    }
}

impl IntoResponse for Response {
    open spec fn response_model(self) -> ResponseModel {
        self@
    }

    fn into_response(self) -> (r: Response) {
        self
    }
}

impl IntoResponse for String {
    open spec fn response_model(self) -> ResponseModel {
        text_response_model(self@)
    }

    fn into_response(self) -> (r: Response) {
        let ghost s = self@;
        let mut headers = Headers::empty();
        headers.append("content-type".to_owned(), "text/plain;charset=utf-8".to_owned());
        let r = Response { status: StatusCode::ok(), headers, body: ResponseBody::Text(self) };
        proof {
            assert(r@ =~= text_response_model(s));
        }
        r
    }
}

impl IntoResponse for &'static str {
    open spec fn response_model(self) -> ResponseModel {
        text_response_model(self@)
    }

    fn into_response(self) -> (r: Response) {
        self.to_owned().into_response()
    }
}

impl IntoResponse for Vec<u8> {
    open spec fn response_model(self) -> ResponseModel {
        octets_response_model(self@)
    }

    fn into_response(self) -> (r: Response) {
        let ghost b = self@;
        let mut headers = Headers::empty();
        headers.append("content-type".to_owned(), "application/octet-stream".to_owned());
        let r = Response { status: StatusCode::ok(), headers, body: ResponseBody::Octets(self) };
        proof {
            assert(r@ =~= octets_response_model(b));
        }
        r
    }
}

impl IntoResponse for &'static [u8] {
    open spec fn response_model(self) -> ResponseModel {
        octets_response_model(self@)
    }

    fn into_response(self) -> (r: Response) {
        let mut v: Vec<u8> = Vec::new();
        let mut i: usize = 0;
        while i < self.len()
            invariant
                i <= self@.len(),
                v@.len() == i,
                forall|j: int| 0 <= j < i ==> v@[j] == self@[j],
            decreases self@.len() - i,
        {
            v.push(self[i]);
            i = i + 1;
        }
        proof {
            assert(v@ =~= self@);
        }
        v.into_response()
    }
}

/// A status code paired with a text body converts to the text's own
/// response — 200, a plain-text content type, the text as body — with only
/// the status overwritten by the code.
pub proof fn lemma_status_text_response(sc: StatusCode, s: String)
    ensures
        (sc, s).response_model() == (ResponseModel {
            status: sc.code,
            headers: text_response_model(s@).headers,
            body: ResponseBodyModel::Text(s@),
        }),
{
    assert((sc, s).response_model() =~= ResponseModel {
        status: sc.code,
        headers: text_response_model(s@).headers,
        body: ResponseBodyModel::Text(s@),
    });
}

impl<const N: usize> IntoResponse for [u8; N] {
    open spec fn response_model(self) -> ResponseModel {
        octets_response_model(self@)
    }

    fn into_response(self) -> (r: Response) {
        let mut v: Vec<u8> = Vec::new();
        let mut i: usize = 0;
        while i < N
            invariant
                i <= N,
                v@.len() == i,
                forall|j: int| 0 <= j < i ==> v@[j] == self@[j],
            decreases N - i,
        {
            v.push(self[i]);
            i = i + 1;
        }
        proof {
            assert(v@ =~= self@);
        }
        v.into_response()
    }
}

impl<const N: usize> IntoResponse for &'static [u8; N] {
    open spec fn response_model(self) -> ResponseModel {
        octets_response_model(self@)
    }

    fn into_response(self) -> (r: Response) {
        let mut v: Vec<u8> = Vec::new();
        let mut i: usize = 0;
        while i < N
            invariant
                i <= N,
                v@.len() == i,
                forall|j: int| 0 <= j < i ==> v@[j] == self@[j],
            decreases N - i,
        {
            v.push(self[i]);
            i = i + 1;
        }
        proof {
            assert(v@ =~= self@);
        }
        v.into_response()
    }
}

impl<P: IntoResponseParts, R: IntoResponse> IntoResponse for (P, R) {
    /// The final contributor produces the response; the part contributor is
    /// then applied to its status and headers, or its own failure response
    /// replaces the whole result.
    open spec fn response_model(self) -> ResponseModel {
        let base = self.1.response_model();
        let parts0 = ResponsePartsModel { status: base.status, headers: base.headers };
        if self.0.parts_accepts(parts0) {
            let p = self.0.parts_value(parts0);
            ResponseModel { status: p.status, headers: p.headers, body: base.body }
        } else {
            self.0.parts_error_response(parts0)
        }
    }

    fn into_response(self) -> (r: Response) {
        let (part, res) = self;
        let ghost base = res.response_model();
        let ghost parts0 = ResponsePartsModel { status: base.status, headers: base.headers };
        let resp = res.into_response();
        let (parts, body) = resp.into_parts();
        proof {
            assert(parts@ =~= parts0);
        }
        match part.into_response_parts(parts) {
            Ok(parts) => {
                let r = Response::from_parts(parts, body);
                proof {
                    assert(r@ =~= self.response_model());
                }
                r
            },
            Err(err) => err.into_response(),
        }
    }
}

impl<P1: IntoResponseParts, P2: IntoResponseParts, R: IntoResponse> IntoResponse for (
    P1,
    P2,
    R,
) {
    /// Part contributors are applied left to right; the first rejection
    /// short-circuits.
    open spec fn response_model(self) -> ResponseModel {
        let base = self.2.response_model();
        let parts0 = ResponsePartsModel { status: base.status, headers: base.headers };
        if !self.0.parts_accepts(parts0) {
            self.0.parts_error_response(parts0)
        } else {
            let p1 = self.0.parts_value(parts0);
            if !self.1.parts_accepts(p1) {
                self.1.parts_error_response(p1)
            } else {
                let p2 = self.1.parts_value(p1);
                ResponseModel { status: p2.status, headers: p2.headers, body: base.body }
            }
        }
    }

    fn into_response(self) -> (r: Response) {
        let (part1, part2, res) = self;
        let ghost base = res.response_model();
        let ghost parts0 = ResponsePartsModel { status: base.status, headers: base.headers };
        let resp = res.into_response();
        let (parts, body) = resp.into_parts();
        proof {
            assert(parts@ =~= parts0);
        }
        match part1.into_response_parts(parts) {
            Ok(parts) => match part2.into_response_parts(parts) {
                Ok(parts) => {
                    let r = Response::from_parts(parts, body);
                    proof {
                        assert(r@ =~= self.response_model());
                    }
                    r
                },
                Err(err) => err.into_response(),
            },
            Err(err) => err.into_response(),
        }
    }
}

} // verus!
