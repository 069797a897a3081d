//! Conversion of pieces of a request into typed handler parameters.
//!
//! [`FromRequestPart`] extractors read only the request metadata, never the
//! body, so they may run any number of times and in any position.
//! [`FromRequest`] extractors may consume the body, a single-use operation,
//! so a handler may declare at most one, and only as its last parameter.

use vstd::prelude::*;

use crate::message::{
    clone_pairs, pairs_view, Headers, Method, Request, RequestBody, RequestBodyModel,
    RequestModel, RequestParts, RequestPartsModel, Response, ResponseBody, ResponseBodyModel,
    ResponseModel, StatusCode,
};
use crate::response::{IntoResponse, Never};

verus! {

/// A typed value extracted from the metadata of a request.
///
/// Extraction never changes the metadata, succeeds exactly on the requests
/// that `accepts_parts` allows, and then yields the value that
/// `value_from_parts` names; otherwise it yields a rejection converting to
/// the response that `rejection_from_parts` names.
pub trait FromRequestPart: Sized + View {
    type Rejection: IntoResponse;

    /// Whether extraction succeeds on requests with this metadata.
    spec fn accepts_parts(parts: RequestPartsModel) -> bool;

    /// The value extracted, where extraction succeeds.
    spec fn value_from_parts(parts: RequestPartsModel) -> Self::V;

    /// The response of the rejection, where extraction fails.
    spec fn rejection_from_parts(parts: RequestPartsModel) -> ResponseModel;

    fn from_request_parts(parts: &mut RequestParts) -> (r: Result<Self, Self::Rejection>)
        ensures
            final (parts)@ == old(parts)@,
            Self::accepts_parts(old(parts)@) ==> (r matches Ok(v) && v@
                == Self::value_from_parts(old(parts)@)),
            !Self::accepts_parts(old(parts)@) ==> (r matches Err(e) && e.response_model()
                == Self::rejection_from_parts(old(parts)@)),
    ;
}

/// A typed value extracted from a whole request, body included.
pub trait FromRequest: Sized + View {
    type Rejection: IntoResponse;

    /// Whether extraction succeeds on this request.
    spec fn accepts(req: RequestModel) -> bool;

    /// The value extracted, where extraction succeeds.
    spec fn value_from(req: RequestModel) -> Self::V;

    /// The response of the rejection, where extraction fails.
    spec fn rejection_from(req: RequestModel) -> ResponseModel;

    fn from_request(req: Request) -> (r: Result<Self, Self::Rejection>)
        ensures
            Self::accepts(req@) ==> (r matches Ok(v) && v@ == Self::value_from(req@)),
            !Self::accepts(req@) ==> (r matches Err(e) && e.response_model()
                == Self::rejection_from(req@)),
    ;
}

impl FromRequestPart for Method {
    type Rejection = Never;

    open spec fn accepts_parts(parts: RequestPartsModel) -> bool {
        true
    }

    open spec fn value_from_parts(parts: RequestPartsModel) -> Method {
        parts.method
    }

    open spec fn rejection_from_parts(parts: RequestPartsModel) -> ResponseModel {
        arbitrary()
    }

    fn from_request_parts(parts: &mut RequestParts) -> (r: Result<Method, Never>) {
        Ok(parts.method)
    }
}

impl FromRequestPart for Headers {
    type Rejection = Never;

    open spec fn accepts_parts(parts: RequestPartsModel) -> bool {
        true
    }

    open spec fn value_from_parts(parts: RequestPartsModel) -> Seq<(Seq<char>, Seq<char>)> {
        parts.headers
    }

    open spec fn rejection_from_parts(parts: RequestPartsModel) -> ResponseModel {
        arbitrary()
    }

    fn from_request_parts(parts: &mut RequestParts) -> (r: Result<Headers, Never>) {
        Ok(parts.headers.clone())
    }
}

/// The parameters captured by the path match, as name/value pairs in path
/// order.
#[derive(Clone, Debug)]
pub struct PathParams {
    pub params: Vec<(String, String)>,
}

impl View for PathParams {
    type V = Seq<(Seq<char>, Seq<char>)>;

    open spec fn view(&self) -> Seq<(Seq<char>, Seq<char>)> {
        pairs_view(self.params@)
    }
}

impl FromRequestPart for PathParams {
    type Rejection = Never;

    open spec fn accepts_parts(parts: RequestPartsModel) -> bool {
        true
    }

    open spec fn value_from_parts(parts: RequestPartsModel) -> Seq<(Seq<char>, Seq<char>)> {
        parts.params
    }

    open spec fn rejection_from_parts(parts: RequestPartsModel) -> ResponseModel {
        arbitrary()
    }

    fn from_request_parts(parts: &mut RequestParts) -> (r: Result<PathParams, Never>) {
        Ok(PathParams { params: clone_pairs(&parts.params) })
    }
}

/// Every metadata extractor also extracts from a whole request, by splitting
/// the request and discarding the body unread.
impl<T: FromRequestPart> FromRequest for T {
    type Rejection = <T as FromRequestPart>::Rejection;

    open spec fn accepts(req: RequestModel) -> bool {
        T::accepts_parts(req.parts)
    }

    open spec fn value_from(req: RequestModel) -> Self::V {
        T::value_from_parts(req.parts)
    }

    open spec fn rejection_from(req: RequestModel) -> ResponseModel {
        T::rejection_from_parts(req.parts)
    }

    fn from_request(req: Request) -> (r: Result<T, Self::Rejection>) {
        let (mut parts, _body) = req.into_parts();
        T::from_request_parts(&mut parts)
    }
}

/// What a byte sequence decodes to as UTF-8: its characters, or nothing
/// where the bytes are not valid UTF-8.
pub uninterp spec fn utf8_decoded(bytes: Seq<u8>) -> Option<Seq<char>>;

/// Relies on String::from_utf8: it succeeds exactly on valid UTF-8, and the
/// result is a function of the bytes alone.
#[verifier::external_body]
fn string_from_utf8(bytes: Vec<u8>) -> (r: Option<String>)
    ensures
        r is Some <==> utf8_decoded(bytes@) is Some,
        r matches Some(s) ==> utf8_decoded(bytes@) == Some(s@),
{
    String::from_utf8(bytes).ok()
}

/// Why extracting the body as a string failed.
#[derive(Clone, Copy, PartialEq, Eq, Structural, Debug)]
pub enum StringRejection {
    /// The transport could not read the body stream.
    Io,
    /// The body bytes are not valid UTF-8.
    InvalidUtf8,
}

/// The fixed diagnostic response for a failed body extraction.
pub open spec fn string_rejection_response() -> ResponseModel {
    ResponseModel {
        status: 500,
        headers: Seq::empty(),
        body: ResponseBodyModel::Text("error reading body"@),
    }
}

impl IntoResponse for StringRejection {
    open spec fn response_model(self) -> ResponseModel {
        string_rejection_response()
    }

    fn into_response(self) -> (r: Response) {
        let r = Response {
            status: StatusCode::internal_server_error(),
            headers: Headers::empty(),
            body: ResponseBody::Text("error reading body".to_owned()),
        };
        proof {
            assert(r@ =~= string_rejection_response());
        }
        r
    }
}

/// Extracting a string consumes the body and decodes it as UTF-8.
impl FromRequest for String {
    type Rejection = StringRejection;

    open spec fn accepts(req: RequestModel) -> bool {
        req.body matches RequestBodyModel::Bytes(b) && utf8_decoded(b) is Some
    }

    open spec fn value_from(req: RequestModel) -> Seq<char> {
        utf8_decoded(req.body->Bytes_0)->Some_0
    }

    open spec fn rejection_from(req: RequestModel) -> ResponseModel {
        string_rejection_response()
    }

    fn from_request(req: Request) -> (r: Result<String, StringRejection>) {
        match req.into_body() {
            RequestBody::Failed => Err(StringRejection::Io),
            RequestBody::Bytes(bytes) => match string_from_utf8(bytes) {
                Some(s) => Ok(s),
                None => Err(StringRejection::InvalidUtf8),
            },
        }
    }
}

} // verus!
