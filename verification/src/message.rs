//! The request and response data carried through dispatch.
//!
//! Requests and responses are held as plain values: the method as an enum,
//! the status as its numeric code, headers as an ordered list of name/value
//! pairs, and bodies as bytes or text. The surrounding server converts
//! between these and its wire-level types.

use vstd::prelude::*;

verus! {

/// An HTTP request method.
#[derive(Clone, Copy, PartialEq, Eq, Structural, Debug)]
pub enum Method {
    Get,
    Post,
    Put,
    Patch,
    Delete,
    Head,
    Options,
    Trace,
    Connect,
}

impl View for Method {
    type V = Method;

    open spec fn view(&self) -> Method {
        *self
    }
}

/// An HTTP status code, held as its three-digit number.
#[derive(Clone, Copy, PartialEq, Eq, Structural, Debug)]
pub struct StatusCode {
    pub code: u16,
}

impl StatusCode {
    pub fn new(code: u16) -> (r: StatusCode)
        requires
            100 <= code <= 999,
        ensures
            r.code == code,
    {
        StatusCode { code }
    }

    pub fn ok() -> (r: StatusCode)
        ensures
            r.code == 200,
    {
        StatusCode { code: 200 }
    }

    pub fn created() -> (r: StatusCode)
        ensures
            r.code == 201,
    {
        StatusCode { code: 201 }
    }

    pub fn not_found() -> (r: StatusCode)
        ensures
            r.code == 404,
    {
        StatusCode { code: 404 }
    }

    pub fn method_not_allowed() -> (r: StatusCode)
        ensures
            r.code == 405,
    {
        StatusCode { code: 405 }
    }

    pub fn internal_server_error() -> (r: StatusCode)
        ensures
            r.code == 500,
    {
        StatusCode { code: 500 }
    }
}

/// The view of a list of name/value string pairs.
pub open spec fn pairs_view(ps: Seq<(String, String)>) -> Seq<(Seq<char>, Seq<char>)> {
    ps.map_values(|p: (String, String)| (p.0@, p.1@))
}

/// An empty list of captured path parameters.
pub open spec fn no_params() -> Seq<(Seq<char>, Seq<char>)> {
    Seq::empty()
}

/// Copies a list of name/value string pairs.
pub fn clone_pairs(ps: &Vec<(String, String)>) -> (r: Vec<(String, String)>)
    ensures
        r@ == ps@,
{
    let mut r: Vec<(String, String)> = Vec::new();
    let mut i: usize = 0;
    while i < ps.len()
        invariant
            i <= ps@.len(),
            r@.len() == i,
            forall|j: int| 0 <= j < i ==> r@[j] == ps@[j],
        decreases ps@.len() - i,
    {
        let pair = &ps[i];
        r.push((pair.0.clone(), pair.1.clone()));
        i = i + 1;
    }
    proof {
        assert(r@ =~= ps@);
    }
    r
}

/// An ordered multimap of header names to values.
///
/// Names are kept exactly as given; the surrounding server hands names in
/// their canonical lower-case form.
#[derive(Debug)]
pub struct Headers {
    pub entries: Vec<(String, String)>,
}

impl View for Headers {
    type V = Seq<(Seq<char>, Seq<char>)>;

    open spec fn view(&self) -> Seq<(Seq<char>, Seq<char>)> {
        pairs_view(self.entries@)
    }
}

impl Headers {
    pub fn empty() -> (r: Headers)
        ensures
            r@ == Seq::<(Seq<char>, Seq<char>)>::empty(),
    {
        let r = Headers { entries: Vec::new() };
        proof {
            assert(r@ =~= Seq::<(Seq<char>, Seq<char>)>::empty());
        }
        r
    }

    /// Appends a header after all existing entries.
    pub fn append(&mut self, name: String, value: String)
        ensures
            final (self)@ == old(self)@.push((name@, value@)),
    {
        let ghost n = name@;
        let ghost v = value@;
        self.entries.push((name, value));
        proof {
            assert(self@ =~= old(self)@.push((n, v)));
        }
    }

    pub fn len(&self) -> (r: usize)
        ensures
            r == self@.len(),
    {
        self.entries.len()
    }
}

impl Clone for Headers {
    fn clone(&self) -> (r: Headers)
        ensures
            r@ == self@,
    {
        let r = Headers { entries: clone_pairs(&self.entries) };
        proof {
            assert(r@ =~= self@);
        }
        r
    }
}

/// A request body: the bytes the transport read, or a marker that reading
/// the body stream failed.
#[derive(Debug)]
pub enum RequestBody {
    Bytes(Vec<u8>),
    Failed,
}

/// The mathematical value of a [`RequestBody`].
#[verifier::ext_equal]
pub enum RequestBodyModel {
    Bytes(Seq<u8>),
    Failed,
}

impl View for RequestBody {
    type V = RequestBodyModel;

    open spec fn view(&self) -> RequestBodyModel {
        match self {
            RequestBody::Bytes(b) => RequestBodyModel::Bytes(b@),
            RequestBody::Failed => RequestBodyModel::Failed,
        }
    }
}

/// A response body: empty, text, or raw bytes.
#[derive(Debug)]
pub enum ResponseBody {
    Empty,
    Text(String),
    Octets(Vec<u8>),
}

/// The mathematical value of a [`ResponseBody`].
#[verifier::ext_equal]
pub enum ResponseBodyModel {
    Empty,
    Text(Seq<char>),
    Octets(Seq<u8>),
}

impl View for ResponseBody {
    type V = ResponseBodyModel;

    open spec fn view(&self) -> ResponseBodyModel {
        match self {
            ResponseBody::Empty => ResponseBodyModel::Empty,
            ResponseBody::Text(s) => ResponseBodyModel::Text(s@),
            ResponseBody::Octets(b) => ResponseBodyModel::Octets(b@),
        }
    }
}

/// The mathematical value of the metadata of a request.
#[verifier::ext_equal]
pub struct RequestPartsModel {
    pub method: Method,
    pub path: Seq<char>,
    pub headers: Seq<(Seq<char>, Seq<char>)>,
    pub params: Seq<(Seq<char>, Seq<char>)>,
}

/// The mathematical value of a whole request.
#[verifier::ext_equal]
pub struct RequestModel {
    pub parts: RequestPartsModel,
    pub body: RequestBodyModel,
}

impl RequestModel {
    /// The same request with the captured path parameters replaced.
    pub open spec fn with_params(self, ps: Seq<(Seq<char>, Seq<char>)>) -> RequestModel {
        RequestModel {
            parts: RequestPartsModel { params: ps, ..self.parts },
            body: self.body,
        }
    }
}

/// The metadata of a request: everything but the body.
#[derive(Debug)]
pub struct RequestParts {
    pub method: Method,
    pub path: String,
    pub headers: Headers,
    /// Parameters captured by the path match, in path order.
    pub params: Vec<(String, String)>,
}

impl View for RequestParts {
    type V = RequestPartsModel;

    open spec fn view(&self) -> RequestPartsModel {
        RequestPartsModel {
            method: self.method,
            path: self.path@,
            headers: self.headers@,
            params: pairs_view(self.params@),
        }
    }
}

/// An incoming request, as handed to dispatch by the transport.
#[derive(Debug)]
pub struct Request {
    pub parts: RequestParts,
    pub body: RequestBody,
}

impl View for Request {
    type V = RequestModel;

    open spec fn view(&self) -> RequestModel {
        RequestModel { parts: self.parts@, body: self.body@ }
    }
}

impl Request {
    /// A request with no captured path parameters yet.
    pub fn new(method: Method, path: String, headers: Headers, body: RequestBody) -> (r: Request)
        ensures
            r@.parts.method == method,
            r@.parts.path == path@,
            r@.parts.headers == headers@,
            r@.parts.params == Seq::<(Seq<char>, Seq<char>)>::empty(),
            r@.body == body@,
    {
        let r = Request {
            parts: RequestParts { method, path, headers, params: Vec::new() },
            body,
        };
        proof {
            assert(r@.parts.params =~= Seq::<(Seq<char>, Seq<char>)>::empty());
        }
        r
    }

    /// Splits the request into its metadata and its body.
    pub fn into_parts(self) -> (r: (RequestParts, RequestBody))
        ensures
            r.0@ == self@.parts,
            r.1@ == self@.body,
    {
        (self.parts, self.body)
    }

    /// Reassembles a request from its metadata and a body.
    pub fn from_parts(parts: RequestParts, body: RequestBody) -> (r: Request)
        ensures
            r@.parts == parts@,
            r@.body == body@,
    {
        Request { parts, body }
    }

    /// Consumes the request, keeping only its body.
    pub fn into_body(self) -> (r: RequestBody)
        ensures
            r@ == self@.body,
    {
        self.body
    }
}

/// The mathematical value of the status and headers of a response.
#[verifier::ext_equal]
pub struct ResponsePartsModel {
    pub status: u16,
    pub headers: Seq<(Seq<char>, Seq<char>)>,
}

/// The mathematical value of a whole response.
#[verifier::ext_equal]
pub struct ResponseModel {
    pub status: u16,
    pub headers: Seq<(Seq<char>, Seq<char>)>,
    pub body: ResponseBodyModel,
}

/// The status and headers of a response, without its body.
#[derive(Debug)]
pub struct ResponseParts {
    pub status: StatusCode,
    pub headers: Headers,
}

impl View for ResponseParts {
    type V = ResponsePartsModel;

    open spec fn view(&self) -> ResponsePartsModel {
        ResponsePartsModel { status: self.status.code, headers: self.headers@ }
    }
}

/// An outgoing response, handed back to the transport.
#[derive(Debug)]
pub struct Response {
    pub status: StatusCode,
    pub headers: Headers,
    pub body: ResponseBody,
}

impl View for Response {
    type V = ResponseModel;

    open spec fn view(&self) -> ResponseModel {
        ResponseModel { status: self.status.code, headers: self.headers@, body: self.body@ }
    }
}

impl Response {
    /// Splits the response into its status-and-headers part and its body.
    pub fn into_parts(self) -> (r: (ResponseParts, ResponseBody))
        ensures
            r.0@.status == self@.status,
            r.0@.headers == self@.headers,
            r.1@ == self@.body,
    {
        (ResponseParts { status: self.status, headers: self.headers }, self.body)
    }

    /// Reassembles a response from its status-and-headers part and a body.
    pub fn from_parts(parts: ResponseParts, body: ResponseBody) -> (r: Response)
        ensures
            r@.status == parts@.status,
            r@.headers == parts@.headers,
            r@.body == body@,
    {
        Response { status: parts.status, headers: parts.headers, body }
    }
}

} // verus!
