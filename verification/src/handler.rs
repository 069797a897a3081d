//! The adapter that lets plain functions serve as request handlers.
//!
//! A function of up to three typed parameters — metadata extractors first,
//! at most one body-consuming extractor last — is wrapped behind one uniform
//! calling convention: accept a request, extract each declared parameter in
//! declaration order, invoke the function, and convert its return value into
//! a response. Any extraction failure short-circuits: the rejection's own
//! response is returned and the function is never invoked.

use core::marker::PhantomData;

use vstd::prelude::*;

use crate::extract::{
    string_rejection_response, utf8_decoded, FromRequest, FromRequestPart,
};
use crate::message::{
    Method, Request, RequestBodyModel, RequestModel, Response, ResponseModel,
};
use crate::response::IntoResponse;

verus! {

/// A request handler; `T` names the tuple of extractors a plain function
/// expects, keeping the function impls of different arities apart.
///
/// `callable` says on which requests the handler may be invoked, and
/// `handled` relates a request to the responses the handler may produce for
/// it; `call` is exactly as precise as those two spec functions.
pub trait Handler<T>: Sized + Copy {
    /// Whether the handler may be invoked on this request.
    spec fn callable(self, req: RequestModel) -> bool;

    /// Relates a request to the responses this handler may produce for it.
    spec fn handled(self, req: RequestModel, resp: ResponseModel) -> bool;

    fn call(self, req: Request) -> (r: Response)
        requires
            self.callable(req@),
        ensures
            self.handled(req@, r@),
    ;
}

/// Functions of no parameters handle a request by ignoring it.
impl<F: FnOnce() -> Res + Copy, Res: IntoResponse> Handler<()> for F {
    open spec fn callable(self, req: RequestModel) -> bool {
        call_requires(self, ())
    }

    open spec fn handled(self, req: RequestModel, resp: ResponseModel) -> bool {
        exists|res: Res|
            #[trigger] call_ensures(self, (), res) && resp == res.response_model()
    }

    fn call(self, req: Request) -> (r: Response) {
        let res = self();
        res.into_response()
    }
}

/// Functions of one parameter extract it from the whole request.
impl<F: FnOnce(L) -> Res + Copy, L: FromRequest, Res: IntoResponse> Handler<(L,)> for F {
    open spec fn callable(self, req: RequestModel) -> bool {
        forall|l: L| l@ == L::value_from(req) ==> #[trigger] call_requires(self, (l,))
    }

    open spec fn handled(self, req: RequestModel, resp: ResponseModel) -> bool {
        if L::accepts(req) {
            exists|l: L, res: Res|
                l@ == L::value_from(req) && #[trigger] call_ensures(self, (l,), res) && resp
                    == res.response_model()
        } else {
            resp == L::rejection_from(req)
        }
    }

    fn call(self, req: Request) -> (r: Response) {
        let ghost rm = req@;
        match L::from_request(req) {
            Ok(l) => {
                let res = self(l);
                res.into_response()
            },
            Err(rej) => rej.into_response(),
        }
    }
}

/// Functions of two parameters extract the first from the request metadata
/// and the second from the whole request, in that order.
impl<
    F: FnOnce(T1, L) -> Res + Copy,
    T1: FromRequestPart,
    L: FromRequest,
    Res: IntoResponse,
> Handler<(T1, L)> for F {
    open spec fn callable(self, req: RequestModel) -> bool {
        forall|t1: T1, l: L|
            t1@ == T1::value_from_parts(req.parts) && l@ == L::value_from(req)
                ==> #[trigger] call_requires(self, (t1, l))
    }

    open spec fn handled(self, req: RequestModel, resp: ResponseModel) -> bool {
        if !T1::accepts_parts(req.parts) {
            resp == T1::rejection_from_parts(req.parts)
        } else if !L::accepts(req) {
            resp == L::rejection_from(req)
        } else {
            exists|t1: T1, l: L, res: Res|
                t1@ == T1::value_from_parts(req.parts) && l@ == L::value_from(req)
                    && #[trigger] call_ensures(self, (t1, l), res) && resp
                    == res.response_model()
        }
    }

    fn call(self, req: Request) -> (r: Response) {
        let ghost rm = req@;
        let (mut parts, body) = req.into_parts();
        let t1 = match T1::from_request_parts(&mut parts) {
            Ok(v) => v,
            Err(rej) => {
                return rej.into_response();
            },
        };
        let req = Request::from_parts(parts, body);
        proof {
            assert(req@ =~= rm);
        }
        match L::from_request(req) {
            Ok(l) => {
                let res = self(t1, l);
                res.into_response()
            },
            Err(rej) => rej.into_response(),
        }
    }
}

/// Functions of three parameters extract the first two from the request
/// metadata and the third from the whole request, left to right.
impl<
    F: FnOnce(T1, T2, L) -> Res + Copy,
    T1: FromRequestPart,
    T2: FromRequestPart,
    L: FromRequest,
    Res: IntoResponse,
> Handler<(T1, T2, L)> for F {
    open spec fn callable(self, req: RequestModel) -> bool {
        forall|t1: T1, t2: T2, l: L|
            t1@ == T1::value_from_parts(req.parts) && t2@ == T2::value_from_parts(req.parts)
                && l@ == L::value_from(req) ==> #[trigger] call_requires(self, (t1, t2, l))
    }

    open spec fn handled(self, req: RequestModel, resp: ResponseModel) -> bool {
        if !T1::accepts_parts(req.parts) {
            resp == T1::rejection_from_parts(req.parts)
        } else if !T2::accepts_parts(req.parts) {
            resp == T2::rejection_from_parts(req.parts)
        } else if !L::accepts(req) {
            resp == L::rejection_from(req)
        } else {
            exists|t1: T1, t2: T2, l: L, res: Res|
                t1@ == T1::value_from_parts(req.parts) && t2@ == T2::value_from_parts(req.parts)
                    && l@ == L::value_from(req) && #[trigger] call_ensures(self, (t1, t2, l), res)
                    && resp == res.response_model()
        }
    }

    fn call(self, req: Request) -> (r: Response) {
        let ghost rm = req@;
        let (mut parts, body) = req.into_parts();
        let t1 = match T1::from_request_parts(&mut parts) {
            Ok(v) => v,
            Err(rej) => {
                return rej.into_response();
            },
        };
        let t2 = match T2::from_request_parts(&mut parts) {
            Ok(v) => v,
            Err(rej) => {
                return rej.into_response();
            },
        };
        let req = Request::from_parts(parts, body);
        proof {
            assert(req@ =~= rm);
        }
        match L::from_request(req) {
            Ok(l) => {
                let res = self(t1, t2, l);
                res.into_response()
            },
            Err(rej) => rej.into_response(),
        }
    }
}

/// A service in the routing table: the uniform "accept a request, produce a
/// response" interface the router dispatches through.
pub trait RouteService: Sized {
    /// Whether the service may be invoked on this request.
    spec fn svc_callable(&self, req: RequestModel) -> bool;

    /// Relates a request to the responses this service may produce for it.
    spec fn svc_handled(&self, req: RequestModel, resp: ResponseModel) -> bool;

    fn call(&self, req: Request) -> (r: Response)
        requires
            self.svc_callable(req@),
        ensures
            self.svc_handled(req@, r@),
    ;
}

/// Adapts a handler function to the uniform service calling convention.
pub struct HandlerService<H, T> {
    pub handler: H,
    pub extractors: PhantomData<T>,
}

impl<H, T> HandlerService<H, T> {
    pub fn new(handler: H) -> (r: HandlerService<H, T>)
        ensures
            r.handler == handler,
    {
        HandlerService { handler, extractors: PhantomData }
    }
}

impl<H: Handler<T>, T> RouteService for HandlerService<H, T> {
    open spec fn svc_callable(&self, req: RequestModel) -> bool {
        self.handler.callable(req)
    }

    open spec fn svc_handled(&self, req: RequestModel, resp: ResponseModel) -> bool {
        self.handler.handled(req, resp)
    }

    fn call(&self, req: Request) -> (r: Response) {
        self.handler.call(req)
    }
}

/// Extraction is left to right and metadata extraction never consumes the
/// body: a handler taking the method and then the body string is invoked
/// exactly on the request's method and the full body bytes decoded as UTF-8.
pub proof fn lemma_extraction_order<F: FnOnce(Method, String) -> Res + Copy, Res: IntoResponse>(
    f: F,
    req: RequestModel,
    resp: ResponseModel,
    text: Seq<char>,
)
    requires
        req.body matches RequestBodyModel::Bytes(b) && utf8_decoded(b) == Some(text),
        <F as Handler<(Method, String)>>::handled(f, req, resp),
    ensures
        exists|l: String, res: Res|
            l@ == text && #[trigger] call_ensures(f, (req.parts.method, l), res) && resp
                == res.response_model(),
{
    let (t1, l, res) = choose|t1: Method, l: String, res: Res|
        t1@ == req.parts.method && l@ == text && #[trigger] call_ensures(f, (t1, l), res) && resp
            == res.response_model();
    assert(call_ensures(f, (req.parts.method, l), res));
}

/// A request whose body cannot be extracted as a string — the transport
/// failed to read it, or its bytes are not valid UTF-8 — is answered by the
/// fixed diagnostic response, and the handler function is never invoked.
pub proof fn lemma_invalid_body_rejected<F: FnOnce(Method, String) -> Res + Copy, Res: IntoResponse>(
    f: F,
    req: RequestModel,
    resp: ResponseModel,
)
    requires
        !(req.body matches RequestBodyModel::Bytes(b) && utf8_decoded(b) is Some),
        <F as Handler<(Method, String)>>::handled(f, req, resp),
    ensures
        resp == string_rejection_response(),
{
}

} // verus!
