//! A routing and dispatch layer for an HTTP server.
//!
//! A [`router::Router`] maps a request's path and method to a registered
//! handler, converts pieces of the request into the typed values the handler
//! expects, invokes it, and converts its return value into a response.
//! Path matching is delegated to the `matchit` trie; reading requests off the
//! wire and writing responses back is left to the surrounding server.

pub mod extract;
pub mod handler;
pub mod message;
pub mod response;
pub mod router;

pub use crate::message::{
    Headers, Method, Request, RequestBody, RequestParts, Response, ResponseBody, ResponseParts,
    StatusCode,
};
pub use crate::extract::{FromRequest, FromRequestPart, PathParams, StringRejection};
pub use crate::handler::{Handler, HandlerService, RouteService};
pub use crate::response::{IntoResponse, IntoResponseParts};
pub use crate::router::{
    any, connect, delete, get, head, options, patch, post, put, trace, MergeError, MethodRouter,
    Route, RouteError, Router,
};
