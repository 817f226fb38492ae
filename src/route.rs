//! Routing of inbound requests at the edge: which requests get a normalised
//! user agent, and what is sent upstream.

use vstd::prelude::*;
use crate::text::{bytes_eq, lit};

verus! {

/// The host name of the upstream polyfill service.
pub const UPSTREAM_HOST: &'static str = "polyfill.io";

/// The name of the backend that reaches the upstream service.
pub const BACKEND: &'static str = "polyfill";

/// The upstream endpoint that serves the polyfill bundle.
pub const POLYFILL_URL: &'static str = "https://polyfill.io/v3/polyfill.min.js";

/// What to do with an inbound request.
#[derive(Clone, Copy, PartialEq, Eq, Structural, Debug)]
pub enum Route {
    /// Normalise the user agent and fetch the bundle chosen for it.
    Normalize,
    /// Forward the request upstream as it is.
    PassThrough,
}

/// The route for a request: `GET /v4/polyfill.min.js` is normalised, every
/// other request passes through.
pub open spec fn route_spec(is_get: bool, path: Seq<u8>) -> Route {
    if is_get && path == lit("/v4/polyfill.min.js") {
        Route::Normalize
    } else {
        Route::PassThrough
    }
}

/// Picks the route of a request from its method and path.
pub fn route(is_get: bool, path: &[u8]) -> (r: Route)
    ensures
        r == route_spec(is_get, path@),
{
    if is_get && bytes_eq(path, "/v4/polyfill.min.js".as_bytes()) {
        Route::Normalize
    } else {
        Route::PassThrough
    }
}

} // verus!
