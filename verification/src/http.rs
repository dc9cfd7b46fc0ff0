//! Plain descriptions of the requests the client wants sent and of
//! what the transport brought back. The transport collaborator lives
//! outside the library; these types are the whole interface to it.

use vstd::prelude::*;

verus! {

/// The request methods the wire convention uses.
#[derive(PartialEq, Eq, Structural, Clone, Copy, Debug)]
pub enum Method {
    Get,
    Post,
    Put,
}

/// A request the driver should send: a method, a path relative to the
/// service's base URL (the base itself is the transport's
/// configuration, never compiled in here), and an optional JSON body.
pub struct HttpRequest {
    pub method: Method,
    pub path: String,
    pub body: Option<String>,
}

/// What one remote call came to: either a delivered response, with its
/// status code and raw body text, or a transport-level failure
/// (network, timeout, connection, cancellation) with the transport's
/// own description.
pub enum TransportOutcome {
    Delivered { status: u16, body: String },
    Failed { reason: String },
}

/// The read endpoints (list, fetch one) succeed exactly with status 200.
pub open spec fn read_ok(status: u16) -> bool {
    status == 200
}

/// The write endpoints (create, replace, apply) succeed with any 2xx
/// status.
pub open spec fn write_ok(status: u16) -> bool {
    200 <= status < 300
}

} // verus!
