//! The parsed request value the core consumes.
//!
//! The raw byte-to-request parser lives in the transport layer, outside the
//! core: routing starts from an already-structured request. The request
//! target is a path that always begins with `/`; a resource without a
//! leading slash is outside the routing contract.

use vstd::prelude::*;

verus! {

/// The request method. Anything the parser could not recognize is
/// `Uninitialized`; the router treats every non-GET method alike.
#[derive(Debug, Clone, Copy, PartialEq, Eq, Structural)]
pub enum Method {
    Get,
    Post,
    Put,
    Delete,
    Uninitialized,
}

/// The request target: a UTF-8 path beginning with `/`, e.g. `/api/users`.
#[derive(Debug, Clone, PartialEq)]
pub enum Resource {
    Path(String),
}

impl Resource {
    /// The characters of the path.
    pub open spec fn spec_path(&self) -> Seq<char> {
        match *self {
            Resource::Path(s) => s@,
        }
    }
}

/// A parsed HTTP request, consumed read-only by the router.
#[derive(Debug, Clone, PartialEq)]
pub struct HttpRequest {
    pub method: Method,
    pub resource: Resource,
    pub headers: Vec<(String, String)>,
    pub body: Option<String>,
}

impl HttpRequest {
    /// The characters of the request path.
    pub open spec fn spec_path(&self) -> Seq<char> {
        self.resource.spec_path()
    }

    /// What the upstream parser guarantees of every request it hands over:
    /// the resource is never empty and begins with `/`.
    pub open spec fn spec_valid_resource(&self) -> bool {
        self.spec_path().len() >= 1 && self.spec_path()[0] == '/'
    }
}

} // verus!
