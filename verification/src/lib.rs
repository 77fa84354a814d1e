//! A minimal verified HTTP/1.1 response-formatting and request-routing core.
//!
//! The crate models an HTTP response as an owned value ([`httpresponse::HttpResonse`]),
//! serializes it to the exact wire format clients parse, and routes a parsed
//! request to one of a small set of handler variants ([`router::Router`]).
//! Transport concerns (sockets, file systems, raw-byte parsing) stay outside:
//! callers hand the core an already-structured request and a writable sink.

pub mod decimal;
pub mod httprequest;
pub mod httpresponse;
pub mod router;
pub mod sink;
