//! The writable destination a serialized response is sent to.
//!
//! The core never opens or closes connections: the transport layer owns the
//! socket and hands the core a sink. A live TCP stream, a file, or an
//! in-memory buffer in a test can all stand behind this trait.

use vstd::prelude::*;

verus! {

/// An abstract writable destination for serialized response bytes.
pub trait ResponseSink {
    /// Writes the whole message to the destination in one operation.
    /// `Err(())` reports a failed or abandoned destination (for example a
    /// broken pipe); the core surfaces it to its caller and never retries.
    fn write_message(&mut self, message: &str) -> Result<(), ()>;
}

} // verus!
