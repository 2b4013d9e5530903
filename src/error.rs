//! Errors that the client hands to its callers.
use vstd::prelude::*;
use reqwest::header::HeaderMap;

verus! {

/// What went wrong in a call, a detection or a session.
#[derive(Debug, Clone)]
pub enum Error {
    /// The connection failed or timed out.
    Transport { message: String },
    /// The body did not have the expected shape; the status line and the
    /// headers of the response are kept.
    Decode { status: u16, status_text: String, header: HeaderMap, message: String },
    /// Neither detection probe told which flavor the server is.
    Classification { message: String },
    /// The adapter's backend cannot perform the operation.
    UnsupportedOperation { operation: String },
    /// The operation needs a credential and the client holds none.
    Unauthenticated { operation: String },
    /// A streaming session used up its reconnection attempts.
    StreamClosed { attempts: u32 },
}

} // verus!
