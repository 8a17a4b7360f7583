//! What a call through the bridge can fail with.

use vstd::prelude::*;
use vstd::string::StringExecFns;

verus! {

/// A failure of one call, or of the session it was made on.
#[derive(Clone, Copy, Debug, PartialEq, Eq)]
pub enum BridgeError {
    /// The line could not be written to the subprocess; the session is over.
    Write,
    /// No response with the call's identifier arrived in time. Only this
    /// call is affected.
    RpcTimeout,
    /// A request with the same identifier is still waiting; nothing was
    /// written.
    DuplicateIdentifier,
    /// The session was torn down, before the call or while it waited.
    SessionClosed,
    /// The payload could not be rendered as one line of JSON.
    Encode,
    /// The session has numbered as many requests as it can.
    TicketsExhausted,
}

impl BridgeError {
    /// The text of [`BridgeError::message`] for each failure.
    pub open spec fn message_of(self) -> Seq<char> {
        match self {
            BridgeError::Write => "failed to write to the subprocess"@,
            BridgeError::RpcTimeout => "rpc timed out"@,
            BridgeError::DuplicateIdentifier => "rpc identifier is already awaiting a response"@,
            BridgeError::SessionClosed => "rpc response channel closed"@,
            BridgeError::Encode => "failed to serialize rpc payload"@,
            BridgeError::TicketsExhausted => "session cannot number another request"@,
        }
    }

    /// A one-line description for the client that made the call.
    pub fn message(&self) -> (text: String)
        ensures
            text@ == self.message_of(),
    {
        match self {
            BridgeError::Write => String::from_str("failed to write to the subprocess"),
            BridgeError::RpcTimeout => String::from_str("rpc timed out"),
            BridgeError::DuplicateIdentifier => String::from_str(
                "rpc identifier is already awaiting a response",
            ),
            BridgeError::SessionClosed => String::from_str("rpc response channel closed"),
            BridgeError::Encode => String::from_str("failed to serialize rpc payload"),
            BridgeError::TicketsExhausted => String::from_str(
                "session cannot number another request",
            ),
        }
    }
}

} // verus!
