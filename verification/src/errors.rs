//! The closed error taxonomy of the engine.

use vstd::prelude::*;

verus! {

/// Everything that can go wrong in a POP3 session, as a closed enum.
#[derive(Debug)]
pub enum Pop3Error {
    /// Connect, handshake or raw I/O failure, reported by the transport.
    /// Carries the transport's own description.
    Transport(String),
    /// Response bytes were not valid text.
    Decode,
    /// A line failed to match its expected grammar (status line,
    /// stat line, listing header).
    ProtocolParse,
    /// The status line began with `-ERR`; carries the server's text.
    ServerRejected(String),
    /// An operation was invoked outside its required session state.
    InvalidState,
}

impl Pop3Error {
    /// A short human-readable description of the error.
    pub fn describe(&self) -> (r: String)
        ensures
            self matches Pop3Error::Transport(t) ==> r@ == t@,
            self matches Pop3Error::ServerRejected(t) ==> r@ == t@,
    {
        match self {
            Pop3Error::Transport(t) => t.clone(),
            Pop3Error::Decode => String::from_str("response bytes are not valid text"),
            Pop3Error::ProtocolParse => String::from_str("line does not match the protocol grammar"),
            Pop3Error::ServerRejected(t) => t.clone(),
            Pop3Error::InvalidState => String::from_str("operation invoked outside its required state"),
        }
    }
}

} // verus!
