//! A verified client-side engine for the POP3 mailbox-retrieval protocol.
//!
//! The crate contains the session state machine, command framing,
//! response decoding and the result parsers. The raw byte transport
//! (TCP or TLS socket) is supplied by the caller, which hands decoded
//! lines in and writes framed command lines out.

mod connection;
mod digest;
mod errors;
mod pop3result;
mod protocol;
mod state;
mod text;

pub use connection::AuthMode;
pub use connection::LoginAction;
pub use connection::LoginEvent;
pub use connection::LoginPhase;
pub use connection::POP3Connection;
pub use connection::POP3Data;
pub use connection::parse_auth_mode;
pub use connection::spec_apop_line;
pub use connection::spec_pass_line;
pub use connection::spec_user_line;
pub use digest::apop_digest;
pub use digest::lemma_apop_digest_deterministic;
pub use digest::md5_hex;
pub use digest::spec_apop_digest;
pub use errors::Pop3Error;
pub use pop3result::EmailMetadata;
pub use pop3result::POP3List;
pub use pop3result::POP3Stat;
pub use pop3result::spec_header;
pub use pop3result::spec_stat;
pub use protocol::extract_timestamp;
pub use protocol::frame_command;
pub use protocol::has_timestamp;
pub use protocol::interpret_response;
pub use protocol::is_err_status;
pub use protocol::is_ok_status;
pub use protocol::is_terminator_line;
pub use protocol::read_response_step;
pub use protocol::spec_frame;
pub use protocol::spec_is_multiline;
pub use protocol::spec_timestamp;
pub use protocol::status_text;
pub use state::POP3State;
pub use state::SessionEvent;
pub use state::lemma_transitions_strictly_forward;
pub use state::state_rank;
pub use state::transition;
pub use text::digits_val;
pub use text::is_digit;
pub use text::parse_u32;
