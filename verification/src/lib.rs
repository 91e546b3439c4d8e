//! Command dispatch and response construction for a chat-command responder.
//!
//! The library receives an inbound message together with a pre-parsed command,
//! resolves the sender to a display name and a numeric identity, applies an
//! authorization policy to the one restricted command, and produces an ordered
//! plan of outbound actions (send a message, leave the conversation) for a
//! transport layer to execute. All free text interpolated into rich-text
//! replies is escaped for the rich-text format's reserved characters.

pub mod escape;
pub mod router;
pub mod sender;
pub mod templates;
