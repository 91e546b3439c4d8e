//! Resolving the sender of an inbound message to a display name and a stable
//! numeric identity.
//!
//! Some message kinds carry no sender record at all; resolution is total and
//! falls back to an anonymous label and an absent identity in that case.

use vstd::prelude::*;

verus! {

/// The platform-supplied identity data attached to an inbound message.
pub struct SenderRecord {
    pub first_name: String,
    pub last_name: Option<String>,
    pub identity: i64,
}

/// An inbound message: the conversation it belongs to and, when the platform
/// supplies one, its sender record. The command itself is parsed externally
/// and handed to the router as a typed value.
pub struct InboundMessage {
    pub chat_id: i64,
    pub sender: Option<SenderRecord>,
}

/// The resolved sender: what replies should call them, and the identity the
/// authorization policy judges. Both fall back when no sender record exists.
pub struct SenderInfo {
    pub display_name: String,
    pub identity: Option<i64>,
}

/// The display name a sender record resolves to: first and last name joined
/// by a space when a non-empty last name is present, the first name alone
/// otherwise.
pub open spec fn display_name_spec(rec: SenderRecord) -> Seq<char> {
    match rec.last_name {
        Some(last) => if last@.len() > 0 {
            rec.first_name@ + " "@ + last@
        } else {
            rec.first_name@
        },
        None => rec.first_name@,
    }
}

/// The display name an inbound message resolves to; `"someone"` when the
/// message carries no sender record.
pub open spec fn resolved_name(msg: InboundMessage) -> Seq<char> {
    match msg.sender {
        Some(rec) => display_name_spec(rec),
        None => "someone"@,
    }
}

/// The identity an inbound message resolves to; absent when the message
/// carries no sender record.
pub open spec fn resolved_identity(msg: InboundMessage) -> Option<i64> {
    match msg.sender {
        Some(rec) => Some(rec.identity),
        None => None,
    }
}

/// Resolve a message's sender. Total over all inputs: a message without a
/// sender record yields the anonymous label `"someone"` and no identity.
pub fn resolve(message: &InboundMessage) -> (info: SenderInfo)
    ensures
        info.display_name@ == resolved_name(*message),
        info.identity == resolved_identity(*message),
{
    match &message.sender {
        None => SenderInfo { display_name: String::from_str("someone"), identity: None },
        Some(rec) => {
            let mut name = rec.first_name.clone();
            match &rec.last_name {
                Some(last) => {
                    if !last.as_str().is_empty() {
                        name.append(" ");
                        name.append(last.as_str());
                    }
                },
                None => {},
            }
            SenderInfo { display_name: name, identity: Some(rec.identity) }
        },
    }
}

} // verus!
