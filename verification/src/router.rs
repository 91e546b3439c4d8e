//! Routing a command to an ordered plan of outbound actions.
//!
//! The router is a pure mapping from a command and a resolved sender to the
//! list of actions the transport must perform, in order. The one restricted
//! command, the farewell, passes an authorization test: only the allowlisted
//! identity may make the responder leave the conversation, unless the policy
//! switches that test off altogether.

use vstd::prelude::*;

use crate::sender::InboundMessage;
use crate::sender::SenderInfo;
use crate::sender::resolve;
use crate::sender::resolved_identity;
use crate::sender::resolved_name;
use crate::templates::TemplateSet;
use crate::templates::render;
use crate::templates::rendered_spec;

verus! {

/// The closed set of commands the responder understands. Parsing raw text
/// into one of these happens outside the core.
#[derive(Clone, Copy, PartialEq, Eq, Structural, Debug)]
pub enum Command {
    /// Ask for the list of supported commands.
    Help,
    /// The responder's main command: announce the sign-up resource.
    PrimaryAction,
    /// The restricted command: say farewell and leave the conversation.
    FarewellAction,
}

/// How a message's text is to be interpreted by the platform.
#[derive(Clone, Copy, PartialEq, Eq, Structural, Debug)]
pub enum TextFormat {
    PlainText,
    RichText,
}

/// One externally visible action. A plan's actions must be dispatched in
/// order, and a failed dispatch aborts the rest of the plan: leaving a
/// conversation can make further sends to it impossible.
#[derive(PartialEq, Eq, Debug)]
pub enum OutboundAction {
    SendMessage {
        chat_id: i64,
        text: String,
        format: TextFormat,
        disable_link_preview: bool,
    },
    LeaveConversation {
        chat_id: i64,
    },
}

/// The static authorization policy: the one identity allowed to use the
/// restricted command, and whether that rule is applied at all. A deployment
/// that clears `require_authorization` lets every sender use it.
#[derive(Clone, Copy, PartialEq, Eq, Structural, Debug)]
pub struct AuthorizationPolicy {
    pub allowlisted_id: i64,
    pub require_authorization: bool,
}

/// Whether a sender with this identity may use the restricted command: either
/// the policy does not require authorization, or the identity is present and
/// allowlisted. An absent identity is never allowlisted.
pub open spec fn authorized(policy: AuthorizationPolicy, identity: Option<i64>) -> bool {
    !policy.require_authorization || identity == Some(policy.allowlisted_id)
}

/// What the action plan for a command must look like, given the sender's
/// display name and identity, the conversation, the policy and the
/// templates:
/// - `Help`: exactly one plain-text message holding the full help text, for
///   every sender.
/// - `PrimaryAction`: exactly one rich-text message, the primary template
///   rendered for the name, link preview disabled.
/// - `FarewellAction`, authorized: exactly two actions, the rendered
///   farewell message first and leaving the conversation second.
/// - `FarewellAction`, not authorized: exactly one rich-text message, the
///   refusal template rendered for the name, link preview disabled, and no
///   leave action.
pub open spec fn plan_matches(
    plan: Seq<OutboundAction>,
    command: Command,
    name: Seq<char>,
    identity: Option<i64>,
    chat_id: i64,
    policy: AuthorizationPolicy,
    templates: TemplateSet,
) -> bool {
    match command {
        Command::Help => plan.len() == 1 && (plan[0] matches OutboundAction::SendMessage {
            chat_id: c,
            text,
            format,
            disable_link_preview,
        } && c == chat_id && text@ == templates.help_text@ && format == TextFormat::PlainText
            && !disable_link_preview),
        Command::PrimaryAction => plan.len() == 1 && (plan[0]
            matches OutboundAction::SendMessage {
            chat_id: c,
            text,
            format,
            disable_link_preview,
        } && c == chat_id && text@ == rendered_spec(templates.primary, name)
            && format == TextFormat::RichText && disable_link_preview),
        Command::FarewellAction => if authorized(policy, identity) {
            plan.len() == 2 && (plan[0] matches OutboundAction::SendMessage {
                chat_id: c,
                text,
                format,
                disable_link_preview,
            } && c == chat_id && text@ == rendered_spec(templates.farewell, name)
                && format == TextFormat::RichText && !disable_link_preview) && (plan[1]
                matches OutboundAction::LeaveConversation { chat_id: c } && c == chat_id)
        } else {
            plan.len() == 1 && (plan[0] matches OutboundAction::SendMessage {
                chat_id: c,
                text,
                format,
                disable_link_preview,
            } && c == chat_id && text@ == rendered_spec(templates.unauthorized, name)
                && format == TextFormat::RichText && disable_link_preview)
        },
    }
}

/// Whether this sender may use the restricted command under this policy.
pub fn is_authorized(policy: &AuthorizationPolicy, identity: &Option<i64>) -> (b: bool)
    ensures
        b == authorized(*policy, *identity),
{
    if !policy.require_authorization {
        return true;
    }
    match identity {
        Some(id) => *id == policy.allowlisted_id,
        None => false,
    }
}

/// Map a command and a resolved sender to the ordered action plan for one
/// conversation. Total over the command set; pure; the plan is exactly the
/// one `plan_matches` describes.
pub fn route(
    command: Command,
    sender: &SenderInfo,
    chat_id: i64,
    policy: &AuthorizationPolicy,
    templates: &TemplateSet,
) -> (plan: Vec<OutboundAction>)
    ensures
        plan_matches(
            plan@,
            command,
            sender.display_name@,
            sender.identity,
            chat_id,
            *policy,
            *templates,
        ),
{
    let mut plan: Vec<OutboundAction> = Vec::new();
    match command {
        Command::Help => {
            plan.push(
                OutboundAction::SendMessage {
                    chat_id,
                    text: templates.help_text.clone(),
                    format: TextFormat::PlainText,
                    disable_link_preview: false,
                },
            );
        },
        Command::PrimaryAction => {
            let text = render(&templates.primary, sender.display_name.as_str());
            plan.push(
                OutboundAction::SendMessage {
                    chat_id,
                    text,
                    format: TextFormat::RichText,
                    disable_link_preview: true,
                },
            );
        },
        Command::FarewellAction => {
            if is_authorized(policy, &sender.identity) {
                let text = render(&templates.farewell, sender.display_name.as_str());
                plan.push(
                    OutboundAction::SendMessage {
                        chat_id,
                        text,
                        format: TextFormat::RichText,
                        disable_link_preview: false,
                    },
                );
                plan.push(OutboundAction::LeaveConversation { chat_id });
            } else {
                let text = render(&templates.unauthorized, sender.display_name.as_str());
                plan.push(
                    OutboundAction::SendMessage {
                        chat_id,
                        text,
                        format: TextFormat::RichText,
                        disable_link_preview: true,
                    },
                );
            }
        },
    }
    plan
}

/// Resolve a message's sender and route the command in one step: the whole
/// decision logic for one inbound message. The plan is the one
/// `plan_matches` describes for the resolved name and identity.
pub fn respond(
    message: &InboundMessage,
    command: Command,
    policy: &AuthorizationPolicy,
    templates: &TemplateSet,
) -> (plan: Vec<OutboundAction>)
    ensures
        plan_matches(
            plan@,
            command,
            resolved_name(*message),
            resolved_identity(*message),
            message.chat_id,
            *policy,
            *templates,
        ),
{
    let info = resolve(message);
    route(command, &info, message.chat_id, policy, templates)
}

} // verus!
