//! What is done with one delivered envelope: decode, enrich, render, and
//! decide whether a chat message goes out.

use vstd::prelude::*;
use crate::attributes::{kind_of, suppressed, EventKind};
use crate::message::{payload_text, DecodeError, EncodedEnvelope, Message, PubSubMessage};
use crate::render::formatted;
use crate::slack::{webhook_of, WebhookMessage};

verus! {

/// The result of handling one envelope.
#[derive(Debug)]
pub struct Handled {
    pub subscription: String,
    /// The decoded notification, enriched with the project when known.
    pub message: Message,
    /// The summary line, always produced.
    pub formatted: String,
    /// The chat payload, when a webhook is configured and the event is not
    /// suppressed.
    pub webhook: Option<WebhookMessage>,
}

/// `h` is what handling `e` gives, the payload being valid.
pub open spec fn handled_as(
    e: EncodedEnvelope,
    project: Option<String>,
    webhook_configured: bool,
    h: Handled,
) -> bool {
    &&& payload_text(e.message.data@) == Some(h.message.data@)
    &&& h.subscription == e.subscription
    &&& h.message.attributes == e.message.attributes
    &&& h.message.message_id == e.message.message_id
    &&& h.message.publish_time == e.message.publish_time
    &&& h.message.project_name == project
    &&& h.formatted@ == formatted(h.message)
    &&& match h.webhook {
        Some(w) => webhook_configured && !suppressed(h.message.attributes) && w@ == webhook_of(
            h.message,
        ),
        None => !webhook_configured || suppressed(h.message.attributes),
    }
}

/// Handles one envelope. `parsed` is the envelope read from the request body
/// (`None` where the JSON could not be read), `project` the project to link
/// to, if known, and `webhook_configured` whether a chat webhook is set up.
pub fn handle(parsed: Option<EncodedEnvelope>, project: Option<String>, webhook_configured: bool) -> (r:
    Result<Handled, DecodeError>)
    ensures
        match parsed {
            None => r == Err::<Handled, DecodeError>(DecodeError::EnvelopeDecodeError),
            Some(e) => match r {
                Ok(h) => handled_as(e, project, webhook_configured, h),
                Err(err) => payload_text(e.message.data@) is None && err
                    == DecodeError::PayloadEncodingError,
            },
        },
{
    let psm = match PubSubMessage::decode(parsed) {
        Ok(m) => m,
        Err(err) => return Err(err),
    };
    let PubSubMessage { message, subscription } = psm;
    let message = match project {
        Some(p) => message.with_project_name(p),
        None => message,
    };
    let formatted = message.fmt();
    let webhook = if webhook_configured && !message.attributes.is_node_pool_upgrade_available_event() {
        Some(message.to_webhook_payload())
    } else {
        None
    };
    Ok(Handled { subscription, message, formatted, webhook })
}

/// An upgrade-available event for a node pool never yields a chat message,
/// even with a webhook configured; its summary line is still produced.
pub proof fn lemma_node_pool_upgrade_available_not_sent(
    e: EncodedEnvelope,
    project: Option<String>,
    h: Handled,
)
    requires
        handled_as(e, project, true, h),
        kind_of(e.message.attributes.type_url@) == EventKind::UpgradeAvailableEvent,
        e.message.attributes.node_pool is Some,
    ensures
        h.webhook is None,
        h.formatted@ == formatted(h.message),
{
}

/// Every other event yields a chat message when a webhook is configured.
pub proof fn lemma_other_events_sent(e: EncodedEnvelope, project: Option<String>, h: Handled)
    requires
        handled_as(e, project, true, h),
        !(kind_of(e.message.attributes.type_url@) == EventKind::UpgradeAvailableEvent
            && e.message.attributes.node_pool is Some),
    ensures
        h.webhook is Some,
{
}

} // verus!
