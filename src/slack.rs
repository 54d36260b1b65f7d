//! The chat-webhook payload of a notification: a fallback text and a few
//! layout blocks, built from the same classification as the summary line.

use vstd::prelude::*;
use vstd::string::StringExecFns;
use crate::attributes::{kind_of, EventKind};
use crate::message::Message;
use crate::render::{
    console_link, console_link_text, event_name, event_name_text, formatted, or_unknown,
    or_unknown_text, pool_note, project_note,
};

verus! {

/// How a block is laid out in the chat client.
#[derive(Debug, Clone, Copy, PartialEq, Eq, Structural)]
pub enum BlockStyle {
    Header,
    Section,
    Context,
}

/// One block of a chat message.
#[derive(Debug)]
pub struct WebhookBlock {
    pub style: BlockStyle,
    pub text: String,
}

/// A chat-webhook message: `text` is shown in notifications, `blocks` in
/// the channel.
#[derive(Debug)]
pub struct WebhookMessage {
    pub text: String,
    pub blocks: Vec<WebhookBlock>,
}

pub open spec fn block_view(b: WebhookBlock) -> (BlockStyle, Seq<char>) {
    (b.style, b.text@)
}

impl View for WebhookMessage {
    type V = (Seq<char>, Seq<(BlockStyle, Seq<char>)>);

    open spec fn view(&self) -> Self::V {
        (self.text@, self.blocks@.map_values(|b: WebhookBlock| block_view(b)))
    }
}

/// The cluster, location, project and node pool of a known event; the
/// `type_url` of an unknown one.
pub open spec fn details(m: Message) -> Seq<char> {
    let a = m.attributes;
    if kind_of(a.type_url@) == EventKind::Unknown {
        "Type: "@ + a.type_url@
    } else {
        "Cluster: "@ + or_unknown(a.cluster_name) + "\nLocation: "@ + or_unknown(a.cluster_location)
            + project_note(a) + pool_note(a)
    }
}

/// The payload text as a code block.
pub open spec fn payload_block(m: Message) -> Seq<char> {
    "```"@ + m.data@ + "```"@
}

/// A link to the console page.
pub open spec fn link_block(u: Seq<char>) -> Seq<char> {
    "<"@ + u + "|Open in console>"@
}

/// The blocks of a message: heading, details and payload, then the console
/// link when there is one.
pub open spec fn blocks_of(m: Message) -> Seq<(BlockStyle, Seq<char>)> {
    let base = seq![
        (BlockStyle::Header, event_name(kind_of(m.attributes.type_url@))),
        (BlockStyle::Section, details(m)),
        (BlockStyle::Section, payload_block(m)),
    ];
    match console_link(m) {
        Some(u) => base.push((BlockStyle::Context, link_block(u))),
        None => base,
    }
}

/// The whole chat payload of `m`; its text is the summary line.
pub open spec fn webhook_of(m: Message) -> (Seq<char>, Seq<(BlockStyle, Seq<char>)>) {
    (formatted(m), blocks_of(m))
}

fn details_text(m: &Message) -> (r: String)
    ensures
        r@ == details(*m),
{
    let a = &m.attributes;
    let mut s = String::new();
    match a.classify() {
        EventKind::Unknown => {
            s.append("Type: ");
            s.append(a.type_url.as_str());
        },
        _ => {
            s.append("Cluster: ");
            s.append(or_unknown_text(&a.cluster_name));
            s.append("\nLocation: ");
            s.append(or_unknown_text(&a.cluster_location));
            if let Some(p) = &a.project_id {
                s.append(", project ");
                s.append(p.as_str());
            }
            if let Some(p) = &a.node_pool {
                s.append(", node pool ");
                s.append(p.as_str());
            }
        },
    }
    s
}

impl Message {
    /// The chat-webhook payload for this notification. Total over every
    /// event kind.
    pub fn to_webhook_payload(&self) -> (r: WebhookMessage)
        ensures
            r@ == webhook_of(*self),
    {
        let mut heading = String::new();
        heading.append(event_name_text(self.attributes.classify()));
        let mut payload = String::new();
        payload.append("```");
        payload.append(self.data.as_str());
        payload.append("```");
        let mut blocks: Vec<WebhookBlock> = Vec::new();
        blocks.push(WebhookBlock { style: BlockStyle::Header, text: heading });
        blocks.push(WebhookBlock { style: BlockStyle::Section, text: details_text(self) });
        blocks.push(WebhookBlock { style: BlockStyle::Section, text: payload });
        if let Some(u) = console_link_text(self) {
            let mut link = String::new();
            link.append("<");
            link.append(u.as_str());
            link.append("|Open in console>");
            blocks.push(WebhookBlock { style: BlockStyle::Context, text: link });
        }
        let r = WebhookMessage { text: self.fmt(), blocks };
        assert(r@.1 =~= blocks_of(*self));
        r
    }
}

} // verus!
