//! The plain-text summary line of a notification, and the pieces it shares
//! with the chat payload.

use vstd::prelude::*;
use vstd::string::StringExecFns;
use crate::attributes::{kind_of, Attributes, EventKind};
use crate::message::Message;

verus! {

/// The wire name of a known event kind.
pub open spec fn event_name(k: EventKind) -> Seq<char> {
    match k {
        EventKind::SecurityBulletinEvent => "SecurityBulletinEvent"@,
        EventKind::UpgradeAvailableEvent => "UpgradeAvailableEvent"@,
        EventKind::UpgradeEvent => "UpgradeEvent"@,
        EventKind::Unknown => "Unknown event"@,
    }
}

/// An optional attribute's text, or `unknown`.
pub open spec fn or_unknown(o: Option<String>) -> Seq<char> {
    match o {
        Some(s) => s@,
        None => "unknown"@,
    }
}

/// `, project <id>` when the attributes name a project.
pub open spec fn project_note(a: Attributes) -> Seq<char> {
    match a.project_id {
        Some(p) => ", project "@ + p@,
        None => Seq::empty(),
    }
}

/// `, node pool <pool>` when the event concerns one node pool.
pub open spec fn pool_note(a: Attributes) -> Seq<char> {
    match a.node_pool {
        Some(p) => ", node pool "@ + p@,
        None => Seq::empty(),
    }
}

/// A console link for a known event whenever the project is known: the
/// cluster's page when its location and name are known too, else the
/// project's cluster list. Unknown events get none.
pub open spec fn console_link(m: Message) -> Option<Seq<char>> {
    if kind_of(m.attributes.type_url@) == EventKind::Unknown {
        None
    } else {
        match m.project_name {
            Some(p) => match (m.attributes.cluster_location, m.attributes.cluster_name) {
                (Some(l), Some(c)) => Some(
                    "https://console.cloud.google.com/kubernetes/clusters/details/"@ + l@ + "/"@
                        + c@ + "/details?project="@ + p@,
                ),
                _ => Some("https://console.cloud.google.com/kubernetes/list/overview?project="@ + p@),
            },
            None => None,
        }
    }
}

/// `t` stands somewhere in `s`, character for character.
pub open spec fn contains(s: Seq<char>, t: Seq<char>) -> bool {
    exists|i: int| 0 <= i && i + t.len() <= s.len() && #[trigger] s.subrange(i, i + t.len()) == t
}

/// What the summary line says of the event, before the payload.
pub open spec fn summary_head(m: Message) -> Seq<char> {
    let a = m.attributes;
    let k = kind_of(a.type_url@);
    if k == EventKind::Unknown {
        "Unknown event "@ + a.type_url@
    } else {
        event_name(k) + " for cluster "@ + or_unknown(a.cluster_name) + " in "@ + or_unknown(
            a.cluster_location,
        ) + project_note(a) + pool_note(a)
    }
}

/// The summary line: the event, its payload, and the console link if any.
pub open spec fn formatted(m: Message) -> Seq<char> {
    let line = summary_head(m) + ": "@ + m.data@;
    match console_link(m) {
        Some(u) => line + " "@ + u,
        None => line,
    }
}

/// The text of `event_name`.
pub fn event_name_text(k: EventKind) -> (r: &'static str)
    ensures
        r@ == event_name(k),
{
    match k {
        EventKind::SecurityBulletinEvent => "SecurityBulletinEvent",
        EventKind::UpgradeAvailableEvent => "UpgradeAvailableEvent",
        EventKind::UpgradeEvent => "UpgradeEvent",
        EventKind::Unknown => "Unknown event",
    }
}

/// The text of `or_unknown`.
pub fn or_unknown_text(o: &Option<String>) -> (r: &str)
    ensures
        r@ == or_unknown(*o),
{
    match o {
        Some(s) => s.as_str(),
        None => "unknown",
    }
}

/// Appends `, <label> <value>` when `value` is present.
fn append_note(s: &mut String, label: &str, value: &Option<String>)
    ensures
        final(s)@ == match *value {
            Some(v) => old(s)@ + label@ + v@,
            None => old(s)@,
        },
{
    if let Some(v) = value {
        s.append(label);
        s.append(v.as_str());
    }
}

/// The console link of `m`, when one can be built.
pub fn console_link_text(m: &Message) -> (r: Option<String>)
    ensures
        match r {
            Some(u) => console_link(*m) == Some(u@),
            None => console_link(*m) is None,
        },
{
    if let EventKind::Unknown = m.attributes.classify() {
        return None;
    }
    match &m.project_name {
        Some(p) => {
            let mut u = String::new();
            match (&m.attributes.cluster_location, &m.attributes.cluster_name) {
                (Some(l), Some(c)) => {
                    u.append("https://console.cloud.google.com/kubernetes/clusters/details/");
                    u.append(l.as_str());
                    u.append("/");
                    u.append(c.as_str());
                    u.append("/details?project=");
                },
                _ => {
                    u.append("https://console.cloud.google.com/kubernetes/list/overview?project=");
                },
            }
            u.append(p.as_str());
            Some(u)
        },
        None => None,
    }
}

fn summary_head_text(m: &Message) -> (r: String)
    ensures
        r@ == summary_head(*m),
{
    let a = &m.attributes;
    let mut s = String::new();
    match a.classify() {
        EventKind::Unknown => {
            s.append("Unknown event ");
            s.append(a.type_url.as_str());
        },
        k => {
            s.append(event_name_text(k));
            s.append(" for cluster ");
            s.append(or_unknown_text(&a.cluster_name));
            s.append(" in ");
            s.append(or_unknown_text(&a.cluster_location));
            append_note(&mut s, ", project ", &a.project_id);
            append_note(&mut s, ", node pool ", &a.node_pool);
        },
    }
    s
}

impl Message {
    /// The summary line logged for this notification. Total over every event
    /// kind: an unknown kind falls back to its `type_url` and payload.
    pub fn fmt(&self) -> (r: String)
        ensures
            r@ == formatted(*self),
    {
        let mut s = summary_head_text(self);
        s.append(": ");
        s.append(self.data.as_str());
        if let Some(u) = console_link_text(self) {
            s.append(" ");
            s.append(u.as_str());
        }
        s
    }
}

/// The summary line of a known event names the project whenever one is
/// attached, through its console link.
pub proof fn lemma_known_line_links_project(m: Message)
    requires
        m.project_name is Some,
        kind_of(m.attributes.type_url@) != EventKind::Unknown,
    ensures
        contains(formatted(m), m.project_name->0@),
{
    let p = m.project_name->0@;
    let f = formatted(m);
    let i = f.len() - p.len();
    assert(f.subrange(i, i + p.len()) =~= p);
}

/// The summary line of a notification of unknown kind still holds its
/// `type_url` and its payload text verbatim.
pub proof fn lemma_unknown_keeps_type_and_data(m: Message)
    requires
        kind_of(m.attributes.type_url@) == EventKind::Unknown,
    ensures
        contains(formatted(m), m.attributes.type_url@),
        contains(formatted(m), m.data@),
{
    reveal_strlit("Unknown event ");
    reveal_strlit(": ");
    let t = m.attributes.type_url@;
    let line = "Unknown event "@ + t + ": "@ + m.data@;
    let f = formatted(m);
    assert(f.subrange(0, line.len() as int) =~= line);
    let i: int = 14;
    assert(f.subrange(i, i + t.len()) =~= t);
    let j: int = 16 + t.len() as int;
    assert(f.subrange(j, j + m.data@.len()) =~= m.data@);
}

} // verus!
