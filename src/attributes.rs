//! Classification of a notification by the event name at the end of its
//! `type_url`, and the chat-noise suppression rule.

use vstd::prelude::*;
use crate::text::chars_of;

verus! {

/// The kinds of notification the library knows how to render.
#[derive(Debug, Clone, Copy, PartialEq, Eq, Structural)]
pub enum EventKind {
    SecurityBulletinEvent,
    UpgradeAvailableEvent,
    UpgradeEvent,
    Unknown,
}

/// The attributes a notification carries besides its payload.
#[derive(Debug)]
pub struct Attributes {
    /// Schema of the payload, `type.googleapis.com/<package>.<EventName>`.
    pub type_url: String,
    pub cluster_name: Option<String>,
    pub cluster_location: Option<String>,
    pub project_id: Option<String>,
    /// Present on events that concern a single node pool.
    pub node_pool: Option<String>,
}

/// Position just after the last `.` of `s`, or 0 when `s` holds none.
pub open spec fn segment_start(s: Seq<char>) -> int
    decreases s.len(),
{
    if s.len() == 0 {
        0
    } else if s.last() == '.' {
        s.len() as int
    } else {
        segment_start(s.drop_last())
    }
}

/// The part of `s` after its last `.` (all of `s` when it holds none).
pub open spec fn last_segment(s: Seq<char>) -> Seq<char> {
    s.subrange(segment_start(s), s.len() as int)
}

/// The event kind named by a `type_url`: exact, case-sensitive match of its
/// last segment against the known event names.
pub open spec fn kind_of(type_url: Seq<char>) -> EventKind {
    let name = last_segment(type_url);
    if name == "SecurityBulletinEvent"@ {
        EventKind::SecurityBulletinEvent
    } else if name == "UpgradeAvailableEvent"@ {
        EventKind::UpgradeAvailableEvent
    } else if name == "UpgradeEvent"@ {
        EventKind::UpgradeEvent
    } else {
        EventKind::Unknown
    }
}

/// Whether a notification is kept off the chat channel.
pub open spec fn suppressed(a: Attributes) -> bool {
    kind_of(a.type_url@) == EventKind::UpgradeAvailableEvent && a.node_pool is Some
}

/// Classification reads the `type_url` alone: attributes with the same
/// `type_url` are of the same kind, however often they are classified.
pub proof fn lemma_classify_deterministic(a: Attributes, b: Attributes)
    requires
        a.type_url@ == b.type_url@,
    ensures
        kind_of(a.type_url@) == kind_of(b.type_url@),
{
}

/// Only an upgrade-available event that names a node pool is suppressed;
/// every other combination of kind and node pool is not.
pub proof fn lemma_suppression_rule(a: Attributes)
    ensures
        suppressed(a) ==> kind_of(a.type_url@) == EventKind::UpgradeAvailableEvent,
        suppressed(a) ==> a.node_pool is Some,
        kind_of(a.type_url@) != EventKind::UpgradeAvailableEvent ==> !suppressed(a),
        a.node_pool is None ==> !suppressed(a),
{
}

/// Index in `v` where the part after the last `.` begins.
fn find_segment_start(v: &Vec<char>) -> (r: usize)
    ensures
        r as int == segment_start(v@),
        r <= v@.len(),
{
    let mut i: usize = v.len();
    assert(v@.subrange(0, i as int) =~= v@);
    while i > 0 && v[i - 1] != '.'
        invariant
            i <= v@.len(),
            segment_start(v@) == segment_start(v@.subrange(0, i as int)),
        decreases i,
    {
        assert(v@.subrange(0, i as int).drop_last() =~= v@.subrange(0, i as int - 1));
        i = i - 1;
    }
    i
}

/// Whether `v` from `start` on equals `name`.
fn tail_is(v: &Vec<char>, start: usize, name: &Vec<char>) -> (r: bool)
    requires
        start <= v@.len(),
    ensures
        r == (v@.subrange(start as int, v@.len() as int) == name@),
{
    let n: usize = v.len() - start;
    if n != name.len() {
        return false;
    }
    let mut i: usize = 0;
    while i < n
        invariant
            n as int + start as int == v@.len(),
            v@.len() == v.len(),
            n == name@.len(),
            0 <= i <= n,
            forall|j: int| 0 <= j < i ==> v@[start + j] == name@[j],
        decreases n - i,
    {
        if v[start + i] != name[i] {
            return false;
        }
        i = i + 1;
    }
    assert(v@.subrange(start as int, v@.len() as int) =~= name@);
    true
}

impl Attributes {
    /// The event kind that `type_url` names.
    pub fn classify(&self) -> (r: EventKind)
        ensures
            r == kind_of(self.type_url@),
    {
        let v = chars_of(self.type_url.as_str());
        let start = find_segment_start(&v);
        if tail_is(&v, start, &chars_of("SecurityBulletinEvent")) {
            EventKind::SecurityBulletinEvent
        } else if tail_is(&v, start, &chars_of("UpgradeAvailableEvent")) {
            EventKind::UpgradeAvailableEvent
        } else if tail_is(&v, start, &chars_of("UpgradeEvent")) {
            EventKind::UpgradeEvent
        } else {
            EventKind::Unknown
        }
    }

    /// Whether this is an upgrade-available event for a single node pool.
    /// Such events arrive once per node pool and are never sent to chat.
    pub fn is_node_pool_upgrade_available_event(&self) -> (r: bool)
        ensures
            r == suppressed(*self),
    {
        match self.classify() {
            EventKind::UpgradeAvailableEvent => self.node_pool.is_some(),
            _ => false,
        }
    }
}

} // verus!
