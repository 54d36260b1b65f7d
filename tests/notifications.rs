use gke_notifier::attributes::{Attributes, EventKind};
use gke_notifier::handler::handle;
use gke_notifier::message::{DecodeError, EncodedEnvelope, EncodedMessage, PubSubMessage};
use gke_notifier::slack::BlockStyle;

const PREFIX: &str = "type.googleapis.com/google.container.v1beta1.";
const MASTER_B64: &str = "eyJyZXNvdXJjZVR5cGUiOiJNQVNURVIifQ==";
const MASTER_JSON: &str = "{\"resourceType\":\"MASTER\"}";

fn attrs(type_url: &str, node_pool: Option<&str>) -> Attributes {
    Attributes {
        type_url: type_url.to_string(),
        cluster_name: Some("prod".to_string()),
        cluster_location: Some("europe-west1".to_string()),
        project_id: Some("1234".to_string()),
        node_pool: node_pool.map(|p| p.to_string()),
    }
}

fn bare_attrs(type_url: &str) -> Attributes {
    Attributes {
        type_url: type_url.to_string(),
        cluster_name: None,
        cluster_location: None,
        project_id: None,
        node_pool: None,
    }
}

fn envelope(a: Attributes, data: &str) -> EncodedEnvelope {
    EncodedEnvelope {
        message: EncodedMessage {
            attributes: a,
            message_id: "42".to_string(),
            publish_time: "2023-01-01T00:00:00Z".to_string(),
            data: data.to_string(),
        },
        subscription: "projects/p/subscriptions/s".to_string(),
    }
}

fn event(name: &str) -> String {
    format!("{PREFIX}{name}")
}

#[test]
fn decode_valid_payload() {
    let e = envelope(attrs(&event("UpgradeEvent"), None), MASTER_B64);
    let m = PubSubMessage::decode(Some(e)).unwrap();
    assert_eq!(m.message.data, MASTER_JSON);
    assert_eq!(m.message.message_id, "42");
    assert_eq!(m.message.publish_time, "2023-01-01T00:00:00Z");
    assert_eq!(m.subscription, "projects/p/subscriptions/s");
    assert_eq!(m.message.attributes.type_url, event("UpgradeEvent"));
    assert!(m.message.project_name.is_none());
}

#[test]
fn decode_empty_payload() {
    let m = PubSubMessage::decode(Some(envelope(bare_attrs("x"), ""))).unwrap();
    assert_eq!(m.message.data, "");
}

#[test]
fn decode_unreadable_json() {
    assert_eq!(PubSubMessage::decode(None).unwrap_err(), DecodeError::EnvelopeDecodeError);
}

#[test]
fn decode_bad_base64() {
    let r = PubSubMessage::decode(Some(envelope(bare_attrs("x"), "not base64!!")));
    assert_eq!(r.unwrap_err(), DecodeError::PayloadEncodingError);
    let r = PubSubMessage::decode(Some(envelope(bare_attrs("x"), "aGVsbG8")));
    assert_eq!(r.unwrap_err(), DecodeError::PayloadEncodingError);
}

#[test]
fn decode_bad_utf8() {
    let r = PubSubMessage::decode(Some(envelope(bare_attrs("x"), "//4=")));
    assert_eq!(r.unwrap_err(), DecodeError::PayloadEncodingError);
}

#[test]
fn encode_then_decode_round_trip() {
    let original = PubSubMessage::decode(Some(envelope(attrs(&event("UpgradeEvent"), Some("pool")), "aGVsbG8="))).unwrap();
    let e = original.encode();
    assert_eq!(e.message.data, "aGVsbG8=");
    let back = PubSubMessage::decode(Some(e)).unwrap();
    assert_eq!(back.message.data, "hello");
    assert_eq!(back.message.message_id, "42");
    assert_eq!(back.message.attributes.node_pool.as_deref(), Some("pool"));
}

#[test]
fn classify_known_kinds() {
    assert_eq!(attrs(&event("SecurityBulletinEvent"), None).classify(), EventKind::SecurityBulletinEvent);
    assert_eq!(attrs(&event("UpgradeAvailableEvent"), None).classify(), EventKind::UpgradeAvailableEvent);
    assert_eq!(attrs(&event("UpgradeEvent"), None).classify(), EventKind::UpgradeEvent);
    assert_eq!(bare_attrs("UpgradeEvent").classify(), EventKind::UpgradeEvent);
}

#[test]
fn classify_unknown_kinds() {
    assert_eq!(bare_attrs(&event("ClusterDeletedEvent")).classify(), EventKind::Unknown);
    assert_eq!(bare_attrs(&event("upgradeevent")).classify(), EventKind::Unknown);
    assert_eq!(bare_attrs(&event("MyUpgradeEvent")).classify(), EventKind::Unknown);
    assert_eq!(bare_attrs(&event("UpgradeEvent.")).classify(), EventKind::Unknown);
    assert_eq!(bare_attrs("").classify(), EventKind::Unknown);
}

#[test]
fn classify_twice_same_kind() {
    let a = attrs(&event("UpgradeAvailableEvent"), Some("pool"));
    assert_eq!(a.classify(), a.classify());
}

#[test]
fn suppression_rule() {
    assert!(attrs(&event("UpgradeAvailableEvent"), Some("pool")).is_node_pool_upgrade_available_event());
    assert!(!attrs(&event("UpgradeAvailableEvent"), None).is_node_pool_upgrade_available_event());
    assert!(!attrs(&event("UpgradeEvent"), Some("pool")).is_node_pool_upgrade_available_event());
    assert!(!attrs(&event("SecurityBulletinEvent"), Some("pool")).is_node_pool_upgrade_available_event());
    assert!(!attrs(&event("Other"), Some("pool")).is_node_pool_upgrade_available_event());
}

#[test]
fn format_known_event() {
    let m = PubSubMessage::decode(Some(envelope(attrs(&event("UpgradeEvent"), Some("pool-a")), MASTER_B64))).unwrap();
    assert_eq!(
        m.message.fmt(),
        "UpgradeEvent for cluster prod in europe-west1, project 1234, node pool pool-a: {\"resourceType\":\"MASTER\"}"
    );
}

#[test]
fn format_without_attributes() {
    let m = PubSubMessage::decode(Some(envelope(bare_attrs(&event("SecurityBulletinEvent")), "aGVsbG8="))).unwrap();
    assert_eq!(m.message.fmt(), "SecurityBulletinEvent for cluster unknown in unknown: hello");
}

#[test]
fn format_with_console_link() {
    let m = PubSubMessage::decode(Some(envelope(attrs(&event("UpgradeAvailableEvent"), None), "aGVsbG8="))).unwrap();
    let m = m.message.with_project_name("my-project".to_string());
    assert_eq!(
        m.fmt(),
        "UpgradeAvailableEvent for cluster prod in europe-west1, project 1234: hello https://console.cloud.google.com/kubernetes/clusters/details/europe-west1/prod/details?project=my-project"
    );
}

#[test]
fn format_unknown_event() {
    let url = event("ClusterDeletedEvent");
    let m = PubSubMessage::decode(Some(envelope(attrs(&url, None), "aGVsbG8="))).unwrap();
    let line = m.message.fmt();
    assert_eq!(line, format!("Unknown event {url}: hello"));
    assert!(line.contains(&url));
    assert!(line.contains("hello"));
}

#[test]
fn enrichment_only_adds_project() {
    let m = PubSubMessage::decode(Some(envelope(attrs(&event("UpgradeEvent"), None), MASTER_B64))).unwrap();
    let e = m.message.with_project_name("p1".to_string());
    assert_eq!(e.project_name.as_deref(), Some("p1"));
    assert_eq!(e.data, MASTER_JSON);
    assert_eq!(e.message_id, "42");
    assert_eq!(e.publish_time, "2023-01-01T00:00:00Z");
    assert_eq!(e.attributes.type_url, event("UpgradeEvent"));
    assert_eq!(e.attributes.cluster_name.as_deref(), Some("prod"));
}

#[test]
fn webhook_payload_blocks() {
    let m = PubSubMessage::decode(Some(envelope(attrs(&event("UpgradeEvent"), None), MASTER_B64))).unwrap();
    let m = m.message.with_project_name("my-project".to_string());
    let w = m.to_webhook_payload();
    assert_eq!(w.text, m.fmt());
    assert_eq!(w.blocks.len(), 4);
    assert_eq!(w.blocks[0].style, BlockStyle::Header);
    assert_eq!(w.blocks[0].text, "UpgradeEvent");
    assert_eq!(w.blocks[1].style, BlockStyle::Section);
    assert_eq!(w.blocks[1].text, "Cluster: prod\nLocation: europe-west1, project 1234");
    assert_eq!(w.blocks[2].text, format!("```{MASTER_JSON}```"));
    assert_eq!(w.blocks[3].style, BlockStyle::Context);
    assert_eq!(
        w.blocks[3].text,
        "<https://console.cloud.google.com/kubernetes/clusters/details/europe-west1/prod/details?project=my-project|Open in console>"
    );
}

#[test]
fn webhook_payload_unknown_event() {
    let url = event("Mystery");
    let m = PubSubMessage::decode(Some(envelope(bare_attrs(&url), "aGVsbG8="))).unwrap();
    let w = m.message.to_webhook_payload();
    assert_eq!(w.blocks.len(), 3);
    assert_eq!(w.blocks[0].text, "Unknown event");
    assert_eq!(w.blocks[1].text, format!("Type: {url}"));
    assert_eq!(w.blocks[2].text, "```hello```");
}

#[test]
fn upgrade_event_master_scenario() {
    let e = envelope(attrs(&event("UpgradeEvent"), None), MASTER_B64);
    assert_eq!(e.message.attributes.classify(), EventKind::UpgradeEvent);
    assert!(!e.message.attributes.is_node_pool_upgrade_available_event());
    let h = handle(Some(e), None, true).unwrap();
    assert!(h.formatted.contains("UpgradeEvent"));
    assert!(h.formatted.contains("MASTER"));
    assert!(h.webhook.is_some());
}

#[test]
fn unknown_type_url_scenario() {
    let url = event("NotAnEvent");
    let e = envelope(bare_attrs(&url), "aGVsbG8=");
    assert_eq!(e.message.attributes.classify(), EventKind::Unknown);
    let h = handle(Some(e), None, false).unwrap();
    assert!(!h.formatted.is_empty());
    assert!(h.formatted.contains(&url));
    assert!(h.webhook.is_none());
}

#[test]
fn node_pool_upgrade_available_suppressed_scenario() {
    let e = envelope(attrs(&event("UpgradeAvailableEvent"), Some("pool-a")), "aGVsbG8=");
    let h = handle(Some(e), Some("my-project".to_string()), true).unwrap();
    assert!(h.webhook.is_none());
    assert!(h.formatted.starts_with("UpgradeAvailableEvent for cluster prod"));
    assert_eq!(h.message.project_name.as_deref(), Some("my-project"));
}

#[test]
fn handle_errors() {
    assert_eq!(handle(None, None, true).unwrap_err(), DecodeError::EnvelopeDecodeError);
    let e = envelope(bare_attrs("x"), "%%%");
    assert_eq!(handle(Some(e), None, true).unwrap_err(), DecodeError::PayloadEncodingError);
}

#[test]
fn format_links_project_without_cluster_attributes() {
    let m = PubSubMessage::decode(Some(envelope(bare_attrs(&event("SecurityBulletinEvent")), "aGVsbG8="))).unwrap();
    let m = m.message.with_project_name("proj".to_string());
    assert_eq!(
        m.fmt(),
        "SecurityBulletinEvent for cluster unknown in unknown: hello https://console.cloud.google.com/kubernetes/list/overview?project=proj"
    );
    let w = m.to_webhook_payload();
    assert_eq!(w.blocks.len(), 4);
    assert_eq!(
        w.blocks[3].text,
        "<https://console.cloud.google.com/kubernetes/list/overview?project=proj|Open in console>"
    );
}

#[test]
fn unknown_event_gets_no_link() {
    let url = event("Mystery");
    let m = PubSubMessage::decode(Some(envelope(attrs(&url, None), "aGVsbG8="))).unwrap();
    let m = m.message.with_project_name("proj".to_string());
    assert_eq!(m.fmt(), format!("Unknown event {url}: hello"));
    assert_eq!(m.to_webhook_payload().blocks.len(), 3);
}

#[test]
fn payload_bytes_valid_utf8() {
    let r = PubSubMessage::from_payload_bytes(
        bare_attrs("x"),
        "1".to_string(),
        "t".to_string(),
        vec![0x68, 0xc3, 0xa9],
        "s".to_string(),
    );
    let m = r.unwrap();
    assert_eq!(m.message.data, "h\u{e9}");
    assert_eq!(m.message.message_id, "1");
    assert_eq!(m.subscription, "s");
}

#[test]
fn payload_bytes_invalid_utf8() {
    let r = PubSubMessage::from_payload_bytes(
        bare_attrs("x"),
        "1".to_string(),
        "t".to_string(),
        vec![0x68, 0xc3],
        "s".to_string(),
    );
    assert_eq!(r.unwrap_err(), DecodeError::PayloadEncodingError);
}
