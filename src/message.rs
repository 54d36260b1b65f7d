//! The pub/sub push envelope, and decoding of its base64 payload.

use base64::Engine;
use vstd::prelude::*;
use vstd::utf8::{decode_utf8, encode_utf8, valid_utf8};
use crate::attributes::Attributes;

verus! {

/// What the standard padded base64 decoder makes of `text`: the bytes, or
/// `None` where the alphabet or the padding is wrong.
pub uninterp spec fn base64_decoded(text: Seq<char>) -> Option<Seq<u8>>;

/// Relies on base64's `STANDARD` engine `decode`: its outcome depends on the
/// text alone.
#[verifier::external_body]
fn base64_decode(text: &str) -> (r: Option<Vec<u8>>)
    ensures
        match r {
            Some(b) => base64_decoded(text@) == Some(b@),
            None => base64_decoded(text@) is None,
        },
{
    base64::engine::general_purpose::STANDARD.decode(text).ok()
}

/// Relies on base64's `STANDARD` engine `encode`, whose output the same
/// engine decodes back to the input. It panics only where the encoded length
/// overflows `usize`.
#[verifier::external_body]
fn base64_encode(bytes: &[u8]) -> (r: String)
    requires
        bytes@.len() <= usize::MAX / 2,
    ensures
        base64_decoded(r@) == Some(bytes@),
{
    base64::engine::general_purpose::STANDARD.encode(bytes)
}

/// Relies on `String::from_utf8`: it succeeds exactly on valid UTF-8, and the
/// string holds the characters the bytes encode.
#[verifier::external_body]
fn utf8_text(bytes: Vec<u8>) -> (r: Option<String>)
    ensures
        match r {
            Some(s) => valid_utf8(bytes@) && s@ == decode_utf8(bytes@),
            None => !valid_utf8(bytes@),
        },
{
    String::from_utf8(bytes).ok()
}

/// Why an inbound envelope was rejected.
#[derive(Debug, Clone, Copy, PartialEq, Eq, Structural)]
pub enum DecodeError {
    /// The body is not JSON of the envelope's shape.
    EnvelopeDecodeError,
    /// The `data` field is not base64, or does not decode to UTF-8.
    PayloadEncodingError,
}

/// A notification as it stands in the envelope, its `data` still base64.
#[derive(Debug)]
pub struct EncodedMessage {
    pub attributes: Attributes,
    pub message_id: String,
    pub publish_time: String,
    pub data: String,
}

/// The envelope as the push subscription delivers it.
#[derive(Debug)]
pub struct EncodedEnvelope {
    pub message: EncodedMessage,
    pub subscription: String,
}

/// A decoded notification.
#[derive(Debug)]
pub struct Message {
    pub attributes: Attributes,
    pub message_id: String,
    pub publish_time: String,
    /// The payload as text (itself JSON specific to the event kind).
    pub data: String,
    /// The project the cluster belongs to, when known; used for console links.
    pub project_name: Option<String>,
}

/// A decoded envelope.
#[derive(Debug)]
pub struct PubSubMessage {
    pub message: Message,
    pub subscription: String,
}

/// The text that an encoded `data` field carries, if it is valid base64 of
/// valid UTF-8.
pub open spec fn payload_text(encoded: Seq<char>) -> Option<Seq<char>> {
    match base64_decoded(encoded) {
        Some(bytes) => if valid_utf8(bytes) {
            Some(decode_utf8(bytes))
        } else {
            None
        },
        None => None,
    }
}

/// `m` is `e` with its payload decoded, and not yet enriched.
pub open spec fn decoded_as(e: EncodedEnvelope, m: PubSubMessage) -> bool {
    &&& payload_text(e.message.data@) == Some(m.message.data@)
    &&& m.subscription == e.subscription
    &&& m.message.attributes == e.message.attributes
    &&& m.message.message_id == e.message.message_id
    &&& m.message.publish_time == e.message.publish_time
    &&& m.message.project_name is None
}

/// The outcome of decoding `e`: success exactly when its payload is valid.
pub open spec fn decodes_to(e: EncodedEnvelope, r: Result<PubSubMessage, DecodeError>) -> bool {
    match r {
        Ok(m) => decoded_as(e, m),
        Err(err) => payload_text(e.message.data@) is None && err == DecodeError::PayloadEncodingError,
    }
}

/// `e` carries `m`: the same fields, with the payload's UTF-8 bytes in base64.
pub open spec fn encodes(m: PubSubMessage, e: EncodedEnvelope) -> bool {
    &&& base64_decoded(e.message.data@) == Some(encode_utf8(m.message.data@))
    &&& e.subscription == m.subscription
    &&& e.message.attributes == m.message.attributes
    &&& e.message.message_id == m.message.message_id
    &&& e.message.publish_time == m.message.publish_time
}

impl PubSubMessage {
    /// Decodes an envelope whose JSON has been read, or reports that the JSON
    /// could not be read (`parsed` is `None`).
    pub fn decode(parsed: Option<EncodedEnvelope>) -> (r: Result<PubSubMessage, DecodeError>)
        ensures
            match parsed {
                Some(e) => decodes_to(e, r),
                None => r == Err::<PubSubMessage, DecodeError>(DecodeError::EnvelopeDecodeError),
            },
    {
        match parsed {
            None => Err(DecodeError::EnvelopeDecodeError),
            Some(e) => PubSubMessage::from_encoded(e),
        }
    }

    /// Decodes the base64 payload of an envelope into text.
    pub fn from_encoded(e: EncodedEnvelope) -> (r: Result<PubSubMessage, DecodeError>)
        ensures
            decodes_to(e, r),
    {
        let EncodedEnvelope { message, subscription } = e;
        let EncodedMessage { attributes, message_id, publish_time, data } = message;
        let bytes = match base64_decode(data.as_str()) {
            Some(b) => b,
            None => return Err(DecodeError::PayloadEncodingError),
        };
        PubSubMessage::from_payload_bytes(attributes, message_id, publish_time, bytes, subscription)
    }

    /// Builds a message from its fields and its payload bytes, which must be
    /// UTF-8 text.
    pub fn from_payload_bytes(
        attributes: Attributes,
        message_id: String,
        publish_time: String,
        bytes: Vec<u8>,
        subscription: String,
    ) -> (r: Result<PubSubMessage, DecodeError>)
        ensures
            match r {
                Ok(m) => {
                    &&& valid_utf8(bytes@)
                    &&& m.message.data@ == decode_utf8(bytes@)
                    &&& m.subscription == subscription
                    &&& m.message.attributes == attributes
                    &&& m.message.message_id == message_id
                    &&& m.message.publish_time == publish_time
                    &&& m.message.project_name is None
                },
                Err(err) => !valid_utf8(bytes@) && err == DecodeError::PayloadEncodingError,
            },
    {
        let text = match utf8_text(bytes) {
            Some(t) => t,
            None => return Err(DecodeError::PayloadEncodingError),
        };
        Ok(PubSubMessage {
            message: Message { attributes, message_id, publish_time, data: text, project_name: None },
            subscription,
        })
    }

    /// The envelope that carries this message, its payload put in base64.
    pub fn encode(self) -> (r: EncodedEnvelope)
        requires
            encode_utf8(self.message.data@).len() <= usize::MAX / 2,
        ensures
            encodes(self, r),
    {
        let PubSubMessage { message, subscription } = self;
        let Message { attributes, message_id, publish_time, data, project_name: _ } = message;
        let bytes = data.as_str().as_bytes();
        let encoded = base64_encode(bytes);
        EncodedEnvelope {
            message: EncodedMessage { attributes, message_id, publish_time, data: encoded },
            subscription,
        }
    }
}

/// `m` with `project_name` attached, every other field as it was.
pub open spec fn enriched(m: Message, project_name: String) -> Message {
    Message { project_name: Some(project_name), ..m }
}

impl Message {
    /// Attaches the project the cluster belongs to, for console links.
    pub fn with_project_name(self, project_name: String) -> (r: Message)
        ensures
            r == enriched(self, project_name),
    {
        Message { project_name: Some(project_name), ..self }
    }
}

/// Enrichment only adds the project: the payload, attributes, ids and
/// timestamp stay as they were.
pub proof fn lemma_enrichment_keeps_fields(m: Message, project_name: String)
    ensures
        enriched(m, project_name).data == m.data,
        enriched(m, project_name).attributes == m.attributes,
        enriched(m, project_name).message_id == m.message_id,
        enriched(m, project_name).publish_time == m.publish_time,
        enriched(m, project_name).project_name == Some(project_name),
{
}

/// Decoding an encoded message gives the message back: same attributes, ids,
/// timestamp and payload text.
pub proof fn lemma_decode_encode(m: PubSubMessage, e: EncodedEnvelope)
    requires
        encodes(m, e),
        m.message.project_name is None,
    ensures
        decodes_to(e, Ok(m)),
{
    vstd::utf8::encode_utf8_valid_utf8(m.message.data@);
    vstd::utf8::encode_utf8_decode_utf8(m.message.data@);
}

/// A payload that is not base64, or whose bytes are not UTF-8, is rejected
/// with a payload-encoding error and yields no message.
pub proof fn lemma_bad_payload_rejected(e: EncodedEnvelope, r: Result<PubSubMessage, DecodeError>)
    requires
        decodes_to(e, r),
        base64_decoded(e.message.data@) is None || !valid_utf8(
            base64_decoded(e.message.data@)->0,
        ),
    ensures
        r == Err::<PubSubMessage, DecodeError>(DecodeError::PayloadEncodingError),
{
}

} // verus!
