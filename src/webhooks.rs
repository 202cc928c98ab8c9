//! Webhook identifiers, events and payload authentication, and UUIDv7
//! identifiers that sort by time.

use hmac::Mac;
use vstd::prelude::*;

use crate::config::Secret;
use crate::models::{ImageId, OwnerId, ParseError};
use crate::text::{
    hex32, hex_chars, hex_of, hyphenated, parse_uuid, random_bytes, random_uuid, string_of_chars,
    uuid_parsed, uuid_v4_value,
    uuid_text,
};

verus! {

/// HTTP header that carries the HMAC-SHA512 digest of a webhook payload.
pub const DIGEST_HEADER: &'static str = "x-freta-digest";

/// The HMAC-SHA512 of `message` under `key`.
pub uninterp spec fn hmac_sha512_of(key: Seq<u8>, message: Seq<u8>) -> Seq<u8>;

/// Webhook event types.
#[derive(Clone, Copy, PartialEq, Eq, PartialOrd, Ord, Debug, Structural)]
pub enum WebhookEventType {
    /// Synthetic event that checks a webhook works.
    Ping,
    /// An image was created.
    ImageCreated,
    /// An image was deleted.
    ImageDeleted,
    /// An image was analyzed successfully.
    ImageAnalysisCompleted,
    /// The analysis of an image failed.
    ImageAnalysisFailed,
    /// The state of an image changed.
    ImageStateUpdated,
}

/// The state of sending an event to a webhook.
#[derive(Clone, Copy, PartialEq, Eq, Debug, Structural)]
pub enum WebhookEventState {
    /// Not sent yet.
    Pending,
    /// Sent, and accepted.
    Success,
    /// Sent, and the webhook answered with an error.
    Failure,
}

/// Unique identifier of a webhook, as the 128-bit value of its UUID.
#[derive(Clone, Copy, PartialEq, Eq, Hash, Debug, Structural)]
pub struct WebhookId(pub u128);

impl WebhookId {
    /// A new random identifier; `None` where the system's randomness fails.
    pub fn new() -> (r: Option<Self>)
        ensures
            r matches Some(i) ==> exists|b: Seq<u8>| b.len() == 16 && i.0 as int == uuid_v4_value(
                b,
            ),
    {
        match random_uuid() {
            Some(v) => Some(WebhookId(v)),
            None => None,
        }
    }

    /// The hyphenated text of the id.
    pub fn to_text(&self) -> (r: String)
        ensures
            r@ == hyphenated(self.0),
    {
        uuid_text(self.0)
    }

    /// The identifier written in `s`.
    pub fn parse(s: &str) -> (r: Result<WebhookId, ParseError>)
        ensures
            match uuid_parsed(s@) {
                Some(v) => r matches Ok(i) && i.0 == v,
                None => r is Err,
            },
    {
        match parse_uuid(s) {
            Some(v) => Ok(WebhookId(v)),
            None => Err(ParseError),
        }
    }
}

impl core::str::FromStr for WebhookId {
    type Err = ParseError;

    fn from_str(s: &str) -> Result<WebhookId, ParseError> {
        WebhookId::parse(s)
    }
}

/// Unique identifier of a webhook event: a UUIDv7, so that ids sort by the
/// time they were made.
#[derive(Clone, Copy, PartialEq, Eq, Debug, Structural)]
pub struct WebhookEventId(pub u128);

impl WebhookEventId {
    /// A new time-ordered identifier; `None` where the clock or the system's
    /// randomness is unavailable.
    pub fn new() -> (r: Option<Self>)
        ensures
            r matches Some(i) ==> is_some_uuid_v7(i.0),
    {
        match new_uuid_v7() {
            Some(v) => Some(WebhookEventId(v)),
            None => None,
        }
    }

    /// The hyphenated text of the id.
    pub fn to_text(&self) -> (r: String)
        ensures
            r@ == hyphenated(self.0),
    {
        uuid_text(self.0)
    }

    /// The identifier written in `s`.
    pub fn parse(s: &str) -> (r: Result<WebhookEventId, ParseError>)
        ensures
            match uuid_parsed(s@) {
                Some(v) => r matches Ok(i) && i.0 == v,
                None => r is Err,
            },
    {
        match parse_uuid(s) {
            Some(v) => Ok(WebhookEventId(v)),
            None => Err(ParseError),
        }
    }
}

impl core::str::FromStr for WebhookEventId {
    type Err = ParseError;

    fn from_str(s: &str) -> Result<WebhookEventId, ParseError> {
        WebhookEventId::parse(s)
    }
}

/// An event sent to a user's webhook endpoint.
#[derive(Clone, Copy, PartialEq, Eq, Debug, Structural)]
pub struct WebhookEvent {
    /// Unique identifier of the event.
    pub event_id: WebhookEventId,
    /// Kind of the event.
    pub event_type: WebhookEventType,
    /// Nanoseconds since the epoch at which the event occurred.
    pub timestamp: i128,
    /// The image that caused the event, if any.
    pub image: Option<ImageId>,
}

impl WebhookEvent {
    /// A new event with a fresh time-ordered id; `None` where no id can be
    /// made.
    pub fn new(event_type: WebhookEventType, timestamp: i128, image: Option<ImageId>) -> (r:
        Option<Self>)
        ensures
            r matches Some(e) ==> e.event_type == event_type && e.timestamp == timestamp
                && e.image == image,
    {
        match WebhookEventId::new() {
            Some(event_id) => Some(WebhookEvent { event_id, event_type, timestamp, image }),
            None => None,
        }
    }
}

/// A webhook configuration.
pub struct Webhook {
    /// Nanoseconds since the epoch of the last update, if known.
    pub last_updated: Option<i128>,
    /// The owner of the webhook.
    pub owner_id: OwnerId,
    /// Unique identifier of the webhook.
    pub webhook_id: WebhookId,
    /// The endpoint URL.
    pub url: String,
    /// The kinds of events sent to it.
    pub event_types: Vec<WebhookEventType>,
    /// Token of the HMAC-SHA512 digest added to each payload, if any.
    pub hmac_token: Option<Secret>,
}

impl Webhook {
    /// A new webhook with a fresh random id; `None` where the system's
    /// randomness fails.
    pub fn new(
        owner_id: OwnerId,
        url: String,
        event_types: Vec<WebhookEventType>,
        hmac_token: Option<Secret>,
    ) -> (r: Option<Self>)
        ensures
            r matches Some(w) ==> {
                &&& w.last_updated is None
                &&& w.owner_id == owner_id
                &&& w.url == url
                &&& w.event_types == event_types
                &&& w.hmac_token == hmac_token
            },
    {
        match WebhookId::new() {
            Some(webhook_id) => Some(
                Webhook { last_updated: None, owner_id, webhook_id, url, event_types, hmac_token },
            ),
            None => None,
        }
    }
}

/// A log entry of an event fired at a webhook.
pub struct WebhookLog {
    /// Nanoseconds since the epoch of the last update, if known.
    pub last_updated: Option<i128>,
    /// The webhook.
    pub webhook_id: WebhookId,
    /// The event's id.
    pub event_id: WebhookEventId,
    /// The event.
    pub event: WebhookEvent,
    /// The state of sending the event.
    pub state: WebhookEventState,
    /// The webhook's error response, if any.
    pub error: Option<String>,
}

impl WebhookLog {
    /// A pending log entry for a new event; `None` where no event id can be
    /// made.
    pub fn new(
        webhook_id: WebhookId,
        event_type: WebhookEventType,
        timestamp: i128,
        image_id: Option<ImageId>,
    ) -> (r: Option<Self>)
        ensures
            r matches Some(l) ==> {
                &&& l.last_updated is None
                &&& l.webhook_id == webhook_id
                &&& l.event_id == l.event.event_id
                &&& l.event.event_type == event_type
                &&& l.event.timestamp == timestamp
                &&& l.event.image == image_id
                &&& l.state is Pending
                &&& l.error is None
            },
    {
        match WebhookEvent::new(event_type, timestamp, image_id) {
            Some(event) => Some(
                WebhookLog {
                    last_updated: None,
                    webhook_id,
                    event_id: event.event_id,
                    event,
                    state: WebhookEventState::Pending,
                    error: None,
                },
            ),
            None => None,
        }
    }
}

/// The schemas that the service publishes.
#[derive(Clone, Copy, PartialEq, Eq, Debug, Structural)]
pub enum SchemaType {
    /// The schema of a webhook event.
    WebhookEvent,
}

/// Errors computing a webhook digest.
#[derive(Debug)]
pub enum HmacError {
    /// No HMAC could be made from the token.
    InvalidHmacToken,
    /// The event could not be serialized.
    Serialization(String),
}

/// Relies on hmac::Hmac::<sha2::Sha512>::new_from_slice, update and finalize:
/// an HMAC takes keys of any length, so `new_from_slice` always succeeds; the
/// digest depends on the key and the message alone, and is 64 bytes.
#[verifier::external_body]
fn hmac_digest(key: &[u8], message: &[u8]) -> (r: Option<Vec<u8>>)
    ensures
        r is Some,
        r matches Some(d) ==> d@ == hmac_sha512_of(key@, message@) && d@.len() == 64,
{
    match hmac::Hmac::<sha2::Sha512>::new_from_slice(key) {
        Ok(mut mac) => {
            mac.update(message);
            Some(mac.finalize().into_bytes().to_vec())
        },
        Err(_) => None,
    }
}

/// The text of a digest: two lowercase hexadecimal digits per byte.
pub fn digest_text(digest: &Vec<u8>) -> (r: String)
    ensures
        r@ == hex_of(digest@),
{
    let chars = hex_chars(digest.as_slice());
    string_of_chars(&chars)
}

/// The hex-encoded HMAC-SHA512 of `bytes` under the token's UTF-8 bytes.
pub fn hmac_sha512(bytes: &[u8], hmac_token: &Secret) -> (r: Result<String, HmacError>)
    ensures
        r matches Ok(s) && s@ == hex_of(
            hmac_sha512_of(vstd::utf8::encode_utf8(hmac_token@), bytes@),
        ) && s@.len() == 128,
{
    let key = hmac_token.get_secret().as_bytes();
    match hmac_digest(key, bytes) {
        Some(d) => Ok(digest_text(&d)),
        None => Err(HmacError::InvalidHmacToken),
    }
}

/// Compare two texts in time that depends on their length only: every byte
/// pair is examined. Texts of unequal length differ at once.
pub fn compare(a: &str, b: &str) -> (r: bool)
    ensures
        r == (a@ == b@),
{
    let x = a.as_bytes();
    let y = b.as_bytes();
    proof {
        vstd::utf8::encode_utf8_decode_utf8(a@);
        vstd::utf8::encode_utf8_decode_utf8(b@);
    }
    if x.len() != y.len() {
        return false;
    }
    let mut acc: u8 = 0;
    let mut i: usize = 0;
    while i < x.len()
        invariant
            x@.len() == y@.len(),
            i <= x@.len(),
            (acc == 0) <==> (forall|k: int| 0 <= k < i ==> x@[k] == y@[k]),
        decreases x@.len() - i,
    {
        let p = x[i];
        let q = y[i];
        let next = acc | (p ^ q);
        assert((next == 0) <==> (acc == 0 && p == q)) by (bit_vector)
            requires
                next == acc | (p ^ q),
        ;
        acc = next;
        i = i + 1;
    }
    if acc == 0 {
        assert(x@ =~= y@);
    }
    acc == 0
}

/// Verify a webhook payload: the digest in the header must equal the
/// HMAC-SHA512 of the raw body under the token.
pub fn signature_matches(body: &[u8], header: &str, hmac_token: &Secret) -> (r: Result<
    bool,
    HmacError,
>)
    ensures
        r matches Ok(m) && m == (header@ == hex_of(
            hmac_sha512_of(vstd::utf8::encode_utf8(hmac_token@), body@),
        )),
{
    let expected = hmac_sha512(body, hmac_token)?;
    Ok(compare(header, expected.as_str()))
}

/// `v` is the UUIDv7 of a millisecond timestamp and ten random bytes, as
/// its fields from the most significant bit: the low 48 bits of the
/// timestamp; the version 7; the low nibble of byte 1, then byte 0; the
/// variant bits `10`; the low six bits of byte 2, then bytes 3 to 9.
pub open spec fn is_uuid_v7(v: u128, millis: u64, r: Seq<u8>) -> bool {
    &&& v >> 80u128 == (millis as u128) & 0xffff_ffff_ffffu128
    &&& (v >> 76u128) & 0xfu128 == 7
    &&& (v >> 64u128) & 0xfffu128 == ((r[1] as u128) & 0xfu128) << 8u128 | r[0] as u128
    &&& (v >> 62u128) & 0x3u128 == 2
    &&& (v >> 56u128) & 0x3fu128 == (r[2] as u128) & 0x3fu128
    &&& v & 0xff_ffff_ffff_ffffu128 == (r[3] as u128) << 48u128 | (r[4] as u128) << 40u128 | (
    r[5] as u128) << 32u128 | (r[6] as u128) << 24u128 | (r[7] as u128) << 16u128 | (r[8] as u128)
        << 8u128 | r[9] as u128
}

/// `v` is the UUIDv7 of some timestamp and some ten bytes.
pub open spec fn is_some_uuid_v7(v: u128) -> bool {
    exists|t: u64, s: Seq<u8>| s.len() == 10 && #[trigger] is_uuid_v7(v, t, s)
}

/// Format a timestamp in milliseconds and ten random bytes as a UUIDv7,
/// returned as its 128-bit value.
pub fn fmt_uuid_v7(millis: u64, random_bytes: [u8; 10]) -> (r: u128)
    ensures
        is_uuid_v7(r, millis, random_bytes@),
{
    let m = millis as u128;
    let b0 = random_bytes[0] as u128;
    let b1 = random_bytes[1] as u128;
    let b2 = random_bytes[2] as u128;
    let b3 = random_bytes[3] as u128;
    let b4 = random_bytes[4] as u128;
    let b5 = random_bytes[5] as u128;
    let b6 = random_bytes[6] as u128;
    let b7 = random_bytes[7] as u128;
    let b8 = random_bytes[8] as u128;
    let b9 = random_bytes[9] as u128;
    let time = (m & 0xffff_ffff_ffffu128) << 80u128;
    let version_and_random = (0x7000u128 | (b1 & 0xfu128) << 8u128 | b0) << 64u128;
    let variant_and_random = (0x80u128 | (b2 & 0x3fu128)) << 56u128;
    let rest = b3 << 48u128 | b4 << 40u128 | b5 << 32u128 | b6 << 24u128 | b7 << 16u128 | b8
        << 8u128 | b9;
    let v = time | version_and_random | variant_and_random | rest;
    assert({
        &&& v >> 80u128 == m & 0xffff_ffff_ffffu128
        &&& (v >> 76u128) & 0xfu128 == 7
        &&& (v >> 64u128) & 0xfffu128 == (b1 & 0xfu128) << 8u128 | b0
        &&& (v >> 62u128) & 0x3u128 == 2
        &&& (v >> 56u128) & 0x3fu128 == b2 & 0x3fu128
        &&& v & 0xff_ffff_ffff_ffffu128 == b3 << 48u128 | b4 << 40u128 | b5 << 32u128 | b6
            << 24u128 | b7 << 16u128 | b8 << 8u128 | b9
    }) by (bit_vector)
        requires
            m <= 0xffff_ffff_ffff_ffffu128,
            b0 <= 0xffu128,
            b1 <= 0xffu128,
            b2 <= 0xffu128,
            b3 <= 0xffu128,
            b4 <= 0xffu128,
            b5 <= 0xffu128,
            b6 <= 0xffu128,
            b7 <= 0xffu128,
            b8 <= 0xffu128,
            b9 <= 0xffu128,
            time == (m & 0xffff_ffff_ffffu128) << 80u128,
            version_and_random == (0x7000u128 | (b1 & 0xfu128) << 8u128 | b0) << 64u128,
            variant_and_random == (0x80u128 | (b2 & 0x3fu128)) << 56u128,
            rest == b3 << 48u128 | b4 << 40u128 | b5 << 32u128 | b6 << 24u128 | b7 << 16u128 | b8
                << 8u128 | b9,
            v == time | version_and_random | variant_and_random | rest,
    ;
    assert(is_uuid_v7(v, millis, random_bytes@));
    v
}

/// Relies on std::time::SystemTime::elapsed since the epoch: the number of
/// milliseconds, `None` where the clock is before the epoch. Nothing is
/// promised of the value.
#[verifier::external_body]
fn now_millis() -> (r: Option<u64>) {
    match std::time::SystemTime::UNIX_EPOCH.elapsed() {
        Ok(d) => Some(d.as_millis() as u64),
        Err(_) => None,
    }
}

/// A new UUIDv7 from the clock and the system's randomness; `None` where
/// either is unavailable.
pub fn new_uuid_v7() -> (r: Option<u128>)
    ensures
        r matches Some(v) ==> is_some_uuid_v7(v),
{
    let millis = match now_millis() {
        Some(m) => m,
        None => {
            return None;
        },
    };
    let b = match random_bytes(10) {
        Some(b) => b,
        None => {
            return None;
        },
    };
    let bytes: [u8; 10] = [b[0], b[1], b[2], b[3], b[4], b[5], b[6], b[7], b[8], b[9]];
    let v = fmt_uuid_v7(millis, bytes);
    assert(bytes@.len() == 10 && is_uuid_v7(v, millis, bytes@));
    assert(is_some_uuid_v7(v));
    Some(v)
}

/// UUIDv7 values sort by time: of two made from timestamps below 2^48, the
/// earlier timestamp gives the smaller value, whatever the random bytes.
pub proof fn lemma_uuid_v7_sorts_by_time(
    v1: u128,
    v2: u128,
    m1: u64,
    m2: u64,
    r1: Seq<u8>,
    r2: Seq<u8>,
)
    requires
        m1 < m2 < 0x1_0000_0000_0000,
        r1.len() == 10,
        r2.len() == 10,
        is_uuid_v7(v1, m1, r1),
        is_uuid_v7(v2, m2, r2),
    ensures
        v1 < v2,
{
    let a = m1 as u128;
    let b = m2 as u128;
    assert(a & 0xffff_ffff_ffffu128 == a && b & 0xffff_ffff_ffffu128 == b) by (bit_vector)
        requires
            a < 0x1_0000_0000_0000u128,
            b < 0x1_0000_0000_0000u128,
    ;
    assert(v1 < v2) by (bit_vector)
        requires
            v1 >> 80u128 < v2 >> 80u128,
    ;
}

} // verus!
