//! Authentication and routing of inbound webhook events: a keyed hash over
//! `message-id || message-timestamp || body` must match the signature
//! header before anything looks at the body; verified events are routed by
//! kind.

use vstd::prelude::*;
use vstd::string::StringSliceAdditionalSpecFns;
use crate::commands::ChatPayload;

verus! {

/// What the keyed message-authentication code of `msg` under `key` is; it
/// depends on the two byte strings alone.
pub uninterp spec fn hmac_sha256_of(key: Seq<u8>, msg: Seq<u8>) -> Seq<u8>;

/// Relies on `hmac_sha256::HMAC::mac`: the 32-byte keyed hash of the input
/// under the key, a function of its arguments alone.
#[verifier::external_body]
fn hmac_mac(input: &[u8], key: &[u8]) -> (r: [u8; 32])
    ensures
        r@ == hmac_sha256_of(key@, input@),
{
    hmac_sha256::HMAC::mac(input, key)
}

/// Relies on `constant_time_eq::constant_time_eq_32`: equality of two
/// 32-byte strings, in constant time.
#[verifier::external_body]
fn ct_eq_32(a: &[u8; 32], b: &[u8; 32]) -> (r: bool)
    ensures
        r == (a@ == b@),
{
    constant_time_eq::constant_time_eq_32(a, b)
}

/// The value of a hexadecimal digit character, `-1` for any other
/// character.
pub open spec fn hex_val(c: char) -> int {
    if crate::text::is_digit(c) {
        crate::text::digit_val(c)
    } else if c == 'a' || c == 'A' {
        10
    } else if c == 'b' || c == 'B' {
        11
    } else if c == 'c' || c == 'C' {
        12
    } else if c == 'd' || c == 'D' {
        13
    } else if c == 'e' || c == 'E' {
        14
    } else if c == 'f' || c == 'F' {
        15
    } else {
        -1
    }
}

pub open spec fn is_hex_digit(c: char) -> bool {
    hex_val(c) >= 0
}

/// Relies on `hex::decode_to_slice` into a 32-byte buffer: succeeds exactly
/// on 64 hexadecimal digits (either case), and then yields the decoded
/// bytes, two digits each.
#[verifier::external_body]
fn hex_decode_32(s: &str) -> (r: Option<[u8; 32]>)
    ensures
        r is Some <==> (s@.len() == 64 && forall|i: int|
            0 <= i < 64 ==> is_hex_digit(#[trigger] s@[i])),
        r matches Some(b) ==> forall|i: int|
            0 <= i < 32 ==> #[trigger] b@[i] == 16 * hex_val(s@[2 * i]) + hex_val(s@[2 * i + 1]),
{
    let mut buf = [0u8; 32];
    match hex::decode_to_slice(s, &mut buf) {
        Ok(()) => Some(buf),
        Err(_) => None,
    }
}

/// A well-formed signature header: `sha256=` followed by 64 hexadecimal
/// digits.
pub open spec fn valid_signature_header(h: Seq<char>) -> bool {
    &&& h.len() == 71
    &&& h.take(7) == "sha256="@
    &&& forall|i: int| 7 <= i < 71 ==> is_hex_digit(#[trigger] h[i])
}

/// The 32-byte tag a well-formed signature header carries.
pub open spec fn header_tag(h: Seq<char>) -> Seq<u8> {
    Seq::new(32, |i: int| (16 * hex_val(h[7 + 2 * i]) + hex_val(h[7 + 2 * i + 1])) as u8)
}

/// Extracts the expected tag from the signature header; any malformed
/// header is rejected rather than decoded.
pub fn parse_signature_header(h: &str) -> (r: Option<[u8; 32]>)
    ensures
        r is Some <==> valid_signature_header(h@),
        r matches Some(b) ==> b@ == header_tag(h@),
{
    proof {
        reveal_strlit("sha256=");
    }
    if h.unicode_len() != 71 {
        return None;
    }
    let prefix = h.substring_char(0, 7);
    if !crate::text::str_eq(prefix, "sha256=") {
        proof {
            assert(h@.take(7) =~= prefix@);
        }
        return None;
    }
    let digits = h.substring_char(7, 71);
    proof {
        assert(h@.take(7) =~= prefix@);
        assert(digits@ =~= h@.subrange(7, 71));
    }
    match hex_decode_32(digits) {
        Some(b) => {
            proof {
                assert forall|i: int| 7 <= i < 71 implies is_hex_digit(#[trigger] h@[i]) by {
                    assert(digits@[i - 7] == h@[i]);
                    assert(is_hex_digit(digits@[i - 7]));
                }
                assert forall|i: int|
                    0 <= i < 32 implies #[trigger] b@[i] == (16 * hex_val(h@[7 + 2 * i]) + hex_val(
                    h@[7 + 2 * i + 1],
                )) as u8 by {
                    assert(digits@[2 * i] == h@[7 + 2 * i]);
                    assert(digits@[2 * i + 1] == h@[7 + 2 * i + 1]);
                    assert(b@[i] == 16 * hex_val(digits@[2 * i]) + hex_val(digits@[2 * i + 1]));
                }
                assert(b@ =~= header_tag(h@));
            }
            Some(b)
        },
        None => {
            proof {
                if valid_signature_header(h@) {
                    assert forall|i: int|
                        0 <= i < 64 implies is_hex_digit(#[trigger] digits@[i]) by {
                        assert(digits@[i] == h@[7 + i]);
                        assert(is_hex_digit(h@[7 + i]));
                    }
                }
            }
            None
        },
    }
}

/// The tag matches the keyed hash of the input under the key.
pub open spec fn signature_ok(key: Seq<u8>, input: Seq<u8>, tag: Seq<u8>) -> bool {
    hmac_sha256_of(key, input) == tag
}

/// Computes the keyed hash of `input` under `key` and compares it to the
/// expected tag in constant time.
pub fn verify_signature(key: &[u8], input: &[u8], expected: &[u8; 32]) -> (r: bool)
    ensures
        r == signature_ok(key@, input@, expected@),
{
    let mac = hmac_mac(input, key);
    ct_eq_32(&mac, expected)
}

/// The byte string the signature covers: message id, then timestamp, then
/// body.
pub open spec fn auth_input(id: Seq<u8>, ts: Seq<u8>, body: Seq<u8>) -> Seq<u8> {
    id + ts + body
}

/// Authenticates one inbound request: the signature header must be well
/// formed and its tag must match the keyed hash of
/// `message_id || timestamp || body` under the secret.
pub fn authenticate(
    message_id: &str,
    timestamp: &str,
    body: &str,
    signature_header: &str,
    secret: &str,
) -> (r: bool)
    ensures
        r == (valid_signature_header(signature_header@) && signature_ok(
            secret.spec_bytes(),
            auth_input(message_id.spec_bytes(), timestamp.spec_bytes(), body.spec_bytes()),
            header_tag(signature_header@),
        )),
{
    match parse_signature_header(signature_header) {
        Some(tag) => {
            let mut input: Vec<u8> = Vec::new();
            input.extend_from_slice(message_id.as_bytes());
            input.extend_from_slice(timestamp.as_bytes());
            input.extend_from_slice(body.as_bytes());
            proof {
                assert(input@ =~= auth_input(
                    message_id.spec_bytes(),
                    timestamp.spec_bytes(),
                    body.spec_bytes(),
                ));
            }
            verify_signature(secret.as_bytes(), input.as_slice(), &tag)
        },
        None => false,
    }
}

/// Two authentication inputs with equal-length ids and timestamps are equal
/// only when every component is: a change to any single byte of the id, the
/// timestamp or the body changes the signed input.
pub proof fn lemma_auth_input_injective(
    id1: Seq<u8>,
    ts1: Seq<u8>,
    b1: Seq<u8>,
    id2: Seq<u8>,
    ts2: Seq<u8>,
    b2: Seq<u8>,
)
    requires
        id1.len() == id2.len(),
        ts1.len() == ts2.len(),
        auth_input(id1, ts1, b1) == auth_input(id2, ts2, b2),
    ensures
        id1 == id2,
        ts1 == ts2,
        b1 == b2,
{
    let s1 = auth_input(id1, ts1, b1);
    let s2 = auth_input(id2, ts2, b2);
    assert(id1 =~= id2) by {
        assert(forall|i: int| 0 <= i < id1.len() ==> #[trigger] id1[i] == s1[i] && id2[i] == s2[i]);
    }
    assert(ts1 =~= ts2) by {
        assert(forall|i: int|
            0 <= i < ts1.len() ==> #[trigger] ts1[i] == s1[id1.len() + i] && ts2[i] == s2[id1.len()
                + i]);
    }
    assert(b1 =~= b2) by {
        assert(s1.len() == s2.len());
        assert(forall|i: int|
            0 <= i < b1.len() ==> #[trigger] b1[i] == s1[id1.len() + ts1.len() + i] && b2[i]
                == s2[id1.len() + ts1.len() + i]);
    }
}

/// A tag produced over one request never authenticates a request whose
/// signed input differs in any byte — granted that the keyed hash of the
/// two inputs differs, which is the cryptographic collision-freeness this
/// library takes from the hash and cannot prove.
pub proof fn lemma_altered_input_rejected(
    key: Seq<u8>,
    id1: Seq<u8>,
    ts1: Seq<u8>,
    b1: Seq<u8>,
    id2: Seq<u8>,
    ts2: Seq<u8>,
    b2: Seq<u8>,
    tag: Seq<u8>,
)
    requires
        tag == hmac_sha256_of(key, auth_input(id1, ts1, b1)),
        hmac_sha256_of(key, auth_input(id2, ts2, b2)) != hmac_sha256_of(
            key,
            auth_input(id1, ts1, b1),
        ),
    ensures
        !signature_ok(key, auth_input(id2, ts2, b2), tag),
{
}

/// An inbound event after envelope parsing, as far as this bot reads it.
pub enum InboundEvent {
    /// A chat-message notification, to be handed to the command router.
    ChatNotification(ChatPayload),
    /// A verification handshake carrying a challenge to echo.
    Verification { challenge: String },
    /// Any other event type: acknowledged and ignored.
    Other,
}

/// What the host must answer and whether it must dispatch the payload to
/// the command router.
pub struct EventDecision {
    pub status: u16,
    /// The response body; `None` means an empty body.
    pub body: Option<String>,
    /// Whether the body is served as `text/plain`.
    pub text_plain: bool,
    /// Whether the chat payload is dispatched, decoupled from the response.
    pub dispatch: bool,
}

/// Routes one authenticated event: a chat notification is dispatched and
/// acknowledged, a verification handshake is answered by echoing its
/// challenge as plain text, anything else is acknowledged and ignored.
pub fn event(ev: InboundEvent) -> (r: EventDecision)
    ensures
        r.status == 200,
        match ev {
            InboundEvent::ChatNotification(_) => r.dispatch && r.body is None && !r.text_plain,
            InboundEvent::Verification { challenge } => !r.dispatch && r.text_plain && (
            r.body matches Some(b) && b@ == challenge@),
            InboundEvent::Other => !r.dispatch && r.body is None && !r.text_plain,
        },
{
    match ev {
        InboundEvent::ChatNotification(_) => EventDecision {
            status: 200,
            body: None,
            text_plain: false,
            dispatch: true,
        },
        InboundEvent::Verification { challenge } => EventDecision {
            status: 200,
            body: Some(challenge),
            text_plain: true,
            dispatch: false,
        },
        InboundEvent::Other => EventDecision {
            status: 200,
            body: None,
            text_plain: false,
            dispatch: false,
        },
    }
}

} // verus!
