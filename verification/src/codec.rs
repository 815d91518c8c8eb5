//! The envelope codec: the wire protocol frames one JSON object per message,
//! `{"op": <int>, "d": <any|null>, "s": <int|null>, "t": <string|null>}`.
//! Decoding splits a frame into the fields the engine reads; encoding builds
//! the frames the engine sends (heartbeat and identify).

use crate::text::{json_quote, json_quoted_of, spec_dec_str, u64_to_string};
use vstd::prelude::*;
use vstd::string::StringExecFns;

verus! {

// Opcodes, fixed by the external protocol.
pub const OP_DISPATCH: u64 = 0;

pub const OP_HEARTBEAT: u64 = 1;

pub const OP_IDENTIFY: u64 = 2;

pub const OP_PRESENCE: u64 = 3;

pub const OP_VOICE_STATE: u64 = 4;

pub const OP_VOICE_PING: u64 = 5;

pub const OP_RESUME: u64 = 6;

pub const OP_RECONNECT: u64 = 7;

pub const OP_REQUEST_MEMBERS: u64 = 8;

pub const OP_INVALIDATE_SESSION: u64 = 9;

pub const OP_HELLO: u64 = 10;

pub const OP_HEARTBEAT_ACK: u64 = 11;

pub const OP_GUILD_SYNC: u64 = 12;

/// The error taxonomy of one connection attempt. `BootstrapFailure` is the
/// endpoint-resolution call failing, `TransportFailure` a socket-level
/// failure, `MalformedFrame` a frame outside the expected grammar, and
/// `ProtocolViolation` a well-formed frame outside the expected ordering or
/// missing a mandatory field.
#[derive(Debug, Clone, Copy, PartialEq, Eq, Structural)]
pub enum GatewayError {
    BootstrapFailure,
    TransportFailure,
    MalformedFrame,
    ProtocolViolation,
}

/// The raw fields of one inbound frame, as the JSON parser reports them:
/// `op` if present as an unsigned integer, the `heartbeat_interval` field of
/// the payload if the payload is an object carrying it as an unsigned
/// integer, `s` if present as an unsigned integer, and `t` if present as a
/// string. The payload is otherwise untyped and only the hello payload is
/// ever read by this engine.
#[derive(Debug)]
pub struct RawFrame {
    pub op: Option<u64>,
    pub heartbeat_interval: Option<u64>,
    pub sequence: Option<u64>,
    pub event_name: Option<String>,
}

/// The mathematical value of a `RawFrame`.
pub struct RawFrameView {
    pub op: Option<u64>,
    pub heartbeat_interval: Option<u64>,
    pub sequence: Option<u64>,
    pub event_name: Option<Seq<char>>,
}

impl View for RawFrame {
    type V = RawFrameView;

    open spec fn view(&self) -> RawFrameView {
        RawFrameView {
            op: self.op,
            heartbeat_interval: self.heartbeat_interval,
            sequence: self.sequence,
            event_name: match self.event_name {
                Some(t) => Some(t@),
                None => None,
            },
        }
    }
}

/// What splitting a frame's text into its raw fields yields: `None` when
/// the text is no JSON document at all, and the fields above otherwise (for
/// a document that is not an object, every field is absent). The result is a
/// function of the text alone.
pub uninterp spec fn raw_frame_of(s: Seq<char>) -> Option<RawFrameView>;

/// Relies on `serde_json::from_str` for `serde_json::Value` and on the
/// `Value` accessors `get`, `as_u64` and `as_str`: parses one frame of text
/// and hands out the raw envelope fields, a pure function of the text.
#[verifier::external_body]
pub fn parse_frame(raw: &str) -> (r: Option<RawFrame>)
    ensures
        r is None ==> raw_frame_of(raw@) is None,
        r matches Some(f) ==> raw_frame_of(raw@) == Some(f@),
{
    let v: serde_json::Value = match serde_json::from_str(raw) {
        Ok(v) => v,
        Err(_) => return None,
    };
    let hb = v.get("d").and_then(|d| d.get("heartbeat_interval"));
    Some(RawFrame {
        op: v.get("op").and_then(serde_json::Value::as_u64),
        heartbeat_interval: hb.and_then(serde_json::Value::as_u64),
        sequence: v.get("s").and_then(serde_json::Value::as_u64),
        event_name: v.get("t").and_then(serde_json::Value::as_str).map(String::from),
    })
}

/// One parsed inbound envelope: the opcode, the one payload projection this
/// engine reads (the hello payload's `heartbeat_interval`), the sequence
/// number, and the event name of dispatch-class frames.
#[derive(Debug)]
pub struct GatewayEnvelope {
    pub opcode: u64,
    pub heartbeat_interval: Option<u64>,
    pub sequence: Option<u64>,
    pub event_name: Option<String>,
}

/// The mathematical value of a `GatewayEnvelope`.
pub struct EnvelopeView {
    pub opcode: u64,
    pub heartbeat_interval: Option<u64>,
    pub sequence: Option<u64>,
    pub event_name: Option<Seq<char>>,
}

impl View for GatewayEnvelope {
    type V = EnvelopeView;

    open spec fn view(&self) -> EnvelopeView {
        EnvelopeView {
            opcode: self.opcode,
            heartbeat_interval: self.heartbeat_interval,
            sequence: self.sequence,
            event_name: match self.event_name {
                Some(t) => Some(t@),
                None => None,
            },
        }
    }
}

/// What decoding yields for given raw fields: `MalformedFrame` when the text
/// was not one JSON object or the mandatory `op` field is absent or not an
/// unsigned integer, and the envelope otherwise.
pub open spec fn spec_decode(f: Option<RawFrameView>) -> Result<EnvelopeView, GatewayError> {
    match f {
        None => Err(GatewayError::MalformedFrame),
        Some(fields) => match fields.op {
            None => Err(GatewayError::MalformedFrame),
            Some(op) => Ok(
                EnvelopeView {
                    opcode: op,
                    heartbeat_interval: fields.heartbeat_interval,
                    sequence: fields.sequence,
                    event_name: fields.event_name,
                },
            ),
        },
    }
}

/// The mathematical value of a decode result.
pub open spec fn decode_result_view(r: Result<GatewayEnvelope, GatewayError>) -> Result<
    EnvelopeView,
    GatewayError,
> {
    match r {
        Ok(env) => Ok(env@),
        Err(e) => Err(e),
    }
}

/// Decodes raw fields into an envelope, exactly as `spec_decode` states.
pub fn decode_fields(f: Option<RawFrame>) -> (r: Result<GatewayEnvelope, GatewayError>)
    ensures
        decode_result_view(r) == spec_decode(match f {
            Some(fields) => Some(fields@),
            None => None,
        }),
{
    match f {
        None => Err(GatewayError::MalformedFrame),
        Some(fields) => match fields.op {
            None => Err(GatewayError::MalformedFrame),
            Some(op) => Ok(
                GatewayEnvelope {
                    opcode: op,
                    heartbeat_interval: fields.heartbeat_interval,
                    sequence: fields.sequence,
                    event_name: fields.event_name,
                },
            ),
        },
    }
}

/// Decodes one frame of text: fails with `MalformedFrame` when the text is
/// not one JSON object or the mandatory `op` field is missing, and returns
/// the envelope otherwise.
pub fn decode(raw: &str) -> (r: Result<GatewayEnvelope, GatewayError>)
    ensures
        decode_result_view(r) == spec_decode(raw_frame_of(raw@)),
{
    decode_fields(parse_frame(raw))
}

/// What reading the hello envelope yields: the heartbeat interval when the
/// envelope is a hello carrying one, `ProtocolViolation` when the first
/// envelope is not a hello or its mandatory `heartbeat_interval` field is
/// absent or not an unsigned integer.
pub open spec fn spec_hello_interval(e: EnvelopeView) -> Result<u64, GatewayError> {
    if e.opcode != OP_HELLO {
        Err(GatewayError::ProtocolViolation)
    } else {
        match e.heartbeat_interval {
            Some(n) => Ok(n),
            None => Err(GatewayError::ProtocolViolation),
        }
    }
}

/// Reads the heartbeat interval out of a hello envelope, exactly as
/// `spec_hello_interval` states; never panics on any envelope.
pub fn hello_interval(env: &GatewayEnvelope) -> (r: Result<u64, GatewayError>)
    ensures
        r == spec_hello_interval(env@),
{
    if env.opcode != OP_HELLO {
        Err(GatewayError::ProtocolViolation)
    } else {
        match env.heartbeat_interval {
            Some(n) => Ok(n),
            None => Err(GatewayError::ProtocolViolation),
        }
    }
}

/// The heartbeat frame: `{"op":1,"d":null}` before any sequence number has
/// been observed, and `{"op":1,"d":<n>}` afterwards.
pub open spec fn spec_heartbeat_frame(seq: Option<u64>) -> Seq<char> {
    match seq {
        None => "{\"op\":1,\"d\":null}"@,
        Some(n) => "{\"op\":1,\"d\":"@ + spec_dec_str(n as int) + "}"@,
    }
}

/// Builds the heartbeat frame, exactly as `spec_heartbeat_frame` states.
/// Encoding always succeeds: it is a pure serialization of a small record.
pub fn heartbeat_frame(seq: Option<u64>) -> (r: String)
    ensures
        r@ == spec_heartbeat_frame(seq),
{
    match seq {
        None => String::from_str("{\"op\":1,\"d\":null}"),
        Some(n) => {
            let mut s = String::from_str("{\"op\":1,\"d\":");
            let digits = u64_to_string(n);
            s.append(digits.as_str());
            s.append("}");
            s
        },
    }
}

/// The identify frame: opcode 2 with the credential, an intents value of
/// zero, and the fixed client-identification block.
pub open spec fn spec_identify_frame(token: Seq<char>) -> Seq<char> {
    "{\"op\":2,\"d\":{\"token\":"@ + json_quoted_of(token)
        + ",\"intents\":0,\"properties\":{\"$browser\":\"discord-rs\",\"$device\":\"discord-rs\"}}}"@
}

/// Builds the identify frame for a credential, exactly as
/// `spec_identify_frame` states. Encoding always succeeds.
pub fn identify_frame(token: &str) -> (r: String)
    ensures
        r@ == spec_identify_frame(token@),
{
    let mut s = String::from_str("{\"op\":2,\"d\":{\"token\":");
    let quoted = json_quote(token);
    s.append(quoted.as_str());
    s.append(",\"intents\":0,\"properties\":{\"$browser\":\"discord-rs\",\"$device\":\"discord-rs\"}}}");
    s
}

} // verus!
