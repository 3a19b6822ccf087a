//! The request pipeline: header validation, then signature verification
//! over `timestamp ++ body`, then payload parse, decode and dispatch, in
//! that order. No payload is decoded and no outbound call is built unless
//! the signature verifies; every failure short-circuits with its own
//! outcome, and nothing panics on adversarial input.

use vstd::prelude::*;
use vstd::string::*;
use crate::json::{JsonValue, int_field, json_of, parse_json};
use crate::interaction::{InteractionView, decode_spec, decode_interaction, Interaction};
use crate::router::{Dispatch, DispatchView, dispatch, dispatch_spec};
use crate::poll::{
    follow_up_shape, poll_message_spec, interaction_url_chars, placeholder_poll_id,
    build_poll_message, follow_up_json, make_interaction_url,
};
use crate::sig::{
    SigCheck, verify_request, sig_header_ok, signed_message, ed25519_sig_well_formed,
    ed25519_key_accepted, ed25519_verifies,
};
use crate::text::{dec_chars, u64_to_dec, hex_decode_chars};

verus! {

/// A record of one button press: which custom id on which message.
#[derive(Debug)]
pub struct PressRecord {
    pub custom_id: String,
    pub message_id: u64,
}

pub struct PressRecordView {
    pub custom_id: Seq<char>,
    pub message_id: u64,
}

impl View for PressRecord {
    type V = PressRecordView;

    open spec fn view(&self) -> PressRecordView {
        PressRecordView { custom_id: self.custom_id@, message_id: self.message_id }
    }
}

/// One outbound follow-up call: the callback URL and the JSON document to
/// post there with content type `application/json`.
#[derive(Debug)]
pub struct OutboundCall {
    pub url: String,
    pub payload: JsonValue,
}

pub struct OutboundCallView {
    pub url: Seq<char>,
    pub payload: JsonValue,
}

impl View for OutboundCall {
    type V = OutboundCallView;

    open spec fn view(&self) -> OutboundCallView {
        OutboundCallView { url: self.url@, payload: self.payload }
    }
}

/// The pipeline's verdict for one request.
#[derive(Debug)]
pub enum HandlerOutcome {
    /// A signature or timestamp header is missing or not decodable hex.
    MalformedHeader,
    /// The verifier's signature object could not be built.
    SignatureConstruction,
    /// The configured public key names no valid verification key.
    KeyRejected,
    /// The signature does not verify over `timestamp ++ body`.
    Unauthorized,
    /// The body is not a JSON object this service reads: not JSON at all,
    /// no integer `type`, a missing required field, or a component press
    /// without its original message.
    InvalidPayload,
    /// A ping: reply immediately with the pong document.
    Pong,
    /// Handled: an empty success reply, plus at most one outbound follow-up
    /// call and at most one press record.
    Done { outbound: Option<OutboundCall>, press: Option<PressRecord> },
}

pub enum HandlerOutcomeView {
    MalformedHeader,
    SignatureConstruction,
    KeyRejected,
    Unauthorized,
    InvalidPayload,
    Pong,
    Done { outbound: Option<OutboundCallView>, press: Option<PressRecordView> },
}

impl View for HandlerOutcome {
    type V = HandlerOutcomeView;

    open spec fn view(&self) -> HandlerOutcomeView {
        match self {
            HandlerOutcome::MalformedHeader => HandlerOutcomeView::MalformedHeader,
            HandlerOutcome::SignatureConstruction => HandlerOutcomeView::SignatureConstruction,
            HandlerOutcome::KeyRejected => HandlerOutcomeView::KeyRejected,
            HandlerOutcome::Unauthorized => HandlerOutcomeView::Unauthorized,
            HandlerOutcome::InvalidPayload => HandlerOutcomeView::InvalidPayload,
            HandlerOutcome::Pong => HandlerOutcomeView::Pong,
            HandlerOutcome::Done { outbound, press } => HandlerOutcomeView::Done {
                outbound: match outbound {
                    Some(c) => Some(c@),
                    None => None,
                },
                press: match press {
                    Some(p) => Some(p@),
                    None => None,
                },
            },
        }
    }
}

impl HandlerOutcome {
    /// The HTTP status this outcome answers with.
    pub fn status_code(&self) -> (r: u16)
        ensures
            r == 400 <==> (self is MalformedHeader || self is InvalidPayload),
            r == 500 <==> (self is SignatureConstruction || self is KeyRejected),
            r == 401 <==> self is Unauthorized,
            r == 200 <==> (self is Pong || self is Done),
    {
        match self {
            HandlerOutcome::MalformedHeader => 400,
            HandlerOutcome::SignatureConstruction => 500,
            HandlerOutcome::KeyRejected => 500,
            HandlerOutcome::Unauthorized => 401,
            HandlerOutcome::InvalidPayload => 400,
            HandlerOutcome::Pong => 200,
            HandlerOutcome::Done { .. } => 200,
        }
    }
}

/// The body of the immediate ping reply.
pub fn pong_body() -> (r: String)
    ensures
        r@ == "{\"type\":1}"@,
{
    "{\"type\":1}".to_owned()
}

/// The press handler's log line: which custom id was pressed on which
/// message.
pub fn press_log_line(custom_id: &str, message_id: u64) -> (r: String)
    ensures
        r@ == "button "@ + custom_id@ + " pressed on message "@ + dec_chars(message_id as nat),
{
    let a: String = "button ".to_owned();
    let b: String = a.concat(custom_id);
    let c: String = b.concat(" pressed on message ");
    let d: String = u64_to_dec(message_id);
    c.concat(d.as_str())
}

/// What the pipeline owes for a parsed payload `v`: the outcome decided by
/// decoding `v` and routing the interaction. A poll start carries exactly
/// one outbound call, to the interaction's callback URL, whose document
/// renders the poll message for the placeholder poll id; a press carries
/// its record; everything else (and every malformed payload) carries
/// nothing.
pub open spec fn payload_outcome_ok(o: HandlerOutcomeView, v: JsonValue) -> bool {
    match decode_spec(v) {
        Err(_) => o is InvalidPayload,
        Ok(i) => match dispatch_spec(i) {
            DispatchView::Pong => o is Pong,
            DispatchView::StartPoll { interaction_id, token, topic } => {
                &&& o matches HandlerOutcomeView::Done { outbound, press }
                &&& press is None
                &&& outbound matches Some(c)
                &&& c.url == interaction_url_chars(interaction_id as nat, token)
                &&& follow_up_shape(c.payload, poll_message_spec("id-here"@, topic))
            },
            DispatchView::Press { custom_id, message_id } => {
                &&& o matches HandlerOutcomeView::Done { outbound, press }
                &&& outbound is None
                &&& press matches Some(p)
                &&& p.custom_id == custom_id
                &&& p.message_id == message_id
            },
            DispatchView::Empty => {
                &&& o matches HandlerOutcomeView::Done { outbound, press }
                &&& outbound is None
                &&& press is None
            },
            DispatchView::MissingMessage => o is InvalidPayload,
        },
    }
}

/// Decodes and routes one parsed payload and builds the outcome, exactly as
/// `payload_outcome_ok` states it.
pub fn handle_payload(v: &JsonValue) -> (r: HandlerOutcome)
    ensures
        payload_outcome_ok(r@, *v),
{
    let i: Interaction = match decode_interaction(v) {
        Ok(i) => i,
        Err(_) => {
            return HandlerOutcome::InvalidPayload;
        },
    };
    let d: Dispatch = dispatch(&i);
    match &d {
        Dispatch::Pong => HandlerOutcome::Pong,
        Dispatch::StartPoll { interaction_id, token, topic } => {
            proof {
                assert(d@ is StartPoll);
                assert(d@->StartPoll_interaction_id == *interaction_id);
                assert(d@->StartPoll_token == token@);
                assert(d@->StartPoll_topic == topic@);
            }
            let poll_id: String = placeholder_poll_id();
            let msg = build_poll_message(poll_id.as_str(), topic.as_str());
            let payload: JsonValue = follow_up_json(&msg);
            let url: String = make_interaction_url(*interaction_id, token);
            HandlerOutcome::Done {
                outbound: Some(OutboundCall { url, payload }),
                press: None,
            }
        },
        Dispatch::Press { custom_id, message_id } => {
            proof {
                assert(d@ is Press);
                assert(d@->Press_custom_id == custom_id@);
                assert(d@->Press_message_id == *message_id);
            }
            HandlerOutcome::Done {
                outbound: None,
                press: Some(PressRecord { custom_id: custom_id.clone(), message_id: *message_id }),
            }
        },
        Dispatch::Empty => HandlerOutcome::Done { outbound: None, press: None },
        Dispatch::MissingMessage => HandlerOutcome::InvalidPayload,
    }
}

/// Handles one inbound webhook request end to end. The headers must both be
/// present and the signature must decode and verify over `timestamp ++
/// body` under `public_key` before the body is parsed; only then is the
/// payload decoded and routed, and the outcome is exactly what
/// `payload_outcome_ok` owes for the parse of the body bytes. Each earlier
/// failure answers for itself, so no reply with content and no outbound
/// call exists for an unauthenticated request.
pub fn handle_interaction(
    timestamp: Option<&str>,
    signature: Option<&str>,
    body: &[u8],
    public_key: &[u8],
) -> (r: HandlerOutcome)
    ensures
        (timestamp is None || signature is None) ==> r is MalformedHeader,
        (r is Pong || r is Done || r is InvalidPayload) ==> (timestamp is Some && signature is Some),
        timestamp matches Some(ts) ==> signature matches Some(sg) ==> {
            &&& (r is MalformedHeader <==> !sig_header_ok(sg@))
            &&& sig_header_ok(sg@) ==> {
                let sb = hex_decode_chars(sg@);
                &&& (r is SignatureConstruction <==> !ed25519_sig_well_formed(sb))
                &&& (r is KeyRejected <==> ed25519_sig_well_formed(sb) && !ed25519_key_accepted(
                    public_key@,
                ))
                &&& (r is Unauthorized <==> ed25519_sig_well_formed(sb) && ed25519_key_accepted(
                    public_key@,
                ) && !ed25519_verifies(public_key@, sb, signed_message(ts, body@)))
                &&& (ed25519_sig_well_formed(sb) && ed25519_key_accepted(public_key@)
                    && ed25519_verifies(public_key@, sb, signed_message(ts, body@)))
                    ==> match json_of(body@) {
                        Some(v) => payload_outcome_ok(r@, v),
                        None => r is InvalidPayload,
                    }
            }
        },
{
    let ts: &str = match timestamp {
        Some(t) => t,
        None => {
            return HandlerOutcome::MalformedHeader;
        },
    };
    let sg: &str = match signature {
        Some(s) => s,
        None => {
            return HandlerOutcome::MalformedHeader;
        },
    };
    match verify_request(public_key, ts, body, sg) {
        SigCheck::MalformedHex => HandlerOutcome::MalformedHeader,
        SigCheck::Construction => HandlerOutcome::SignatureConstruction,
        SigCheck::BadKey => HandlerOutcome::KeyRejected,
        SigCheck::Mismatch => HandlerOutcome::Unauthorized,
        SigCheck::Valid => {
            match parse_json(body) {
                Some(v) => handle_payload(&v),
                None => HandlerOutcome::InvalidPayload,
            }
        },
    }
}

/// A payload whose integer `type` field is 1 is a ping and is answered with
/// the pong reply, whatever else the payload carries.
pub proof fn lemma_ping_always_pong(v: JsonValue, o: HandlerOutcomeView)
    requires
        int_field(v, "type"@) == Some(1i64),
        payload_outcome_ok(o, v),
    ensures
        o is Pong,
{
}

/// A command whose name is not `poll` is a no-op: an empty success with no
/// outbound call and no press record.
pub proof fn lemma_unknown_command_is_noop(v: JsonValue, o: HandlerOutcomeView)
    requires
        payload_outcome_ok(o, v),
        decode_spec(v) matches Ok(i) && i matches InteractionView::Command { id, token, data }
            && data.name != "poll"@,
    ensures
        o matches HandlerOutcomeView::Done { outbound, press } && outbound is None && press
            is None,
{
}

} // verus!
