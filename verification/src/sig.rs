//! Request authentication: the detached Ed25519 signature, sent as a hex
//! header, must verify over the byte concatenation `timestamp ++ body` —
//! timestamp bytes first, no separator — under the platform's public key.

use vstd::prelude::*;
use vstd::string::*;
use core::convert::TryFrom;
use ed25519_dalek::Verifier;
use crate::text::{decode_hex, is_hex_str, hex_decode_chars, concat_bytes};

verus! {

/// Whether `pk` is a key that `ed25519_dalek::PublicKey::from_bytes`
/// accepts: 32 bytes naming a decompressible curve point. Beyond the length
/// this depends on the curve arithmetic, so it carries no definition.
pub uninterp spec fn ed25519_key_accepted(pk: Seq<u8>) -> bool;

/// Whether the Ed25519 signature `sig` verifies over `msg` under the public
/// key `pk`, as `ed25519_dalek::Verifier::verify` decides it: a pure
/// function of the three byte strings.
pub uninterp spec fn ed25519_verifies(pk: Seq<u8>, sig: Seq<u8>, msg: Seq<u8>) -> bool;

/// Whether `sig` passes `ed25519_dalek::Signature::try_from`: exactly 64
/// bytes, and the three highest bits of the scalar half clear.
pub open spec fn ed25519_sig_well_formed(sig: Seq<u8>) -> bool {
    sig.len() == 64 && sig[63] & 0xe0 == 0
}

/// How `ed25519_dalek` answered for one signature.
#[derive(Debug, Clone, Copy, PartialEq, Eq, Structural)]
enum DalekOutcome {
    SignatureRejected,
    KeyRejected,
    Accepted,
    Rejected,
}

/// Relies on `ed25519_dalek`, in its own order of checks:
/// `Signature::try_from` rejects exactly the byte strings that are not 64
/// bytes with the three highest scalar bits clear; `PublicKey::from_bytes`
/// rejects every byte string that is not 32 bytes, and 32-byte strings that
/// name no curve point; `Verifier::verify` then decides the Ed25519
/// equation, a pure function of key, signature and message bytes.
#[verifier::external_body]
fn dalek_verify(pk: &[u8], sig: &[u8], msg: &[u8]) -> (r: DalekOutcome)
    ensures
        r == DalekOutcome::SignatureRejected <==> !ed25519_sig_well_formed(sig@),
        r == DalekOutcome::KeyRejected <==> (ed25519_sig_well_formed(sig@) && !ed25519_key_accepted(pk@)),
        r == DalekOutcome::Accepted <==> (ed25519_sig_well_formed(sig@) && ed25519_key_accepted(pk@) && ed25519_verifies(pk@, sig@, msg@)),
        r == DalekOutcome::Rejected <==> (ed25519_sig_well_formed(sig@) && ed25519_key_accepted(pk@) && !ed25519_verifies(pk@, sig@, msg@)),
{
    let s = match ed25519_dalek::Signature::try_from(sig) {
        Ok(s) => s,
        Err(_) => return DalekOutcome::SignatureRejected,
    };
    let k = match ed25519_dalek::PublicKey::from_bytes(pk) {
        Ok(k) => k,
        Err(_) => return DalekOutcome::KeyRejected,
    };
    match k.verify(msg, &s) {
        Ok(()) => DalekOutcome::Accepted,
        Err(_) => DalekOutcome::Rejected,
    }
}

/// How one request authentication ended.
#[derive(Debug, Clone, Copy, PartialEq, Eq, Structural)]
pub enum SigCheck {
    /// The signature header is not 128 hexadecimal characters.
    MalformedHex,
    /// The verifier's signature object could not be built from the decoded
    /// bytes.
    Construction,
    /// The configured public key names no valid verification key.
    BadKey,
    /// The signature is well formed but does not verify over the signed
    /// bytes.
    Mismatch,
    /// The signature verifies.
    Valid,
}

/// Whether the signature header can be decoded at all: 64 bytes of hex.
pub open spec fn sig_header_ok(h: Seq<char>) -> bool {
    h.len() == 128 && is_hex_str(h)
}

/// The bytes the signature is checked over: the timestamp header's bytes,
/// then the raw body, with no separator.
pub open spec fn signed_message(timestamp: &str, body: Seq<u8>) -> Seq<u8> {
    timestamp.spec_bytes() + body
}

/// Decodes the platform's verification key from its configured hex form:
/// exactly 64 hexadecimal characters naming 32 bytes. Validated once at
/// startup; a malformed key is a configuration error and the process must
/// not serve traffic.
pub fn decode_verification_key(hex_key: &str) -> (r: Option<Vec<u8>>)
    ensures
        r is Some <==> (is_hex_str(hex_key@) && hex_key@.len() == 64),
        r matches Some(k) ==> k@ == hex_decode_chars(hex_key@) && k@.len() == 32,
{
    match decode_hex(hex_key) {
        Some(k) => {
            if k.len() == 32 {
                Some(k)
            } else {
                None
            }
        },
        None => None,
    }
}

/// Authenticates one request: decodes the signature header from hex and
/// checks the Ed25519 signature over `timestamp ++ body` under the given
/// public key. Each failure is distinguished from the others.
pub fn verify_request(public_key: &[u8], timestamp: &str, body: &[u8], signature_hex: &str) -> (r:
    SigCheck)
    ensures
        r is MalformedHex <==> !sig_header_ok(signature_hex@),
        sig_header_ok(signature_hex@) ==> {
            let sb = hex_decode_chars(signature_hex@);
            &&& (r is Construction <==> !ed25519_sig_well_formed(sb))
            &&& (r is BadKey <==> ed25519_sig_well_formed(sb) && !ed25519_key_accepted(
                public_key@,
            ))
            &&& (r is Valid <==> ed25519_sig_well_formed(sb) && ed25519_key_accepted(public_key@)
                && ed25519_verifies(public_key@, sb, signed_message(timestamp, body@)))
            &&& (r is Mismatch <==> ed25519_sig_well_formed(sb) && ed25519_key_accepted(
                public_key@,
            ) && !ed25519_verifies(public_key@, sb, signed_message(timestamp, body@)))
        },
{
    let sig_bytes: Vec<u8> = match decode_hex(signature_hex) {
        Some(b) => b,
        None => {
            return SigCheck::MalformedHex;
        },
    };
    if sig_bytes.len() != 64 {
        return SigCheck::MalformedHex;
    }
    let msg: Vec<u8> = concat_bytes(timestamp.as_bytes(), body);
    match dalek_verify(public_key, sig_bytes.as_slice(), msg.as_slice()) {
        DalekOutcome::SignatureRejected => SigCheck::Construction,
        DalekOutcome::KeyRejected => SigCheck::BadKey,
        DalekOutcome::Accepted => SigCheck::Valid,
        DalekOutcome::Rejected => SigCheck::Mismatch,
    }
}

} // verus!
