//! Verified core of a signed-webhook interaction endpoint: authentication of
//! inbound requests by detached Ed25519 signature, structural interpretation
//! of the interaction payload, routing to the matching handler, and
//! construction of the immediate reply and the outbound follow-up call.

pub mod text;
pub mod json;
pub mod interaction;
pub mod sig;
pub mod router;
pub mod poll;
pub mod handler;
