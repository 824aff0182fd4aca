//! The failure taxonomy of the admission gate.
//!
//! Every failure is terminal for the current attempt and is accompanied by
//! zero ledger mutation for that attempt; a caller may issue a new attempt
//! once ledger headroom exists.

use vstd::prelude::*;

verus! {

/// Which budget counter an admission attempt would have pushed past its
/// ceiling.
#[derive(Clone, Copy, Debug, PartialEq, Eq, Structural)]
pub enum OverloadKind {
    Tendon,
    Gaze,
}

/// One reason an admission attempt was rejected.
#[derive(Clone, Copy, Debug, PartialEq, Eq, Structural)]
pub enum GateError {
    /// The capability token failed its palindrome self-check.
    InvalidIdentity,
    /// The want path matched no recognized prefix.
    InvalidWant,
    /// Committing the attempt would push a safety-budget counter past its
    /// ceiling.
    Overload(OverloadKind),
    /// Charging a priced opcode would push the breath counter past its
    /// per-block cap.
    BreathCapExceeded,
    /// The opcode id is out of range or names an unassigned slot.
    InvalidOpcode,
    /// The requested streaming mode is not recognized.
    UnsupportedMode,
    /// The social relay refused the outgoing post.
    RelayFailure,
    /// No relay reply carried a handshake value.
    NoHandshakeReceived,
}

impl GateError {
    /// A fixed human-readable tag for the error, for callers that print.
    pub fn message(&self) -> (r: &'static str)
        ensures
            r@ == spec_message(*self),
    {
        match self {
            GateError::InvalidIdentity => "Invalid mirror",
            GateError::InvalidWant => "Invalid want",
            GateError::Overload(OverloadKind::Tendon) => "Tendon overload",
            GateError::Overload(OverloadKind::Gaze) => "Gaze overload",
            GateError::BreathCapExceeded => "Breath cap exceeded",
            GateError::InvalidOpcode => "Invalid opcode",
            GateError::UnsupportedMode => "Unsupported mode",
            GateError::RelayFailure => "Failed to post to relay",
            GateError::NoHandshakeReceived => "No reply received",
        }
    }
}

/// The tag `GateError::message` returns for each variant.
pub open spec fn spec_message(e: GateError) -> Seq<char> {
    match e {
        GateError::InvalidIdentity => "Invalid mirror"@,
        GateError::InvalidWant => "Invalid want"@,
        GateError::Overload(OverloadKind::Tendon) => "Tendon overload"@,
        GateError::Overload(OverloadKind::Gaze) => "Gaze overload"@,
        GateError::BreathCapExceeded => "Breath cap exceeded"@,
        GateError::InvalidOpcode => "Invalid opcode"@,
        GateError::UnsupportedMode => "Unsupported mode"@,
        GateError::RelayFailure => "Failed to post to relay"@,
        GateError::NoHandshakeReceived => "No reply received"@,
    }
}

} // verus!
