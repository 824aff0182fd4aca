//! The pulse-buffer sizing rule: how many confirmations a mode waits for,
//! scaled by the entropy the external entropy source supplies.

use vstd::prelude::*;

use crate::text::str_eq;

verus! {

/// Buffer for palindrome torrents, and the low-entropy fallback.
pub const MIN_BUFFER: u128 = 3;

/// Buffer for flash loans.
pub const LOAN_BUFFER: u128 = 72;

/// Buffer for trades.
pub const MAX_BUFFER: u128 = 144;

/// The enforced spacing bound a trade's entropy is held against.
pub const MAX_SPACING: u128 = 24 + 48 + 24;

/// The buffer a mode gets under a given entropy reading. Entropy at or
/// under the tension floor of ten million falls back to the minimum buffer
/// whatever the mode.
pub open spec fn spec_pulse(mode: Seq<char>, entropy: u128) -> u128 {
    if entropy <= 10000000 {
        MIN_BUFFER
    } else if mode == "torrent"@ {
        MIN_BUFFER
    } else if mode == "loan"@ {
        LOAN_BUFFER
    } else if mode == "trade"@ {
        if entropy >= MAX_SPACING {
            MAX_BUFFER
        } else {
            LOAN_BUFFER
        }
    } else if entropy > 7000 {
        MIN_BUFFER
    } else if entropy < 5000 {
        MAX_BUFFER
    } else {
        LOAN_BUFFER
    }
}

/// Pick the pulse buffer for a mode. The entropy reading comes from the
/// external entropy source; the caller hands it in.
pub fn pulse_buffer(mode: &str, entropy: u128) -> (r: u128)
    ensures
        r == spec_pulse(mode@, entropy),
{
    let tension: u128 = if entropy > 10000000 {
        entropy / 10
    } else {
        0
    };
    if tension == 0 {
        return MIN_BUFFER;
    }
    if str_eq(mode, "torrent") {
        MIN_BUFFER
    } else if str_eq(mode, "loan") {
        LOAN_BUFFER
    } else if str_eq(mode, "trade") {
        if entropy >= MAX_SPACING {
            MAX_BUFFER
        } else {
            LOAN_BUFFER
        }
    } else if entropy > 7000 {
        MIN_BUFFER
    } else if entropy < 5000 {
        MAX_BUFFER
    } else {
        LOAN_BUFFER
    }
}

} // verus!
