//! The deterministic entropy score and its three-band classification.
//!
//! The score is not randomness: it is a pure mixing function over a chain
//! id, an uptime value and the bytes of the identity token, reduced modulo
//! 10000, and must be reproduced bit-exactly for interoperability.

use vstd::prelude::*;

verus! {

/// Scores strictly above this bound classify as `High`.
pub const HIGH_FOCUS: u32 = 7000;

/// Scores strictly below this bound classify as `Low`.
pub const LOW_FOCUS: u32 = 5000;

/// The entropy band of a score: `Low` below 5000, `High` above 7000,
/// everything else `Mid`.
#[derive(Clone, Copy, Debug, PartialEq, Eq, Structural)]
pub enum Band {
    Low,
    Mid,
    High,
}

/// XOR of `acc` with every byte of `s`, in order.
pub open spec fn spec_xor_fold(acc: u32, s: Seq<u8>) -> u32
    decreases s.len(),
{
    if s.len() == 0 {
        acc
    } else {
        spec_xor_fold(acc ^ (s[0] as u32), s.drop_first())
    }
}

/// The deterministic entropy score: XOR the chain id and the uptime, fold in
/// every identity byte, and reduce modulo 10000.
pub open spec fn spec_mix(chain_id: u32, uptime: u32, identity: Seq<u8>) -> u32 {
    (spec_xor_fold(chain_id ^ uptime, identity) % 10000) as u32
}

/// The band a score falls in.
pub open spec fn spec_classify(score: u32) -> Band {
    if score > HIGH_FOCUS {
        Band::High
    } else if score < LOW_FOCUS {
        Band::Low
    } else {
        Band::Mid
    }
}

/// Compute the entropy score for a chain id, an uptime value and an identity
/// token.
pub fn mix(chain_id: u32, uptime: u32, identity: &[u8]) -> (r: u32)
    ensures
        r == spec_mix(chain_id, uptime, identity@),
        r < 10000,
{
    let mut acc: u32 = chain_id ^ uptime;
    let len = identity.len();
    proof {
        assert(identity@.subrange(0, len as int) =~= identity@);
    }
    let mut i: usize = 0;
    while i < len
        invariant
            i <= len,
            len == identity@.len(),
            spec_xor_fold(acc, identity@.subrange(i as int, len as int)) == spec_xor_fold(
                chain_id ^ uptime,
                identity@,
            ),
        decreases len - i,
    {
        proof {
            let rest = identity@.subrange(i as int, len as int);
            assert(rest[0] == identity@[i as int]);
            assert(rest.drop_first() =~= identity@.subrange(i as int + 1, len as int));
        }
        acc = acc ^ (identity[i] as u32);
        i = i + 1;
    }
    proof {
        assert(identity@.subrange(len as int, len as int) =~= Seq::<u8>::empty());
    }
    acc % 10000
}

/// Classify a score into its band.
pub fn classify(score: u32) -> (r: Band)
    ensures
        r == spec_classify(score),
{
    if score > HIGH_FOCUS {
        Band::High
    } else if score < LOW_FOCUS {
        Band::Low
    } else {
        Band::Mid
    }
}

} // verus!
