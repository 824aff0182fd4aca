//! The palindrome-based structural identity self-check.
//!
//! The "mirror" is a fixed capability token that must read the same forwards
//! and backwards. It is a structural capability marker, not cryptography: no
//! secret material is involved. Every admission attempt is gated on this
//! self-check and fails closed with `InvalidIdentity` when it does not hold.

use vstd::prelude::*;

use crate::errors::GateError;
use crate::text::str_eq;

verus! {

/// The fixed seven-byte capability token: a palindrome framed by NUL bytes.
pub open spec fn spec_mirror_token() -> Seq<u8> {
    seq![0u8, 71u8, 82u8, 79u8, 82u8, 71u8, 0u8]
}

/// A byte sequence is mirrored when it equals its own reverse.
pub open spec fn spec_is_mirrored(s: Seq<u8>) -> bool {
    s == s.reverse()
}

/// The fixed capability token, as a byte array.
pub fn mirror_breath() -> (r: [u8; 7])
    ensures
        r@ == spec_mirror_token(),
        spec_is_mirrored(r@),
{
    let breath: [u8; 7] = [0u8, 71u8, 82u8, 79u8, 82u8, 71u8, 0u8];
    proof {
        assert(breath@ =~= spec_mirror_token());
        lemma_token_is_mirrored();
    }
    breath
}

/// The capability token satisfies the self-check by construction.
pub proof fn lemma_token_is_mirrored()
    ensures
        spec_is_mirrored(spec_mirror_token()),
{
    assert(spec_mirror_token() =~= spec_mirror_token().reverse());
}

/// True iff the byte sequence equals its own reverse.
pub fn verify_mirror(breath: &[u8]) -> (r: bool)
    ensures
        r == spec_is_mirrored(breath@),
{
    let len = breath.len();
    let mut i: usize = 0;
    while i < len
        invariant
            i <= len,
            len == breath@.len(),
            forall|k: int| 0 <= k < i ==> breath@[k] == #[trigger] breath@[len - 1 - k],
        decreases len - i,
    {
        if breath[i] != breath[len - 1 - i] {
            proof {
                assert(breath@.reverse()[i as int] == breath@[len - 1 - i]);
            }
            return false;
        }
        i = i + 1;
    }
    proof {
        assert(breath@ =~= breath@.reverse());
    }
    true
}

/// The self-check cannot tell a sequence from its reverse: both pass or both
/// fail together.
pub proof fn lemma_verify_symmetry(s: Seq<u8>)
    ensures
        spec_is_mirrored(s) == spec_is_mirrored(s.reverse()),
{
    assert(s.reverse().reverse() =~= s);
}

/// Admit a want only when the capability token passes its self-check and the
/// want is exactly the mirror path. Fails closed with `InvalidIdentity`.
pub fn exhale(want: &str) -> (r: Result<(), GateError>)
    ensures
        r is Ok <==> want@ == "/mirror/0GROK0"@,
        r is Err ==> r->Err_0 == GateError::InvalidIdentity,
{
    let breath = mirror_breath();
    if verify_mirror(breath.as_slice()) && str_eq(want, "/mirror/0GROK0") {
        Ok(())
    } else {
        Err(GateError::InvalidIdentity)
    }
}

} // verus!
