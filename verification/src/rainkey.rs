//! The entropy-salting gate: validates a want, charges the shared safety
//! budget, and hands back the mixed entropy score.

use vstd::prelude::*;

use crate::entropy::spec_mix;
use crate::entropy::LOW_FOCUS;
use crate::errors::GateError;
use crate::errors::OverloadKind;
use crate::ledger::ledger_wf;
use crate::ledger::ResourceLedger;
use crate::ledger::GAZE_CAP;
use crate::ledger::GAZE_COST;
use crate::ledger::TENDON_CAP;
use crate::ledger::TENDON_COST;
use crate::mirror::mirror_breath;
use crate::mirror::spec_mirror_token;
use crate::wants::default_wants;
use crate::wants::spec_default_wants;
use crate::wants::spec_want_valid;
use crate::wants::validate_want;

verus! {

/// A gate that salts admitted wants with a deterministic entropy score,
/// charging the session budget for each committed admission.
pub struct RainKey {
    pub ledger: ResourceLedger,
    pub wants: Vec<String>,
}

/// The score `navi_salt` reports for an admitted want: zero for a low score
/// (the neutral, gray output), the score itself otherwise.
pub open spec fn spec_salt_value(e: u32) -> u32 {
    if e < LOW_FOCUS {
        0u32
    } else {
        e
    }
}

impl RainKey {
    /// A fresh gate with a zeroed ledger and the default want prefixes.
    pub fn new() -> (r: RainKey)
        ensures
            r.ledger.tendon_load == 0,
            r.ledger.gaze_duration == 0,
            r.ledger.breath_count == 0,
            ledger_wf(r.ledger),
            r.wants.deep_view() == spec_default_wants(),
    {
        RainKey { ledger: ResourceLedger::new(), wants: default_wants() }
    }

    /// The deterministic entropy score for a chain id, an uptime value and
    /// an identity token (the base time of the mix is a fixed zero).
    pub fn get_entropy(&self, chain_id: u32, uptime: u32, last_breath: &[u8]) -> (r: u32)
        ensures
            r == spec_mix(chain_id, uptime, last_breath@),
            r < 10000,
    {
        crate::entropy::mix(chain_id, uptime, last_breath)
    }

    /// Notify the visualization collaborator. Fire-and-forget: the stub
    /// hook accepts every planting.
    pub fn plant_tree(&self, _x: i32, _y: i32, _z: i32, _entropy: u32) -> (r: bool)
        ensures
            r,
    {
        true
    }

    /// Admit a want and salt it: validate the path against the configured
    /// prefixes, charge the safety budget atomically, then mix the entropy
    /// score from the chain id, a fixed uptime of 1000 and the capability
    /// token. A low score yields the neutral zero; otherwise the score
    /// itself is returned (a score above `HIGH_FOCUS` is the caller's
    /// high-focus signal). Every failure leaves the ledger untouched.
    pub fn navi_salt(&mut self, chain_id: u32, want: &str) -> (r: Result<u32, GateError>)
        requires
            ledger_wf(old(self).ledger),
        ensures
            ledger_wf(final(self).ledger),
            final(self).wants == old(self).wants,
            final(self).ledger.breath_count == old(self).ledger.breath_count,
            r is Ok <==> (old(self).ledger.tendon_load + TENDON_COST <= TENDON_CAP && old(
                self,
            ).ledger.gaze_duration + GAZE_COST <= GAZE_CAP && spec_want_valid(
                want@,
                old(self).wants.deep_view(),
            )),
            r is Ok ==> final(self).ledger.tendon_load == old(self).ledger.tendon_load
                + TENDON_COST && final(self).ledger.gaze_duration == old(self).ledger.gaze_duration
                + GAZE_COST,
            r is Ok ==> r->Ok_0 == spec_salt_value(spec_mix(chain_id, 1000, spec_mirror_token())),
            r is Err ==> final(self).ledger == old(self).ledger,
            r is Err ==> r->Err_0 == (if old(self).ledger.tendon_load + TENDON_COST > TENDON_CAP {
                GateError::Overload(OverloadKind::Tendon)
            } else if old(self).ledger.gaze_duration + GAZE_COST > GAZE_CAP {
                GateError::Overload(OverloadKind::Gaze)
            } else {
                GateError::InvalidWant
            }),
    {
        if let Err(e) = self.ledger.headroom(TENDON_COST, GAZE_COST) {
            return Err(e);
        }
        if !validate_want(want, &self.wants) {
            return Err(GateError::InvalidWant);
        }
        let breath = mirror_breath();
        let entropy = self.get_entropy(chain_id, 1000, breath.as_slice());
        self.plant_tree(5, 5, 5, entropy);
        let charged = self.ledger.charge(TENDON_COST, GAZE_COST);
        proof {
            assert(charged is Ok);
        }
        if entropy < LOW_FOCUS {
            Ok(0)
        } else {
            Ok(entropy)
        }
    }
}

} // verus!
