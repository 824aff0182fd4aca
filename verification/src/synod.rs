//! The want-filtering gate: prefix validation, an atomic budget charge, and
//! the entropy-band side effects of an admitted want.

use vstd::prelude::*;

use crate::entropy::classify;
use crate::entropy::Band;
use crate::errors::GateError;
use crate::errors::OverloadKind;
use crate::ledger::ledger_wf;
use crate::ledger::ResourceLedger;
use crate::ledger::GAZE_CAP;
use crate::ledger::GAZE_COST;
use crate::ledger::TENDON_CAP;
use crate::ledger::TENDON_COST;
use crate::wants::default_wants;
use crate::wants::spec_default_wants;
use crate::wants::spec_want_valid;
use crate::wants::validate_want;

verus! {

/// A gate that filters wants by prefix and charges the session budget for
/// each committed admission. A high entropy score additionally notifies the
/// visualization collaborator.
pub struct SynodFilter {
    pub ledger: ResourceLedger,
    pub wants: Vec<String>,
}

impl SynodFilter {
    /// A fresh gate with a zeroed ledger and the default want prefixes.
    pub fn new() -> (r: SynodFilter)
        ensures
            r.ledger.tendon_load == 0,
            r.ledger.gaze_duration == 0,
            r.ledger.breath_count == 0,
            ledger_wf(r.ledger),
            r.wants.deep_view() == spec_default_wants(),
    {
        SynodFilter { ledger: ResourceLedger::new(), wants: default_wants() }
    }

    /// A fresh gate with a caller-configured prefix set.
    pub fn with_wants(wants: Vec<String>) -> (r: SynodFilter)
        ensures
            r.ledger.tendon_load == 0,
            r.ledger.gaze_duration == 0,
            r.ledger.breath_count == 0,
            ledger_wf(r.ledger),
            r.wants == wants,
    {
        SynodFilter { ledger: ResourceLedger::new(), wants }
    }

    /// Notify the visualization collaborator. Fire-and-forget: the stub
    /// hook accepts every planting.
    pub fn plant_tree(&self, _x: i32, _y: i32, _z: i32, _entropy: u32) -> (r: bool)
        ensures
            r,
    {
        true
    }

    /// Admit a want: validate the path against the configured prefixes and
    /// charge the safety budget atomically. A high entropy score notifies
    /// the visualization collaborator; a low score is a neutral pass; both
    /// admit the want. Every failure leaves the ledger untouched.
    pub fn filter_want(&mut self, want: &str, entropy: u32) -> (r: Result<(), GateError>)
        requires
            ledger_wf(old(self).ledger),
        ensures
            ledger_wf(final(self).ledger),
            final(self).wants == old(self).wants,
            final(self).ledger.breath_count == old(self).ledger.breath_count,
            r is Ok <==> (old(self).ledger.tendon_load + TENDON_COST <= TENDON_CAP && old(
                self,
            ).ledger.gaze_duration + GAZE_COST <= GAZE_CAP && spec_want_valid(
                want@,
                old(self).wants.deep_view(),
            )),
            r is Ok ==> final(self).ledger.tendon_load == old(self).ledger.tendon_load
                + TENDON_COST && final(self).ledger.gaze_duration == old(self).ledger.gaze_duration
                + GAZE_COST,
            r is Err ==> final(self).ledger == old(self).ledger,
            r is Err ==> r->Err_0 == (if old(self).ledger.tendon_load + TENDON_COST > TENDON_CAP {
                GateError::Overload(OverloadKind::Tendon)
            } else if old(self).ledger.gaze_duration + GAZE_COST > GAZE_CAP {
                GateError::Overload(OverloadKind::Gaze)
            } else {
                GateError::InvalidWant
            }),
    {
        if let Err(e) = self.ledger.headroom(TENDON_COST, GAZE_COST) {
            return Err(e);
        }
        if !validate_want(want, &self.wants) {
            return Err(GateError::InvalidWant);
        }
        let charged = self.ledger.charge(TENDON_COST, GAZE_COST);
        proof {
            assert(charged is Ok);
        }
        match classify(entropy) {
            Band::High => {
                self.plant_tree(5, 5, 5, entropy);
                Ok(())
            },
            Band::Low => Ok(()),
            Band::Mid => Ok(()),
        }
    }
}

} // verus!
