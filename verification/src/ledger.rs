//! The shared safety budget of a session.
//!
//! One `ResourceLedger` instance is shared by every admission gate of a
//! session. Each committed action charges the ledger as a single indivisible
//! check-then-apply step: if any counter would pass its ceiling the whole
//! charge is refused and no counter moves.

use vstd::prelude::*;

use crate::errors::GateError;
use crate::errors::OverloadKind;

verus! {

/// Ceiling of the simulated tendon-load budget.
pub const TENDON_CAP: u32 = 200;

/// Ceiling of the simulated gaze-duration budget.
pub const GAZE_CAP: u32 = 30000;

/// Per-block cap on the breath counter charged by priced opcodes.
pub const BREATH_CAP: u32 = 12;

/// Tendon cost charged for one committed admission.
pub const TENDON_COST: u32 = 10;

/// Gaze cost charged for one committed admission.
pub const GAZE_COST: u32 = 1000;

/// The monotone budget counters of one session.
///
/// Counters never decrease; they only grow by committed charges, and a
/// committed charge never pushes a counter past its ceiling.
#[derive(Clone, Copy, Debug, PartialEq, Eq, Structural)]
pub struct ResourceLedger {
    pub tendon_load: u32,
    pub gaze_duration: u32,
    pub breath_count: u32,
}

/// Every counter is at or under its ceiling.
pub open spec fn ledger_wf(l: ResourceLedger) -> bool {
    l.tendon_load <= TENDON_CAP && l.gaze_duration <= GAZE_CAP && l.breath_count <= BREATH_CAP
}

/// One charge step on the (tendon, gaze) totals: both costs are applied
/// together, or neither is.
pub open spec fn spec_charge_step(tendon: nat, gaze: nat, tendon_cost: nat, gaze_cost: nat) -> (
    nat,
    nat,
) {
    if tendon + tendon_cost <= TENDON_CAP && gaze + gaze_cost <= GAZE_CAP {
        ((tendon + tendon_cost) as nat, (gaze + gaze_cost) as nat)
    } else {
        (tendon, gaze)
    }
}

/// The (tendon, gaze) totals after a whole sequence of admission attempts.
pub open spec fn spec_charge_all(tendon: nat, gaze: nat, costs: Seq<(u32, u32)>) -> (nat, nat)
    decreases costs.len(),
{
    if costs.len() == 0 {
        (tendon, gaze)
    } else {
        let step = spec_charge_step(tendon, gaze, costs[0].0 as nat, costs[0].1 as nat);
        spec_charge_all(step.0, step.1, costs.drop_first())
    }
}

/// For any sequence of `charge` calls, the running totals of applied tendon
/// and gaze costs never exceed their ceilings: an attempt that would exceed
/// either ceiling is dropped whole, so the totals stay bounded forever.
pub proof fn lemma_budget_never_exceeded(tendon: nat, gaze: nat, costs: Seq<(u32, u32)>)
    requires
        tendon <= TENDON_CAP,
        gaze <= GAZE_CAP,
    ensures
        spec_charge_all(tendon, gaze, costs).0 <= TENDON_CAP,
        spec_charge_all(tendon, gaze, costs).1 <= GAZE_CAP,
    decreases costs.len(),
{
    if costs.len() > 0 {
        let step = spec_charge_step(tendon, gaze, costs[0].0 as nat, costs[0].1 as nat);
        lemma_budget_never_exceeded(step.0, step.1, costs.drop_first());
    }
}

impl ResourceLedger {
    /// A fresh ledger with all counters at zero.
    pub fn new() -> (r: ResourceLedger)
        ensures
            r.tendon_load == 0,
            r.gaze_duration == 0,
            r.breath_count == 0,
            ledger_wf(r),
    {
        ResourceLedger { tendon_load: 0, gaze_duration: 0, breath_count: 0 }
    }

    /// Test whether a tendon/gaze charge would fit under the ceilings,
    /// without applying anything.
    pub fn headroom(&self, tendon_cost: u32, gaze_cost: u32) -> (r: Result<(), GateError>)
        ensures
            r is Ok <==> (self.tendon_load + tendon_cost <= TENDON_CAP && self.gaze_duration
                + gaze_cost <= GAZE_CAP),
            r is Err ==> r->Err_0 == (if self.tendon_load + tendon_cost > TENDON_CAP {
                GateError::Overload(OverloadKind::Tendon)
            } else {
                GateError::Overload(OverloadKind::Gaze)
            }),
    {
        if (self.tendon_load as u64) + (tendon_cost as u64) > (TENDON_CAP as u64) {
            Err(GateError::Overload(OverloadKind::Tendon))
        } else if (self.gaze_duration as u64) + (gaze_cost as u64) > (GAZE_CAP as u64) {
            Err(GateError::Overload(OverloadKind::Gaze))
        } else {
            Ok(())
        }
    }

    /// Atomically charge one committed action against the tendon and gaze
    /// budgets: both counters move together, or neither does.
    pub fn charge(&mut self, tendon_cost: u32, gaze_cost: u32) -> (r: Result<(), GateError>)
        requires
            ledger_wf(*old(self)),
        ensures
            ledger_wf(*final(self)),
            final(self).breath_count == old(self).breath_count,
            (final(self).tendon_load as nat, final(self).gaze_duration as nat) == spec_charge_step(
                old(self).tendon_load as nat,
                old(self).gaze_duration as nat,
                tendon_cost as nat,
                gaze_cost as nat,
            ),
            r is Ok <==> (old(self).tendon_load + tendon_cost <= TENDON_CAP && old(
                self,
            ).gaze_duration + gaze_cost <= GAZE_CAP),
            r is Err ==> *final(self) == *old(self),
            r is Err ==> r->Err_0 == (if old(self).tendon_load + tendon_cost > TENDON_CAP {
                GateError::Overload(OverloadKind::Tendon)
            } else {
                GateError::Overload(OverloadKind::Gaze)
            }),
    {
        if (self.tendon_load as u64) + (tendon_cost as u64) > (TENDON_CAP as u64) {
            Err(GateError::Overload(OverloadKind::Tendon))
        } else if (self.gaze_duration as u64) + (gaze_cost as u64) > (GAZE_CAP as u64) {
            Err(GateError::Overload(OverloadKind::Gaze))
        } else {
            self.tendon_load = self.tendon_load + tendon_cost;
            self.gaze_duration = self.gaze_duration + gaze_cost;
            Ok(())
        }
    }

    /// Atomically charge a priced opcode against the per-block breath cap:
    /// the counter moves only when the whole cost fits under the cap.
    pub fn charge_breath(&mut self, cost: u32) -> (r: Result<(), GateError>)
        requires
            ledger_wf(*old(self)),
        ensures
            ledger_wf(*final(self)),
            final(self).tendon_load == old(self).tendon_load,
            final(self).gaze_duration == old(self).gaze_duration,
            r is Ok <==> old(self).breath_count + cost <= BREATH_CAP,
            r is Ok ==> final(self).breath_count == old(self).breath_count + cost,
            r is Err ==> *final(self) == *old(self) && r->Err_0 == GateError::BreathCapExceeded,
    {
        if (self.breath_count as u64) + (cost as u64) > (BREATH_CAP as u64) {
            Err(GateError::BreathCapExceeded)
        } else {
            self.breath_count = self.breath_count + cost;
            Ok(())
        }
    }
}

} // verus!
