//! The composite admission pipeline: identity self-check, want validation,
//! budget check, entropy classification, and the optional cost-metered
//! opcode dispatch, evaluated as one fail-closed attempt.
//!
//! An attempt either commits — every check passed and every charge is
//! applied together — or is rejected with the first failure's reason and
//! zero ledger mutation. A `High` band in the committed result is the
//! caller's high-focus signal, on which it fires the visualization hook.

use vstd::prelude::*;

use crate::entropy::classify;
use crate::entropy::spec_classify;
use crate::entropy::Band;
use crate::errors::GateError;
use crate::errors::OverloadKind;
use crate::ledger::ledger_wf;
use crate::ledger::ResourceLedger;
use crate::ledger::BREATH_CAP;
use crate::ledger::GAZE_CAP;
use crate::ledger::GAZE_COST;
use crate::ledger::TENDON_CAP;
use crate::ledger::TENDON_COST;
use crate::mirror::mirror_breath;
use crate::mirror::verify_mirror;
use crate::opcodes::registry_wf;
use crate::opcodes::spec_op_assigned;
use crate::opcodes::spec_op_cost;
use crate::opcodes::spec_op_name;
use crate::opcodes::OpcodeRegistry;
use crate::wants::spec_want_valid;
use crate::wants::validate_want;

verus! {

/// What a committed admission hands back: the entropy band of the attempt
/// and, when an opcode was targeted, the dispatched operation name.
pub struct Admitted {
    pub band: Band,
    pub op: Option<String>,
}

/// Every check an attempt must pass to commit.
pub open spec fn spec_admissible(
    ledger: ResourceLedger,
    wants: Seq<Seq<char>>,
    want: Seq<char>,
    opcode: Option<u8>,
) -> bool {
    &&& spec_want_valid(want, wants)
    &&& ledger.tendon_load + TENDON_COST <= TENDON_CAP
    &&& ledger.gaze_duration + GAZE_COST <= GAZE_CAP
    &&& (opcode matches Some(id) ==> id < 16 && spec_op_assigned(id as int)
        && ledger.breath_count + spec_op_cost(id as int) <= BREATH_CAP)
}

/// The rejection reason of a failed attempt, in check order: want, tendon
/// and gaze budget, opcode validity, breath cap.
pub open spec fn spec_rejection(
    ledger: ResourceLedger,
    wants: Seq<Seq<char>>,
    want: Seq<char>,
    opcode: Option<u8>,
) -> GateError {
    if !spec_want_valid(want, wants) {
        GateError::InvalidWant
    } else if ledger.tendon_load + TENDON_COST > TENDON_CAP {
        GateError::Overload(OverloadKind::Tendon)
    } else if ledger.gaze_duration + GAZE_COST > GAZE_CAP {
        GateError::Overload(OverloadKind::Gaze)
    } else if (opcode matches Some(id) && !(id < 16 && spec_op_assigned(id as int))) {
        GateError::InvalidOpcode
    } else {
        GateError::BreathCapExceeded
    }
}

/// Run one admission attempt through every gate. The identity token is
/// self-checked first; the want must match a configured prefix; the
/// standard tendon and gaze costs, and the opcode's breath cost where one
/// is targeted, must all fit under their ceilings; only then is the whole
/// charge committed, as one indivisible step. Every rejection leaves the
/// ledger untouched.
pub fn admit_want(
    ledger: &mut ResourceLedger,
    registry: &OpcodeRegistry,
    wants: &Vec<String>,
    want: &str,
    entropy: u32,
    opcode: Option<u8>,
) -> (r: Result<Admitted, GateError>)
    requires
        ledger_wf(*old(ledger)),
        registry_wf(*registry),
    ensures
        ledger_wf(*final(ledger)),
        r is Ok <==> spec_admissible(*old(ledger), wants.deep_view(), want@, opcode),
        r is Ok ==> {
            &&& final(ledger).tendon_load == old(ledger).tendon_load + TENDON_COST
            &&& final(ledger).gaze_duration == old(ledger).gaze_duration + GAZE_COST
            &&& final(ledger).breath_count == old(ledger).breath_count + (match opcode {
                Some(id) => spec_op_cost(id as int),
                None => 0,
            })
            &&& r->Ok_0.band == spec_classify(entropy)
            &&& (r->Ok_0.op is Some <==> opcode is Some)
            &&& (opcode matches Some(id) ==> r->Ok_0.op->0@ == spec_op_name(id as int))
        },
        r is Err ==> *final(ledger) == *old(ledger),
        r is Err ==> r->Err_0 == spec_rejection(
            *old(ledger),
            wants.deep_view(),
            want@,
            opcode,
        ),
{
    let breath = mirror_breath();
    if !verify_mirror(breath.as_slice()) {
        return Err(GateError::InvalidIdentity);
    }
    if !validate_want(want, wants) {
        return Err(GateError::InvalidWant);
    }
    if let Err(e) = ledger.headroom(TENDON_COST, GAZE_COST) {
        return Err(e);
    }
    let op: Option<String> = match opcode {
        Some(id) => {
            let slot = match registry.lookup(id) {
                Ok(slot) => slot,
                Err(e) => {
                    return Err(e);
                },
            };
            let cost: u32 = if slot.free {
                0
            } else {
                1
            };
            if ledger.breath_count + cost > BREATH_CAP {
                return Err(GateError::BreathCapExceeded);
            }
            let charged_breath = ledger.charge_breath(cost);
            proof {
                assert(charged_breath is Ok);
            }
            Some(slot.name)
        },
        None => None,
    };
    let charged = ledger.charge(TENDON_COST, GAZE_COST);
    proof {
        assert(charged is Ok);
    }
    let band = classify(entropy);
    Ok(Admitted { band, op })
}

} // verus!
