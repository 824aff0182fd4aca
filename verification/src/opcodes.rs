//! The canonical sixteen-slot opcode registry.
//!
//! A four-bit id maps to a name, a display color and a cost class. Ids 0
//! through 7 are free; id 8 and above are priced at one breath each.
//! Unassigned slots carry an empty name and are invalid targets, not valid
//! no-ops.

use vstd::prelude::*;

use crate::errors::GateError;
use crate::ledger::ledger_wf;
use crate::ledger::ResourceLedger;
use crate::ledger::BREATH_CAP;

verus! {

/// One slot of the registry.
pub struct OpcodeEntry {
    pub id: u8,
    pub name: String,
    pub color: String,
    pub free: bool,
}

/// The fixed sixteen-slot table.
pub struct OpcodeRegistry {
    pub entries: Vec<OpcodeEntry>,
}

/// The canonical name of each slot; unassigned slots are empty.
pub open spec fn spec_op_name(i: int) -> Seq<char> {
    if i == 0 {
        "mint"@
    } else if i == 1 {
        "burn"@
    } else if i == 2 {
        "stop"@
    } else if i == 3 {
        "limit"@
    } else if i == 4 {
        "arbitrage"@
    } else if i == 5 {
        "kappa"@
    } else if i == 6 {
        "market"@
    } else if i == 7 {
        "sell"@
    } else if i == 8 {
        "hold"@
    } else {
        Seq::<char>::empty()
    }
}

/// The canonical display color of each slot; slots without one are empty.
pub open spec fn spec_op_color(i: int) -> Seq<char> {
    if i == 2 {
        "#ff0000"@
    } else if i == 3 {
        "#8b4513"@
    } else if i == 4 {
        "#ffbf00"@
    } else if i == 5 {
        "#ffffff"@
    } else if i == 6 {
        "#00ffff"@
    } else if i == 7 {
        "#00ff00"@
    } else {
        Seq::<char>::empty()
    }
}

/// A slot is assigned iff its canonical name is non-empty.
pub open spec fn spec_op_assigned(i: int) -> bool {
    spec_op_name(i).len() > 0
}

/// The breath cost of a slot: free below 8, one breath from 8 up.
pub open spec fn spec_op_cost(i: int) -> u32 {
    if i < 8 {
        0u32
    } else {
        1u32
    }
}

/// Exactly the slots 0 through 8 are assigned.
pub proof fn lemma_assigned_ids()
    ensures
        forall|i: int| spec_op_assigned(i) <==> 0 <= i <= 8,
{
    reveal_strlit("mint");
    reveal_strlit("burn");
    reveal_strlit("stop");
    reveal_strlit("limit");
    reveal_strlit("arbitrage");
    reveal_strlit("kappa");
    reveal_strlit("market");
    reveal_strlit("sell");
    reveal_strlit("hold");
}

/// The registry holds the canonical table: sixteen slots, each carrying its
/// own id, its canonical name and color, and free exactly below id 8.
pub open spec fn registry_wf(r: OpcodeRegistry) -> bool {
    &&& r.entries.len() == 16
    &&& forall|i: int|
        0 <= i < 16 ==> {
            &&& (#[trigger] r.entries[i]).id == i
            &&& r.entries[i].name@ == spec_op_name(i)
            &&& r.entries[i].color@ == spec_op_color(i)
            &&& r.entries[i].free == (i < 8)
        }
}

/// Build one slot.
fn entry(id: u8, name: &str, color: &str, free: bool) -> (r: OpcodeEntry)
    ensures
        r.id == id,
        r.name@ == name@,
        r.color@ == color@,
        r.free == free,
{
    OpcodeEntry { id, name: String::from_str(name), color: String::from_str(color), free }
}

impl OpcodeRegistry {
    /// The canonical table, built once at startup and read-only thereafter.
    pub fn new() -> (r: OpcodeRegistry)
        ensures
            registry_wf(r),
    {
        let mut entries: Vec<OpcodeEntry> = Vec::new();
        entries.push(entry(0, "mint", "", true));
        entries.push(entry(1, "burn", "", true));
        entries.push(entry(2, "stop", "#ff0000", true));
        entries.push(entry(3, "limit", "#8b4513", true));
        entries.push(entry(4, "arbitrage", "#ffbf00", true));
        entries.push(entry(5, "kappa", "#ffffff", true));
        entries.push(entry(6, "market", "#00ffff", true));
        entries.push(entry(7, "sell", "#00ff00", true));
        entries.push(entry(8, "hold", "", false));
        entries.push(entry(9, "", "", false));
        entries.push(entry(10, "", "", false));
        entries.push(entry(11, "", "", false));
        entries.push(entry(12, "", "", false));
        entries.push(entry(13, "", "", false));
        entries.push(entry(14, "", "", false));
        entries.push(entry(15, "", "", false));
        let r = OpcodeRegistry { entries };
        proof {
            reveal_strlit("");
            assert(""@ =~= Seq::<char>::empty());
            assert(registry_wf(r));
        }
        r
    }

    /// Look a slot up by id. Fails with `InvalidOpcode` when the id is out
    /// of range or the slot is unassigned.
    pub fn lookup(&self, id: u8) -> (r: Result<OpcodeEntry, GateError>)
        requires
            registry_wf(*self),
        ensures
            r is Ok <==> (id < 16 && spec_op_assigned(id as int)),
            r is Ok ==> {
                &&& r->Ok_0.id == id
                &&& r->Ok_0.name@ == spec_op_name(id as int)
                &&& r->Ok_0.color@ == spec_op_color(id as int)
                &&& r->Ok_0.free == (id < 8)
            },
            r is Err ==> r->Err_0 == GateError::InvalidOpcode,
    {
        if id >= 16 {
            return Err(GateError::InvalidOpcode);
        }
        let slot = &self.entries[id as usize];
        if slot.name.as_str().is_empty() {
            return Err(GateError::InvalidOpcode);
        }
        Ok(
            OpcodeEntry {
                id: slot.id,
                name: slot.name.clone(),
                color: slot.color.clone(),
                free: slot.free,
            },
        )
    }

    /// Dispatch an opcode: look its slot up, charge its breath cost against
    /// the per-block cap as a single indivisible step, and return the
    /// operation name. Free slots (ids 0 through 7) leave the breath counter
    /// unchanged; the priced assigned slot charges exactly one breath,
    /// unless that would pass the cap, in which case the dispatch is
    /// rejected whole. Every failure leaves the ledger untouched.
    pub fn apply(&self, id: u8, ledger: &mut ResourceLedger) -> (r: Result<String, GateError>)
        requires
            registry_wf(*self),
            ledger_wf(*old(ledger)),
        ensures
            ledger_wf(*final(ledger)),
            final(ledger).tendon_load == old(ledger).tendon_load,
            final(ledger).gaze_duration == old(ledger).gaze_duration,
            r is Ok <==> (id < 16 && spec_op_assigned(id as int) && old(ledger).breath_count
                + spec_op_cost(id as int) <= BREATH_CAP),
            r is Ok ==> final(ledger).breath_count == old(ledger).breath_count + spec_op_cost(
                id as int,
            ),
            r is Ok ==> r->Ok_0@ == spec_op_name(id as int),
            r is Err ==> *final(ledger) == *old(ledger),
            r is Err ==> r->Err_0 == (if id < 16 && spec_op_assigned(id as int) {
                GateError::BreathCapExceeded
            } else {
                GateError::InvalidOpcode
            }),
    {
        let slot = match self.lookup(id) {
            Ok(slot) => slot,
            Err(e) => {
                return Err(e);
            },
        };
        let cost: u32 = if id < 8 {
            0
        } else {
            1
        };
        match ledger.charge_breath(cost) {
            Ok(()) => Ok(slot.name),
            Err(e) => Err(e),
        }
    }
}

} // verus!
