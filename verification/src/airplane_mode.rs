//! The aggregate radio-block signal: one boolean computed over the full
//! identity table of radio devices, recomputed on every relevant update.

use vstd::prelude::*;
use crate::identity::IdentityTable;

verus! {

/// The blocking state of one radio device.
#[derive(Clone, Copy, Debug, PartialEq, Eq, Structural)]
pub struct DeviceState {
    pub hard: bool,
    pub soft: bool,
}

/// Is the device blocked at all, in hardware or in software?
pub open spec fn spec_blocked(d: DeviceState) -> bool {
    d.hard || d.soft
}

/// Test that:
/// - There is at least one device
/// - All devices have either a hard or soft block active
///
/// An empty table is not airplane mode: with no radios there is nothing
/// switched off.
#[verifier::loop_isolation(false)]
pub fn is_airplane_mode(rfkill_state: &IdentityTable<DeviceState>) -> (r: bool)
    requires
        rfkill_state.well_formed(),
    ensures
        r == (rfkill_state@.dom().len() > 0 && forall|k: u32|
            rfkill_state@.contains_key(k) ==> spec_blocked(rfkill_state@[k].record)),
{
    let entries = rfkill_state.entries();
    let n = entries.len();
    if n == 0 {
        return false;
    }
    let mut i: usize = 0;
    while i < n
        invariant
            i <= n == entries@.len(),
            forall|j: int| 0 <= j < i ==> spec_blocked(#[trigger] entries@[j].record),
        decreases n - i,
    {
        let d = &entries[i].record;
        if !(d.hard || d.soft) {
            proof {
                assert(rfkill_state@.contains_key(entries@[i as int].native_id));
                assert(!spec_blocked(rfkill_state@[entries@[i as int].native_id].record));
            }
            return false;
        }
        i = i + 1;
    }
    proof {
        assert forall|k: u32| rfkill_state@.contains_key(k)
            implies spec_blocked(rfkill_state@[k].record) by {
            let j = choose|j: int| 0 <= j < entries@.len() && entries@[j].native_id == k;
            assert(spec_blocked(entries@[j].record));
        }
    }
    true
}

} // verus!
