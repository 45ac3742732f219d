//! The verified half of the command bridge.
//!
//! Producers on arbitrary threads enqueue control requests and wake the
//! native loop; the loop thread drains the queue and is the only thread
//! that executes.  The runtime hands the drained batch to
//! [`drain_and_execute`], which resolves every command against the
//! current identity table: a command whose target is gone is dropped
//! silently — target-gone is a normal race, not an error — and every
//! other command becomes exactly one native action, in enqueue order.

use vstd::prelude::*;
use crate::identity::{IdentityTable, TrackedObject};

verus! {

/// A control request, carrying everything needed to execute without any
/// further native lookup besides re-resolving the target by its stable
/// domain identifier at drain time.
#[derive(Clone, Copy, Debug, PartialEq, Eq)]
pub enum Command {
    /// Set a scalar control of the object known as `domain_id` to `value`.
    SetControl { domain_id: u32, value: i32 },
    /// Ask the native subsystem to rescan its objects.
    Refresh,
}

/// A command resolved against the table, ready for the native call on the
/// loop thread.
#[derive(Clone, Copy, Debug, PartialEq, Eq)]
pub enum NativeAction {
    /// Apply `value` to the object currently bound to `domain_id`, whose
    /// session-local handle is `native_id`.
    SetControl { native_id: u32, domain_id: u32, value: i32 },
    /// Trigger a rescan.
    Rescan,
}

/// What one drain produced: the native actions in enqueue order, and how
/// many commands were dropped because their target had disappeared.
pub struct DrainOutcome {
    pub actions: Vec<NativeAction>,
    pub dropped: usize,
}

/// Does `c` resolve against table contents `m`?
pub open spec fn spec_resolves<R>(m: Map<u32, TrackedObject<R>>, c: Command) -> bool {
    match c {
        Command::SetControl { domain_id, .. } => exists|k: u32|
            m.contains_key(k) && #[trigger] m[k].domain_id == domain_id,
        Command::Refresh => true,
    }
}

/// Is `a` the native action for the resolvable command `c` under table
/// contents `m`?
pub open spec fn action_for<R>(m: Map<u32, TrackedObject<R>>, c: Command, a: NativeAction) -> bool {
    match c {
        Command::SetControl { domain_id, value } => match a {
            NativeAction::SetControl { native_id, domain_id: ad, value: av } => ad == domain_id
                && av == value && m.contains_key(native_id) && m[native_id].domain_id == domain_id,
            NativeAction::Rescan => false,
        },
        Command::Refresh => a is Rescan,
    }
}

/// Drain one batch of commands against the current table.
///
/// Every drained command is accounted for exactly once: it either became
/// one native action or was dropped because its target is gone — no loss
/// and no duplication, in enqueue order.
pub fn drain_and_execute<R>(commands: Vec<Command>, table: &IdentityTable<R>) -> (r: DrainOutcome)
    requires
        table.well_formed(),
    ensures
        r.actions@.len() + r.dropped == commands@.len(),
        r.actions@.len() == commands@.filter(|c: Command| spec_resolves(table@, c)).len(),
        forall|i: int| 0 <= i < r.actions@.len() ==> action_for(
            table@,
            commands@.filter(|c: Command| spec_resolves(table@, c))[i],
            #[trigger] r.actions@[i],
        ),
{
    let n = commands.len();
    let mut actions: Vec<NativeAction> = Vec::new();
    let mut dropped: usize = 0;
    let mut i: usize = 0;
    proof {
        reveal(Seq::filter);
        assert(commands@.take(0) =~= Seq::<Command>::empty());
    }
    while i < n
        invariant
            i <= n == commands@.len(),
            table.well_formed(),
            actions@.len() + dropped == i,
            actions@.len() == commands@.take(i as int).filter(
                |c: Command| spec_resolves(table@, c),
            ).len(),
            forall|j: int| 0 <= j < actions@.len() ==> action_for(
                table@,
                commands@.take(i as int).filter(|c: Command| spec_resolves(table@, c))[j],
                #[trigger] actions@[j],
            ),
        decreases n - i,
    {
        let c = commands[i];
        proof {
            reveal(Seq::filter);
            assert(commands@.take(i as int + 1).drop_last() =~= commands@.take(i as int));
            assert(commands@.take(i as int + 1).last() == commands@[i as int]);
        }
        match c {
            Command::SetControl { domain_id, value } => {
                match table.find_by_domain(domain_id) {
                    Some(e) => {
                        proof {
                            assert(table@.contains_key(e.native_id) && table@[e.native_id].domain_id
                                == domain_id);
                        }
                        actions.push(
                            NativeAction::SetControl { native_id: e.native_id, domain_id, value },
                        );
                    },
                    None => {
                        // the target disappeared between enqueue and drain:
                        // a normal race, resolved by a silent drop
                        dropped = dropped + 1;
                    },
                }
            },
            Command::Refresh => {
                actions.push(NativeAction::Rescan);
            },
        }
        i = i + 1;
    }
    proof {
        assert(commands@.take(n as int) =~= commands@);
    }
    DrainOutcome { actions, dropped }
}

} // verus!
