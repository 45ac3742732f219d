//! Listener lifecycle manager.
//!
//! One watcher per live native object, attached when the registry reports
//! an addition and detached — always before the identity table entry goes
//! — when it reports a removal.  A handle holds only the native key, a
//! weak back-reference: a callback resolves it through the table at
//! invocation time, so a callback that fires after its object was removed
//! is a safe, silent no-op, never a use after free.

use vstd::prelude::*;
use crate::identity::{IdentityTable, TrackedObject};

verus! {

/// A per-object watcher registration: only the native key, never an
/// owning reference to the table or the session.
#[derive(Clone, Copy, Debug, PartialEq, Eq, Structural)]
pub struct ListenerHandle {
    pub native_id: u32,
}

/// The set of native identifiers that currently have a watcher attached.
pub struct ListenerSet {
    attached: IdentityTable<()>,
}

impl View for ListenerSet {
    type V = Set<u32>;

    closed spec fn view(&self) -> Set<u32> {
        self.attached@.dom()
    }
}

impl ListenerSet {
    pub closed spec fn well_formed(&self) -> bool {
        self.attached.well_formed()
    }

    pub fn new() -> (s: Self)
        ensures
            s.well_formed(),
            s@ == Set::<u32>::empty(),
    {
        let s = ListenerSet { attached: IdentityTable::new() };
        proof {
            assert(s@ =~= Set::<u32>::empty());
        }
        s
    }

    /// Attach the watcher for `native_id`.  A second attach for the same
    /// live identifier is ignored — at most one listener per object, so
    /// no event is ever emitted twice.
    pub fn attach(&mut self, native_id: u32) -> (r: Option<ListenerHandle>)
        requires
            old(self).well_formed(),
        ensures
            final(self).well_formed(),
            final(self)@ == old(self)@.insert(native_id),
            r == (if old(self)@.contains(native_id) {
                None::<ListenerHandle>
            } else {
                Some(ListenerHandle { native_id })
            }),
    {
        match self.attached.get(native_id) {
            Some(_) => {
                proof {
                    assert(self@ =~= old(self)@.insert(native_id));
                }
                None
            },
            None => {
                self.attached.upsert(native_id, native_id, ());
                proof {
                    assert(self@ =~= old(self)@.insert(native_id));
                }
                Some(ListenerHandle { native_id })
            },
        }
    }

    /// Detach the watcher for `native_id`, reporting whether one was
    /// attached.  Detaching an unknown identifier is a no-op.
    pub fn detach(&mut self, native_id: u32) -> (r: bool)
        requires
            old(self).well_formed(),
        ensures
            final(self).well_formed(),
            final(self)@ == old(self)@.remove(native_id),
            r == old(self)@.contains(native_id),
    {
        let removed = self.attached.remove(native_id);
        proof {
            assert(self@ =~= old(self)@.remove(native_id));
        }
        match removed {
            Some(_) => true,
            None => false,
        }
    }

    /// Detach everything: session teardown.
    pub fn detach_all(&mut self)
        ensures
            final(self).well_formed(),
            final(self)@ == Set::<u32>::empty(),
    {
        self.attached.clear();
        proof {
            assert(self@ =~= Set::<u32>::empty());
        }
    }

    /// Is a watcher attached for `native_id`?
    pub fn is_attached(&self, native_id: u32) -> (r: bool)
        requires
            self.well_formed(),
        ensures
            r == self@.contains(native_id),
    {
        match self.attached.get(native_id) {
            Some(_) => true,
            None => false,
        }
    }
}

/// One connect-to-disconnect lifetime of the native loop: the identity
/// table and the watcher set it owns, kept in step — every watcher
/// references a live table entry.
pub struct Session<R> {
    table: IdentityTable<R>,
    listeners: ListenerSet,
}

impl<R> Session<R> {
    pub closed spec fn well_formed(&self) -> bool {
        &&& self.table.well_formed()
        &&& self.listeners.well_formed()
        &&& self.listeners@.subset_of(self.table@.dom())
    }

    /// The live objects.
    pub closed spec fn objects(&self) -> Map<u32, TrackedObject<R>> {
        self.table@
    }

    /// The native identifiers with an attached watcher.
    pub closed spec fn watchers(&self) -> Set<u32> {
        self.listeners@
    }

    pub fn new() -> (s: Self)
        ensures
            s.well_formed(),
            s.objects() == Map::<u32, TrackedObject<R>>::empty(),
            s.watchers() == Set::<u32>::empty(),
    {
        Session { table: IdentityTable::new(), listeners: ListenerSet::new() }
    }

    /// The registry reported an addition: track the object, then attach
    /// its watcher.
    pub fn on_added(&mut self, native_id: u32, domain_id: u32, record: R) -> (fresh: bool)
        requires
            old(self).well_formed(),
        ensures
            final(self).well_formed(),
            final(self).objects() == old(self).objects().insert(
                native_id,
                (TrackedObject { native_id, domain_id, record }),
            ),
            final(self).watchers() == old(self).watchers().insert(native_id),
            fresh == !old(self).objects().contains_key(native_id),
    {
        let prev = self.table.upsert(native_id, domain_id, record);
        self.listeners.attach(native_id);
        match prev {
            Some(_) => false,
            None => true,
        }
    }

    /// The registry reported a removal: detach the watcher first, then
    /// drop the table entry — a watcher must never outlive its entry's
    /// removal, and removal never reads through a watcher.
    pub fn on_removed(&mut self, native_id: u32) -> (r: Option<u32>)
        requires
            old(self).well_formed(),
        ensures
            final(self).well_formed(),
            final(self).objects() == old(self).objects().remove(native_id),
            final(self).watchers() == old(self).watchers().remove(native_id),
            r == (if old(self).objects().contains_key(native_id) {
                Some(old(self).objects()[native_id].domain_id)
            } else {
                None::<u32>
            }),
    {
        self.listeners.detach(native_id);
        self.table.remove(native_id)
    }

    /// A watcher callback fired: resolve the handle through the table.
    /// If the object was removed — or the whole session was torn down —
    /// since the callback was scheduled, nothing is delivered.
    pub fn deliver(&self, handle: ListenerHandle) -> (r: Option<&TrackedObject<R>>)
        requires
            self.well_formed(),
        ensures
            match r {
                Some(e) => self.objects().contains_key(handle.native_id) && *e
                    == self.objects()[handle.native_id],
                None => !self.objects().contains_key(handle.native_id),
            },
    {
        self.table.get(handle.native_id)
    }

    /// Session-fatal teardown: discard every watcher, then the whole
    /// table, in that order.  Afterwards no callback can observe state.
    pub fn teardown(&mut self)
        ensures
            final(self).well_formed(),
            final(self).objects() == Map::<u32, TrackedObject<R>>::empty(),
            final(self).watchers() == Set::<u32>::empty(),
    {
        self.listeners.detach_all();
        self.table.clear();
    }
}

/// Teardown ordering: once the session is torn down, no handle resolves
/// to anything — a late callback against the cleared table delivers
/// nothing, whatever object it once watched.
pub proof fn lemma_teardown_is_silent<R>(s: Session<R>, handle: ListenerHandle)
    requires
        s.objects() == Map::<u32, TrackedObject<R>>::empty(),
    ensures
        !s.objects().contains_key(handle.native_id),
{
}

} // verus!
