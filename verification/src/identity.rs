//! Object identity table: the authoritative map from a transient native
//! identifier to the stable domain record derived from it.
//!
//! A native identifier is only meaningful for the lifetime of one native
//! session; the domain identifier is derived from stable semantic
//! properties of the object, so reconnections do not look like a removal
//! followed by an addition.  The table is mutated only by the thread that
//! runs the native loop; everybody else observes it through the event
//! stream.

use vstd::prelude::*;

verus! {

/// One live native object: the transient native identifier, the stable
/// domain identifier, and the most recently normalized record.
pub struct TrackedObject<R> {
    pub native_id: u32,
    pub domain_id: u32,
    pub record: R,
}

/// The finite map described by a sequence of tracked objects, keyed by
/// native identifier; a later entry overrides an earlier one.
pub open spec fn entry_map<R>(s: Seq<TrackedObject<R>>) -> Map<u32, TrackedObject<R>>
    decreases s.len(),
{
    if s.len() == 0 {
        Map::empty()
    } else {
        entry_map(s.drop_last()).insert(s.last().native_id, s.last())
    }
}

/// No two entries of the sequence share a native identifier.
pub open spec fn distinct_native_ids<R>(s: Seq<TrackedObject<R>>) -> bool {
    forall|i: int, j: int| 0 <= i < j < s.len() ==> s[i].native_id != s[j].native_id
}

/// The identity table itself.  Lookup is linear: the table mirrors a
/// registry of a handful of audio or radio devices, not a database.
pub struct IdentityTable<R> {
    entries: Vec<TrackedObject<R>>,
}

impl<R> View for IdentityTable<R> {
    type V = Map<u32, TrackedObject<R>>;

    closed spec fn view(&self) -> Map<u32, TrackedObject<R>> {
        entry_map(self.entries@)
    }
}

proof fn lemma_entry_map_contains<R>(s: Seq<TrackedObject<R>>, k: u32)
    ensures
        entry_map(s).dom().finite(),
        entry_map(s).contains_key(k) <==> exists|i: int|
            0 <= i < s.len() && s[i].native_id == k,
    decreases s.len(),
{
    if s.len() > 0 {
        lemma_entry_map_contains(s.drop_last(), k);
        if s.last().native_id == k {
            assert(s[s.len() - 1].native_id == k);
        } else if entry_map(s.drop_last()).contains_key(k) {
            let i = choose|i: int| 0 <= i < s.drop_last().len() && s.drop_last()[i].native_id == k;
            assert(s[i].native_id == k);
        } else if exists|i: int| 0 <= i < s.len() && s[i].native_id == k {
            let i = choose|i: int| 0 <= i < s.len() && s[i].native_id == k;
            assert(s.drop_last()[i].native_id == k);
        }
    }
}

proof fn lemma_entry_map_index<R>(s: Seq<TrackedObject<R>>, i: int)
    requires
        distinct_native_ids(s),
        0 <= i < s.len(),
    ensures
        entry_map(s).contains_key(s[i].native_id),
        entry_map(s)[s[i].native_id] == s[i],
    decreases s.len(),
{
    if i == s.len() - 1 {
    } else {
        assert(s.drop_last()[i] == s[i]);
        lemma_entry_map_index(s.drop_last(), i);
        assert(s.last().native_id != s[i].native_id);
    }
}

proof fn lemma_entry_map_len<R>(s: Seq<TrackedObject<R>>)
    requires
        distinct_native_ids(s),
    ensures
        entry_map(s).dom().finite(),
        entry_map(s).dom().len() == s.len(),
    decreases s.len(),
{
    lemma_entry_map_contains(s, 0);
    if s.len() > 0 {
        lemma_entry_map_len(s.drop_last());
        lemma_entry_map_contains(s.drop_last(), s.last().native_id);
        assert(forall|i: int| 0 <= i < s.drop_last().len()
            ==> s.drop_last()[i] == s[i]);
        assert(!entry_map(s.drop_last()).contains_key(s.last().native_id));
        assert(entry_map(s).dom() =~= entry_map(s.drop_last()).dom().insert(s.last().native_id));
    }
}

proof fn lemma_entry_map_update<R>(s: Seq<TrackedObject<R>>, i: int, e: TrackedObject<R>)
    requires
        distinct_native_ids(s),
        0 <= i < s.len(),
        e.native_id == s[i].native_id,
    ensures
        entry_map(s.update(i, e)) =~= entry_map(s).insert(e.native_id, e),
    decreases s.len(),
{
    let t = s.update(i, e);
    if i == s.len() - 1 {
        assert(t.drop_last() =~= s.drop_last());
        assert(t.last() == e);
    } else {
        assert(t.drop_last() =~= s.drop_last().update(i, e));
        assert(s.drop_last()[i] == s[i]);
        lemma_entry_map_update(s.drop_last(), i, e);
        assert(t.last() == s.last());
        assert(s.last().native_id != e.native_id);
    }
}

proof fn lemma_entry_map_remove<R>(s: Seq<TrackedObject<R>>, i: int)
    requires
        distinct_native_ids(s),
        0 <= i < s.len(),
    ensures
        entry_map(s.remove(i)) =~= entry_map(s).remove(s[i].native_id),
    decreases s.len(),
{
    let k = s[i].native_id;
    let t = s.remove(i);
    if i == s.len() - 1 {
        assert(t =~= s.drop_last());
        lemma_entry_map_contains(s.drop_last(), k);
        assert(forall|j: int| 0 <= j < s.drop_last().len()
            ==> s.drop_last()[j] == s[j]);
        assert(!entry_map(s.drop_last()).contains_key(k));
    } else {
        assert(t.drop_last() =~= s.drop_last().remove(i));
        assert(s.drop_last()[i] == s[i]);
        lemma_entry_map_remove(s.drop_last(), i);
        assert(t.last() == s.last());
        assert(s.last().native_id != k);
    }
}

impl<R> IdentityTable<R> {
    /// Only the loop thread holds the table mutably; everything the
    /// contracts state is relative to this well-formedness condition.
    pub closed spec fn well_formed(&self) -> bool {
        distinct_native_ids(self.entries@)
    }

    /// An empty table: the state at the start of every native session.
    pub fn new() -> (t: Self)
        ensures
            t.well_formed(),
            t@ == Map::<u32, TrackedObject<R>>::empty(),
    {
        IdentityTable { entries: Vec::new() }
    }

    /// Index of the entry holding `native_id`, if the object is live.
    fn index_of(&self, native_id: u32) -> (r: Option<usize>)
        ensures
            match r {
                Some(i) => i < self.entries@.len() && self.entries@[i as int].native_id
                    == native_id,
                None => forall|i: int| 0 <= i < self.entries@.len()
                    ==> self.entries@[i].native_id != native_id,
            },
    {
        let mut i: usize = 0;
        while i < self.entries.len()
            invariant
                i <= self.entries@.len(),
                forall|j: int| 0 <= j < i ==> self.entries@[j].native_id != native_id,
            decreases self.entries@.len() - i,
        {
            if self.entries[i].native_id == native_id {
                return Some(i);
            }
            i = i + 1;
        }
        None
    }

    /// The number of live objects.
    pub fn len(&self) -> (n: usize)
        requires
            self.well_formed(),
        ensures
            n == self@.dom().len(),
    {
        proof {
            lemma_entry_map_len(self.entries@);
        }
        self.entries.len()
    }

    /// Look an object up by its native identifier.
    pub fn get(&self, native_id: u32) -> (r: Option<&TrackedObject<R>>)
        requires
            self.well_formed(),
        ensures
            match r {
                Some(e) => self@.contains_key(native_id) && *e == self@[native_id],
                None => !self@.contains_key(native_id),
            },
    {
        proof {
            lemma_entry_map_contains(self.entries@, native_id);
        }
        match self.index_of(native_id) {
            Some(i) => {
                proof {
                    lemma_entry_map_index(self.entries@, i as int);
                }
                Some(&self.entries[i])
            }
            None => None,
        }
    }

    /// Insert or update the object known natively as `native_id`.
    ///
    /// The first successful normalization of an object creates its entry;
    /// every later one updates the entry in place.  The result reports the
    /// previously stored domain identifier, so the caller can tell an
    /// addition (`None`) from an update without a second lookup.
    pub fn upsert(&mut self, native_id: u32, domain_id: u32, record: R) -> (prev: Option<u32>)
        requires
            old(self).well_formed(),
        ensures
            final(self).well_formed(),
            final(self)@ == old(self)@.insert(
                native_id,
                (TrackedObject { native_id, domain_id, record }),
            ),
            prev == (if old(self)@.contains_key(native_id) {
                Some(old(self)@[native_id].domain_id)
            } else {
                None::<u32>
            }),
            old(self)@.contains_key(native_id) ==> final(self)@.dom().len()
                == old(self)@.dom().len(),
            !old(self)@.contains_key(native_id) ==> final(self)@.dom().len()
                == old(self)@.dom().len() + 1,
    {
        let entry = TrackedObject { native_id, domain_id, record };
        proof {
            lemma_entry_map_contains(self.entries@, native_id);
            lemma_entry_map_len(self.entries@);
        }
        match self.index_of(native_id) {
            Some(i) => {
                proof {
                    lemma_entry_map_index(self.entries@, i as int);
                    lemma_entry_map_update(self.entries@, i as int, entry);
                }
                let prev_domain = self.entries[i].domain_id;
                self.entries.set(i, entry);
                proof {
                    lemma_entry_map_len(self.entries@);
                }
                Some(prev_domain)
            }
            None => {
                proof {
                    let s = self.entries@;
                    assert(s.push(entry).drop_last() =~= s);
                }
                self.entries.push(entry);
                proof {
                    lemma_entry_map_len(self.entries@);
                }
                None
            }
        }
    }

    /// Remove the object known natively as `native_id`, reporting the
    /// domain identifier it had.  Removing an unknown identifier is a
    /// no-op answered with `None`, never an error.
    pub fn remove(&mut self, native_id: u32) -> (r: Option<u32>)
        requires
            old(self).well_formed(),
        ensures
            final(self).well_formed(),
            final(self)@ == old(self)@.remove(native_id),
            r == (if old(self)@.contains_key(native_id) {
                Some(old(self)@[native_id].domain_id)
            } else {
                None::<u32>
            }),
            old(self)@.contains_key(native_id) ==> final(self)@.dom().len() + 1
                == old(self)@.dom().len(),
            !old(self)@.contains_key(native_id) ==> final(self)@ == old(self)@
                && final(self)@.dom().len() == old(self)@.dom().len(),
    {
        proof {
            lemma_entry_map_contains(self.entries@, native_id);
            lemma_entry_map_len(self.entries@);
        }
        match self.index_of(native_id) {
            Some(i) => {
                proof {
                    lemma_entry_map_index(self.entries@, i as int);
                    lemma_entry_map_remove(self.entries@, i as int);
                }
                let e = self.entries.remove(i);
                proof {
                    lemma_entry_map_len(self.entries@);
                }
                Some(e.domain_id)
            }
            None => {
                proof {
                    assert(self@ =~= self@.remove(native_id));
                }
                None
            }
        }
    }

    /// Discard every entry: session teardown resets the table wholesale.
    pub fn clear(&mut self)
        ensures
            final(self).well_formed(),
            final(self)@ == Map::<u32, TrackedObject<R>>::empty(),
    {
        self.entries.clear();
    }

    /// Look an object up by its stable domain identifier, as command
    /// execution re-resolves its target at drain time.  The target may
    /// have disappeared between enqueue and drain; `None` reports that.
    pub fn find_by_domain(&self, domain_id: u32) -> (r: Option<&TrackedObject<R>>)
        requires
            self.well_formed(),
        ensures
            match r {
                Some(e) => self@.contains_key(e.native_id) && self@[e.native_id] == *e
                    && e.domain_id == domain_id,
                None => forall|k: u32| self@.contains_key(k)
                    ==> self@[k].domain_id != domain_id,
            },
    {
        let n = self.entries.len();
        let mut i: usize = 0;
        while i < n
            invariant
                i <= n == self.entries@.len(),
                distinct_native_ids(self.entries@),
                forall|j: int| 0 <= j < i ==> self.entries@[j].domain_id != domain_id,
            decreases n - i,
        {
            if self.entries[i].domain_id == domain_id {
                proof {
                    lemma_entry_map_index(self.entries@, i as int);
                }
                return Some(&self.entries[i]);
            }
            i = i + 1;
        }
        proof {
            assert forall|k: u32| self@.contains_key(k)
                implies self@[k].domain_id != domain_id by {
                lemma_entry_map_contains(self.entries@, k);
                let j = choose|j: int| 0 <= j < self.entries@.len()
                    && self.entries@[j].native_id == k;
                lemma_entry_map_index(self.entries@, j);
            }
        }
        None
    }

    /// The live entries, for aggregate computations over the whole table.
    /// Every slot corresponds to exactly one key of the table's map view.
    pub fn entries(&self) -> (v: &Vec<TrackedObject<R>>)
        requires
            self.well_formed(),
        ensures
            v@.len() == self@.dom().len(),
            forall|i: int| 0 <= i < v@.len()
                ==> self@.contains_key(#[trigger] v@[i].native_id) && self@[v@[i].native_id]
                    == v@[i],
            forall|k: u32| self@.contains_key(k)
                ==> exists|i: int| 0 <= i < v@.len() && v@[i].native_id == k,
    {
        proof {
            lemma_entry_map_len(self.entries@);
            assert forall|i: int| 0 <= i < self.entries@.len()
                implies self@.contains_key(#[trigger] self.entries@[i].native_id)
                    && self@[self.entries@[i].native_id] == self.entries@[i] by {
                lemma_entry_map_index(self.entries@, i);
            }
            assert forall|k: u32| self@.contains_key(k)
                implies exists|i: int| 0 <= i < self.entries@.len()
                    && self.entries@[i].native_id == k by {
                lemma_entry_map_contains(self.entries@, k);
            }
        }
        &self.entries
    }
}

/// One registry signal as the loop thread observes it: a native object
/// appeared (or re-announced itself), or a native identifier went away.
pub enum TableSignal<R> {
    Add { native_id: u32, domain_id: u32, record: R },
    Remove { native_id: u32 },
}

/// The table state after one signal: an add upserts, a remove deletes.
pub open spec fn apply_signal<R>(
    m: Map<u32, TrackedObject<R>>,
    s: TableSignal<R>,
) -> Map<u32, TrackedObject<R>> {
    match s {
        TableSignal::Add { native_id, domain_id, record } => m.insert(
            native_id,
            TrackedObject { native_id, domain_id, record },
        ),
        TableSignal::Remove { native_id } => m.remove(native_id),
    }
}

/// The table state after a whole sequence of signals, applied in order.
pub open spec fn apply_signals<R>(
    m: Map<u32, TrackedObject<R>>,
    ss: Seq<TableSignal<R>>,
) -> Map<u32, TrackedObject<R>>
    decreases ss.len(),
{
    if ss.len() == 0 {
        m
    } else {
        apply_signal(apply_signals(m, ss.drop_last()), ss.last())
    }
}

/// How many adds in `ss` concern a native identifier that is not live at
/// the moment the add applies (adds for a live identifier update in place
/// and do not grow the table).
pub open spec fn accepted_adds<R>(m: Map<u32, TrackedObject<R>>, ss: Seq<TableSignal<R>>) -> nat
    decreases ss.len(),
{
    if ss.len() == 0 {
        0
    } else {
        accepted_adds(m, ss.drop_last()) + (match ss.last() {
            TableSignal::Add { native_id, .. } => if apply_signals(
                m,
                ss.drop_last(),
            ).contains_key(native_id) {
                0nat
            } else {
                1nat
            },
            TableSignal::Remove { .. } => 0nat,
        })
    }
}

/// How many removes in `ss` concern a native identifier that is live at
/// the moment the remove applies (removes of unknown identifiers are
/// no-ops).
pub open spec fn matched_removes<R>(m: Map<u32, TrackedObject<R>>, ss: Seq<TableSignal<R>>) -> nat
    decreases ss.len(),
{
    if ss.len() == 0 {
        0
    } else {
        matched_removes(m, ss.drop_last()) + (match ss.last() {
            TableSignal::Remove { native_id } => if apply_signals(
                m,
                ss.drop_last(),
            ).contains_key(native_id) {
                1nat
            } else {
                0nat
            },
            TableSignal::Add { .. } => 0nat,
        })
    }
}

/// For any sequence of native add and remove signals, the number of live
/// objects equals the number of accepted adds minus the number of removes
/// that matched a live native identifier; removes of unknown identifiers
/// never shrink the table, so the count never goes below zero.  (Stated
/// additively so every quantity is a plain cardinality.)
pub proof fn lemma_live_count<R>(m: Map<u32, TrackedObject<R>>, ss: Seq<TableSignal<R>>)
    requires
        m.dom().finite(),
    ensures
        apply_signals(m, ss).dom().finite(),
        apply_signals(m, ss).dom().len() + matched_removes(m, ss) == m.dom().len()
            + accepted_adds(m, ss),
    decreases ss.len(),
{
    if ss.len() > 0 {
        lemma_live_count(m, ss.drop_last());
        let prev = apply_signals(m, ss.drop_last());
        match ss.last() {
            TableSignal::Add { native_id, domain_id, record } => {
                assert(apply_signals(m, ss).dom() =~= prev.dom().insert(native_id));
            }
            TableSignal::Remove { native_id } => {
                assert(apply_signals(m, ss).dom() =~= prev.dom().remove(native_id));
            }
        }
    }
}

/// Two consecutive adds of the same native object leave the table exactly
/// as the first one did, and the object keeps its domain identifier.
pub proof fn lemma_upsert_idempotent<R>(
    m: Map<u32, TrackedObject<R>>,
    native_id: u32,
    domain_id: u32,
    record: R,
)
    ensures
        ({
            let s = TableSignal::Add { native_id, domain_id, record };
            let once = apply_signal(m, s);
            apply_signal(once, s) =~= once && once[native_id].domain_id == domain_id
        }),
{
}

} // verus!
