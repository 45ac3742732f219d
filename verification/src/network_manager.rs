//! Wireless scan results: deduplicate the access points by network name,
//! keep the strongest sighting of each, and order them by strength.

use vstd::prelude::*;
use itertools::Itertools;

verus! {

/// The connection state of the wireless device the scan ran on, as the
/// network daemon enumerates it.
#[derive(Default, Clone, Copy, Debug, PartialEq, Eq, Structural)]
pub enum DeviceState {
    #[default]
    Unknown,
    Unmanaged,
    Unavailable,
    Disconnected,
    Prepare,
    Config,
    NeedAuth,
    IpConfig,
    IpCheck,
    Secondaries,
    Activated,
    Deactivating,
    Failed,
}

/// One sighted access point.
#[derive(Debug, Clone, PartialEq, Eq)]
pub struct AccessPoint {
    pub ssid: String,
    pub strength: u8,
    pub state: DeviceState,
    pub working: bool,
    pub path: String,
}

impl AccessPoint {
    /// A structurally equal copy.
    pub fn duplicate(&self) -> (r: Self)
        ensures
            r == *self,
    {
        AccessPoint {
            ssid: self.ssid.clone(),
            strength: self.strength,
            state: self.state,
            working: self.working,
            path: self.path.clone(),
        }
    }
}

/// No two points share a network name.
pub open spec fn distinct_ssids(s: Seq<AccessPoint>) -> bool {
    forall|i: int, j: int| 0 <= i < j < s.len() ==> s[i].ssid@ != s[j].ssid@
}

/// The scan results deduplicated by network name, front to back: a later
/// sighting replaces the kept one unless the kept one is strictly
/// stronger, so each name ends up with the last sighting of its maximal
/// strength.
pub open spec fn dedup_strongest(s: Seq<AccessPoint>) -> Seq<AccessPoint>
    decreases s.len(),
{
    if s.len() == 0 {
        Seq::empty()
    } else {
        let prev = dedup_strongest(s.drop_last());
        let a = s.last();
        if exists|j: int| 0 <= j < prev.len() && (#[trigger] prev[j]).ssid@ == a.ssid@ {
            let j = choose|j: int| 0 <= j < prev.len() && (#[trigger] prev[j]).ssid@ == a.ssid@;
            if prev[j].strength > a.strength {
                prev
            } else {
                prev.update(j, a)
            }
        } else {
            prev.push(a)
        }
    }
}

proof fn lemma_update_same_ssid_distinct(s: Seq<AccessPoint>, j: int, a: AccessPoint)
    requires
        distinct_ssids(s),
        0 <= j < s.len(),
        a.ssid@ == s[j].ssid@,
    ensures
        distinct_ssids(s.update(j, a)),
{
    let t = s.update(j, a);
    assert forall|i1: int, i2: int| 0 <= i1 < i2 < t.len() implies t[i1].ssid@ != t[i2].ssid@ by {
        assert(s[i1].ssid@ != s[i2].ssid@);
    }
}

proof fn lemma_push_fresh_distinct(s: Seq<AccessPoint>, a: AccessPoint)
    requires
        distinct_ssids(s),
        forall|l: int| 0 <= l < s.len() ==> (#[trigger] s[l]).ssid@ != a.ssid@,
    ensures
        distinct_ssids(s.push(a)),
{
    let t = s.push(a);
    assert forall|i1: int, i2: int| 0 <= i1 < i2 < t.len() implies t[i1].ssid@ != t[i2].ssid@ by {
        if i2 < s.len() {
            assert(s[i1].ssid@ != s[i2].ssid@);
        } else {
            assert(s[i1].ssid@ != a.ssid@);
        }
    }
}

/// Deduplication never keeps two sightings of one network.
pub proof fn lemma_dedup_distinct(s: Seq<AccessPoint>)
    ensures
        distinct_ssids(dedup_strongest(s)),
    decreases s.len(),
{
    if s.len() > 0 {
        lemma_dedup_distinct(s.drop_last());
        let prev = dedup_strongest(s.drop_last());
        let a = s.last();
        if exists|j: int| 0 <= j < prev.len() && (#[trigger] prev[j]).ssid@ == a.ssid@ {
            let j = choose|j: int| 0 <= j < prev.len() && (#[trigger] prev[j]).ssid@ == a.ssid@;
            if !(prev[j].strength > a.strength) {
                lemma_update_same_ssid_distinct(prev, j, a);
            }
        } else {
            lemma_push_fresh_distinct(prev, a);
        }
    }
}

proof fn lemma_dedup_sightings(s: Seq<AccessPoint>)
    ensures
        forall|k: int| 0 <= k < dedup_strongest(s).len() ==> s.contains(
            #[trigger] dedup_strongest(s)[k],
        ),
    decreases s.len(),
{
    if s.len() > 0 {
        let d = dedup_strongest(s);
        let p = s.drop_last();
        let prev = dedup_strongest(p);
        let a = s.last();
        lemma_dedup_sightings(p);
        assert forall|x: AccessPoint| p.contains(x) implies s.contains(x) by {
            let i = choose|i: int| 0 <= i < p.len() && p[i] == x;
            assert(s[i] == x);
        }
        assert(s.contains(a)) by {
            assert(s[s.len() - 1] == a);
        }
        if exists|j: int| 0 <= j < prev.len() && (#[trigger] prev[j]).ssid@ == a.ssid@ {
            let j = choose|j: int| 0 <= j < prev.len() && (#[trigger] prev[j]).ssid@ == a.ssid@;
            if prev[j].strength > a.strength {
            } else {
                assert forall|k: int| 0 <= k < d.len() implies s.contains(#[trigger] d[k]) by {
                    if k != j {
                        assert(d[k] == prev[k]);
                    } else {
                        assert(d[k] == a);
                    }
                }
            }
        } else {
            assert forall|k: int| 0 <= k < d.len() implies s.contains(#[trigger] d[k]) by {
                if k < prev.len() {
                    assert(d[k] == prev[k]);
                } else {
                    assert(d[k] == a);
                }
            }
        }
    }
}

proof fn lemma_dedup_covers(s: Seq<AccessPoint>)
    ensures
        forall|i: int| 0 <= i < s.len() ==> exists|k: int|
            0 <= k < dedup_strongest(s).len() && (#[trigger] dedup_strongest(s)[k]).ssid@ == (
            #[trigger] s[i]).ssid@,
    decreases s.len(),
{
    if s.len() > 0 {
        let d = dedup_strongest(s);
        let p = s.drop_last();
        let prev = dedup_strongest(p);
        let a = s.last();
        lemma_dedup_covers(p);
        if exists|j: int| 0 <= j < prev.len() && (#[trigger] prev[j]).ssid@ == a.ssid@ {
            let j = choose|j: int| 0 <= j < prev.len() && (#[trigger] prev[j]).ssid@ == a.ssid@;
            if prev[j].strength > a.strength {
                assert forall|i: int| 0 <= i < s.len() implies exists|k: int|
                    0 <= k < d.len() && (#[trigger] d[k]).ssid@ == (#[trigger] s[i]).ssid@ by {
                    if i < s.len() - 1 {
                        assert(s[i] == p[i]);
                    } else {
                        assert(d[j].ssid@ == s[i].ssid@);
                    }
                }
            } else {
                assert forall|i: int| 0 <= i < s.len() implies exists|k: int|
                    0 <= k < d.len() && (#[trigger] d[k]).ssid@ == (#[trigger] s[i]).ssid@ by {
                    if i < s.len() - 1 {
                        assert(s[i] == p[i]);
                        let k0 = choose|k0: int|
                            0 <= k0 < prev.len() && (#[trigger] prev[k0]).ssid@ == p[i].ssid@;
                        if k0 == j {
                            assert(d[j].ssid@ == a.ssid@);
                        } else {
                            assert(d[k0] == prev[k0]);
                        }
                    } else {
                        assert(d[j].ssid@ == s[i].ssid@);
                    }
                }
            }
        } else {
            assert forall|i: int| 0 <= i < s.len() implies exists|k: int|
                0 <= k < d.len() && (#[trigger] d[k]).ssid@ == (#[trigger] s[i]).ssid@ by {
                if i < s.len() - 1 {
                    assert(s[i] == p[i]);
                    let k0 = choose|k0: int|
                        0 <= k0 < prev.len() && (#[trigger] prev[k0]).ssid@ == p[i].ssid@;
                    assert(d[k0] == prev[k0]);
                } else {
                    assert(d[prev.len() as int].ssid@ == s[i].ssid@);
                }
            }
        }
    }
}

#[verifier::rlimit(50)]
#[verifier::spinoff_prover]
proof fn lemma_dedup_maximal(s: Seq<AccessPoint>)
    ensures
        forall|i: int, k: int|
            0 <= i < s.len() && 0 <= k < dedup_strongest(s).len() && (#[trigger] s[i]).ssid@ == (
            #[trigger] dedup_strongest(s)[k]).ssid@ ==> s[i].strength
                <= dedup_strongest(s)[k].strength,
    decreases s.len(),
{
    if s.len() > 0 {
        let d = dedup_strongest(s);
        let p = s.drop_last();
        let prev = dedup_strongest(p);
        let a = s.last();
        lemma_dedup_maximal(p);
        lemma_dedup_covers(p);
        lemma_dedup_distinct(p);
        if exists|j: int| 0 <= j < prev.len() && (#[trigger] prev[j]).ssid@ == a.ssid@ {
            let j = choose|j: int| 0 <= j < prev.len() && (#[trigger] prev[j]).ssid@ == a.ssid@;
            if prev[j].strength > a.strength {
                assert forall|i: int, k: int|
                    0 <= i < s.len() && 0 <= k < d.len() && (#[trigger] s[i]).ssid@ == (
                    #[trigger] d[k]).ssid@ implies s[i].strength <= d[k].strength by {
                    if i < s.len() - 1 {
                        assert(s[i] == p[i]);
                    } else {
                        if k != j {
                            assert(prev[k].ssid@ != prev[j].ssid@);
                        }
                    }
                }
            } else {
                assert forall|i: int, k: int|
                    0 <= i < s.len() && 0 <= k < d.len() && (#[trigger] s[i]).ssid@ == (
                    #[trigger] d[k]).ssid@ implies s[i].strength <= d[k].strength by {
                    if i < s.len() - 1 {
                        assert(s[i] == p[i]);
                        if k == j {
                            assert(p[i].ssid@ == prev[j].ssid@);
                            assert(p[i].strength <= prev[j].strength);
                        } else {
                            assert(d[k] == prev[k]);
                        }
                    } else {
                        if k != j {
                            assert(d[k] == prev[k]);
                            assert(prev[k].ssid@ != prev[j].ssid@);
                        }
                    }
                }
            }
        } else {
            assert forall|i: int, k: int|
                0 <= i < s.len() && 0 <= k < d.len() && (#[trigger] s[i]).ssid@ == (
                #[trigger] d[k]).ssid@ implies s[i].strength <= d[k].strength by {
                if k < prev.len() {
                    if i < s.len() - 1 {
                        assert(s[i] == p[i]);
                        assert(d[k] == prev[k]);
                    } else {
                        assert(prev[k].ssid@ == a.ssid@);
                    }
                } else {
                    assert(d[k] == a);
                    if i < s.len() - 1 {
                        assert(s[i] == p[i]);
                        let k0 = choose|k0: int|
                            0 <= k0 < prev.len() && (#[trigger] prev[k0]).ssid@ == p[i].ssid@;
                        assert(prev[k0].ssid@ == a.ssid@);
                    }
                }
            }
        }
    }
}

/// What deduplication keeps: only actual sightings, at least one per
/// sighted name, and for each name one that no sighting of that name
/// beats.  (Together with [`lemma_dedup_distinct`]: exactly one per
/// name, of maximal strength.)
pub proof fn lemma_dedup_keeps_strongest(s: Seq<AccessPoint>)
    ensures
        forall|k: int| 0 <= k < dedup_strongest(s).len() ==> s.contains(
            #[trigger] dedup_strongest(s)[k],
        ),
        forall|i: int| 0 <= i < s.len() ==> exists|k: int|
            0 <= k < dedup_strongest(s).len() && (#[trigger] dedup_strongest(s)[k]).ssid@ == (
            #[trigger] s[i]).ssid@,
        forall|i: int, k: int|
            0 <= i < s.len() && 0 <= k < dedup_strongest(s).len() && (#[trigger] s[i]).ssid@ == (
            #[trigger] dedup_strongest(s)[k]).ssid@ ==> s[i].strength
                <= dedup_strongest(s)[k].strength,
{
    lemma_dedup_sightings(s);
    lemma_dedup_covers(s);
    lemma_dedup_maximal(s);
}

proof fn lemma_dup_indices_count(s: Seq<AccessPoint>, a: int, b: int)
    requires
        0 <= a < b < s.len(),
        s[a] == s[b],
    ensures
        s.to_multiset().count(s[a]) >= 2,
{
    broadcast use vstd::seq_lib::group_to_multiset_ensures;

    let s0 = s.subrange(0, b);
    let s1 = s.subrange(b, s.len() as int);
    assert(s =~= s0 + s1);
    vstd::seq_lib::lemma_multiset_commutative(s0, s1);
    assert(s0[a] == s[a]);
    assert(s0.contains(s[a]));
    assert(s1[0] == s[b]);
    assert(s1.contains(s[b]));
}

/// Holding the same points keeps the names distinct: a reordering of a
/// deduplicated list is still deduplicated.
proof fn lemma_multiset_eq_preserves_distinct(r: Seq<AccessPoint>, d: Seq<AccessPoint>)
    requires
        r.to_multiset() == d.to_multiset(),
        distinct_ssids(d),
    ensures
        distinct_ssids(r),
{
    broadcast use vstd::seq_lib::group_to_multiset_ensures;

    assert forall|i: int, j: int| 0 <= i < j < r.len() implies r[i].ssid@ != r[j].ssid@ by {
        if r[i].ssid@ == r[j].ssid@ {
            if r[i] == r[j] {
                lemma_dup_indices_count(r, i, j);
                assert(d.no_duplicates()) by {
                    assert forall|a: int, b: int|
                        0 <= a < d.len() && 0 <= b < d.len() && a != b implies d[a] != d[b] by {
                        if a < b {
                            assert(d[a].ssid@ != d[b].ssid@);
                        } else {
                            assert(d[b].ssid@ != d[a].ssid@);
                        }
                    }
                }
                d.lemma_multiset_has_no_duplicates();
                assert(d.to_multiset().contains(r[i]));
            } else {
                assert(r.contains(r[i]) && r.contains(r[j]));
                assert(d.to_multiset().count(r[i]) > 0 && d.to_multiset().count(r[j]) > 0);
                assert(d.contains(r[i]) && d.contains(r[j]));
                let a = choose|a: int| 0 <= a < d.len() && d[a] == r[i];
                let b = choose|b: int| 0 <= b < d.len() && d[b] == r[j];
                if a < b {
                    assert(d[a].ssid@ != d[b].ssid@);
                } else {
                    assert(d[b].ssid@ != d[a].ssid@);
                }
            }
        }
    }
}

/// The kept sighting of `ssid`, if one is kept yet.
fn find_ssid(acc: &Vec<AccessPoint>, ssid: &String) -> (r: Option<usize>)
    ensures
        match r {
            Some(j) => j < acc@.len() && acc@[j as int].ssid@ == ssid@,
            None => forall|l: int| 0 <= l < acc@.len() ==> (#[trigger] acc@[l]).ssid@ != ssid@,
        },
{
    let n = acc.len();
    let mut k: usize = 0;
    while k < n
        invariant
            k <= n == acc@.len(),
            forall|l: int| 0 <= l < k ==> (#[trigger] acc@[l]).ssid@ != ssid@,
        decreases n - k,
    {
        if acc[k].ssid == *ssid {
            return Some(k);
        }
        k = k + 1;
    }
    None
}

/// Relies on `itertools::Itertools::sorted_by`, which collects the
/// points into a vector, sorts it with the comparator — `slice::sort_by`,
/// a stable sort — and yields the sorted elements: the result holds
/// exactly the given points, ordered by descending signal strength.
#[verifier::external_body]
fn sorted_by_strength(aps: Vec<AccessPoint>) -> (r: Vec<AccessPoint>)
    ensures
        r@.to_multiset() == aps@.to_multiset(),
        forall|i: int, j: int| 0 <= i < j < r@.len() ==> r@[i].strength >= r@[j].strength,
{
    aps.into_iter().sorted_by(|a, b| b.strength.cmp(&a.strength)).collect()
}

/// Deduplicate the scanned points by network name — keeping, for each
/// name, the last sighting of its maximal strength — and hand them out
/// ordered by descending strength.
#[verifier::loop_isolation(false)]
pub fn strongest_access_points(scanned: Vec<AccessPoint>) -> (r: Vec<AccessPoint>)
    ensures
        r@.to_multiset() == dedup_strongest(scanned@).to_multiset(),
        forall|i: int, j: int| 0 <= i < j < r@.len() ==> r@[i].strength >= r@[j].strength,
        distinct_ssids(r@),
{
    let n = scanned.len();
    let mut acc: Vec<AccessPoint> = Vec::new();
    let mut i: usize = 0;
    proof {
        assert(scanned@.take(0) =~= Seq::<AccessPoint>::empty());
    }
    while i < n
        invariant
            i <= n,
            acc@ == dedup_strongest(scanned@.take(i as int)),
            distinct_ssids(acc@),
        decreases n - i,
    {
        let ap = scanned[i].duplicate();
        proof {
            assert(scanned@.take(i as int + 1).drop_last() =~= scanned@.take(i as int));
            assert(scanned@.take(i as int + 1).last() == scanned@[i as int]);
        }
        match find_ssid(&acc, &ap.ssid) {
            Some(j) => {
                proof {
                    let prev = acc@;
                    let jc = choose|l: int| 0 <= l < prev.len() && (#[trigger] prev[l]).ssid@
                        == ap.ssid@;
                    if jc < j as int {
                        assert(prev[jc].ssid@ != prev[j as int].ssid@);
                    } else if jc > j as int {
                        assert(prev[j as int].ssid@ != prev[jc].ssid@);
                    }
                    assert(jc == j as int);
                }
                if acc[j].strength > ap.strength {
                    // an earlier, strictly stronger sighting stays
                } else {
                    proof {
                        lemma_update_same_ssid_distinct(acc@, j as int, ap);
                    }
                    acc.set(j, ap);
                }
            },
            None => {
                proof {
                    lemma_push_fresh_distinct(acc@, ap);
                }
                acc.push(ap);
            },
        }
        i = i + 1;
    }
    proof {
        assert(scanned@.take(n as int) =~= scanned@);
    }
    let sorted = sorted_by_strength(acc);
    proof {
        lemma_multiset_eq_preserves_distinct(sorted@, dedup_strongest(scanned@));
    }
    sorted
}

} // verus!
