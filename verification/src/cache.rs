//! The result cache: a concurrent mapping from identifier to verdict,
//! with snapshot persistence.
//!
//! The mapping lives in a `dashmap::DashMap`, which synchronizes
//! internally; the map's contents are modeled by an abstract mapping from
//! identifier text to verdict model, and every operation's contract is
//! stated over that model.

use vstd::prelude::*;

use dashmap::DashMap;

use crate::codec::{
    decode_entries, lemma_encode_snapshot_push, lemma_pairs_to_map_of_cover,
    lemma_snapshot_round_trip, pairs_ok, pairs_to_map, push_entry, spec_decode_snapshot,
    spec_encode_snapshot, view_pairs,
};
use crate::status::{Status, StatusModel};
use crate::Identifier;

verus! {

#[verifier::external_type_specification]
#[verifier::external_body]
#[verifier::reject_recursive_types(K)]
#[verifier::reject_recursive_types(V)]
#[verifier::reject_recursive_types(S)]
pub struct ExDashMap<K, V, S>(DashMap<K, V, S>);

/// The contents of the shared map: which verdict model is stored under
/// which identifier text.
pub uninterp spec fn map_entries(m: DashMap<String, Status>) -> Map<Seq<char>, StatusModel>;

/// The empty contents.
pub open spec fn no_entries() -> Map<Seq<char>, StatusModel> {
    Map::empty()
}

/// Relies on `dashmap::DashMap::new`: the new map is empty.
#[verifier::external_body]
fn map_new() -> (r: DashMap<String, Status>)
    ensures
        map_entries(r) == no_entries(),
{
    DashMap::new()
}

/// Relies on `dashmap::DashMap::insert`: stores the value under the key
/// and returns the value previously stored there, if any.
#[verifier::external_body]
fn map_insert(m: &mut DashMap<String, Status>, key: String, value: Status) -> (r: Option<Status>)
    ensures
        map_entries(*final(m)) == map_entries(*old(m)).insert(key@, value@),
        match r {
            Some(prev) => map_entries(*old(m)).contains_key(key@) && prev@ == map_entries(
                *old(m),
            )[key@],
            None => !map_entries(*old(m)).contains_key(key@),
        },
{
    m.insert(key, value)
}

/// Relies on `dashmap::DashMap::get`: returns the value stored under the
/// key, if any.
#[verifier::external_body]
fn map_get(m: &DashMap<String, Status>, key: &str) -> (r: Option<Status>)
    ensures
        match r {
            Some(v) => map_entries(*m).contains_key(key@) && v@ == map_entries(*m)[key@],
            None => !map_entries(*m).contains_key(key@),
        },
{
    m.get(key).map(|entry| entry.value().clone())
}

/// Relies on `dashmap::DashMap::iter`: visits every entry exactly once,
/// in no particular order.
#[verifier::external_body]
fn map_entries_vec(m: &DashMap<String, Status>) -> (r: Vec<(String, Status)>)
    ensures
        forall|i: int|
            0 <= i < r@.len() ==> map_entries(*m).contains_pair(
                (#[trigger] r@[i]).0@,
                r@[i].1@,
            ),
        forall|i: int, j: int|
            0 <= i < j < r@.len() ==> (#[trigger] r@[i]).0@ != (#[trigger] r@[j]).0@,
        forall|k: Seq<char>|
            map_entries(*m).dom().contains(k) ==> exists|i: int|
                0 <= i < r@.len() && (#[trigger] r@[i]).0@ == k,
{
    m.iter().map(|entry| (entry.key().clone(), entry.value().clone())).collect()
}

/// The failure of `restore`: the snapshot text is malformed. A broken
/// snapshot is reported, never silently replaced by an empty cache.
#[derive(Debug, PartialEq, Eq, Structural)]
pub enum SnapshotError {
    /// The text is not a snapshot this crate wrote.
    Malformed,
}

/// The result cache: a mapping from identifier to verdict, shared by all
/// checking tasks of a run. The embedded map synchronizes its shards
/// internally.
pub struct Cache {
    map: DashMap<String, Status>,
}

impl View for Cache {
    type V = Map<Seq<char>, StatusModel>;

    closed spec fn view(&self) -> Map<Seq<char>, StatusModel> {
        map_entries(self.map)
    }
}

impl Cache {
    /// Every stored verdict is valid.
    pub open spec fn wf(self) -> bool {
        forall|k: Seq<char>|
            self@.dom().contains(k) ==> crate::status::status_model_wf(#[trigger] self@[k])
    }

    /// An empty cache.
    pub fn new() -> (r: Cache)
        ensures
            r@ == Map::<Seq<char>, StatusModel>::empty(),
            r.wf(),
    {
        Cache { map: map_new() }
    }

    /// The verdict stored for the identifier, if any. Does not itself
    /// trigger a check.
    pub fn lookup(&self, id: &Identifier) -> (r: Option<Status>)
        requires
            self.wf(),
        ensures
            match r {
                Some(v) => self@.contains_key(id@) && v@ == self@[id@] && v.wf(),
                None => !self@.contains_key(id@),
            },
    {
        let r = map_get(&self.map, id.as_str());
        proof {
            if r is Some {
                crate::status::lemma_wf_via_model(r->0);
            }
        }
        r
    }

    /// Stores the verdict under the identifier, inserting or
    /// overwriting, and returns the verdict previously stored there, if
    /// any.
    pub fn record(&mut self, id: &Identifier, verdict: Status) -> (r: Option<Status>)
        requires
            old(self).wf(),
            verdict.wf(),
        ensures
            final(self)@ == old(self)@.insert(id@, verdict@),
            final(self).wf(),
            match r {
                Some(prev) => old(self)@.contains_key(id@) && prev@ == old(self)@[id@],
                None => !old(self)@.contains_key(id@),
            },
    {
        proof {
            crate::status::lemma_wf_via_model(verdict);
        }
        map_insert(&mut self.map, id.as_str().to_owned(), verdict)
    }

    /// Serializes the full current contents into a snapshot text. The
    /// snapshot decodes back to exactly the cache's mapping.
    #[verifier::rlimit(100)]
    #[verifier::spinoff_prover]
    pub fn persist(&self) -> (r: String)
        requires
            self.wf(),
        ensures
            spec_decode_snapshot(r@, 0) is Some,
            pairs_to_map(spec_decode_snapshot(r@, 0)->0) == self@,
            ({
                let pairs = spec_decode_snapshot(r@, 0)->0;
                forall|i: int, j: int|
                    0 <= i < j < pairs.len() ==> (#[trigger] pairs[i]).0 != (
                    #[trigger] pairs[j]).0
            }),
    {
        let v = map_entries_vec(&self.map);
        let mut out: Vec<char> = Vec::new();
        let mut i: usize = 0;
        proof {
            assert(view_pairs(v@.take(0)) =~= Seq::<(Seq<char>, StatusModel)>::empty());
        }
        while i < v.len()
            invariant
                self.wf(),
                0 <= i <= v@.len(),
                forall|j: int|
                    0 <= j < v@.len() ==> self@.contains_pair((#[trigger] v@[j]).0@, v@[j].1@),
                out@ == spec_encode_snapshot(view_pairs(v@.take(i as int))),
                pairs_ok(view_pairs(v@.take(i as int))),
            decreases v@.len() - i,
        {
            let ghost taken = view_pairs(v@.take(i as int));
            let pair = &v[i];
            push_entry(&mut out, pair.0.as_str(), &pair.1);
            proof {
                let ghost x = (v@[i as int].0@, v@[i as int].1@);
                assert(v@.take(i + 1).drop_last() =~= v@.take(i as int));
                assert(view_pairs(v@.take(i + 1)) =~= taken.push(x));
                lemma_encode_snapshot_push(taken, x);
                assert(self@.contains_pair(x.0, x.1));
                assert(crate::status::status_model_wf(x.1));
                assert forall|j: int|
                    0 <= j < view_pairs(v@.take(i + 1)).len() implies {
                    &&& (#[trigger] view_pairs(v@.take(i + 1))[j]).0.len() <= usize::MAX
                    &&& crate::status::status_model_wf(view_pairs(v@.take(i + 1))[j].1)
                    &&& crate::codec::status_model_bounded(view_pairs(v@.take(i + 1))[j].1)
                } by {
                    if j < i {
                        assert(view_pairs(v@.take(i + 1))[j] == taken[j]);
                    } else {
                        assert(view_pairs(v@.take(i + 1))[j] == x);
                    }
                }
            }
            i = i + 1;
        }
        proof {
            assert(v@.take(v@.len() as int) =~= v@);
        }
        let ghost pairs = view_pairs(v@);
        proof {
            lemma_snapshot_round_trip(pairs);
            assert forall|j: int|
                0 <= j < pairs.len() implies self@.contains_pair(
                (#[trigger] pairs[j]).0,
                pairs[j].1,
            ) by {
                assert(pairs[j] == (v@[j].0@, v@[j].1@));
            }
            assert forall|i2: int, j2: int|
                0 <= i2 < j2 < pairs.len() implies (#[trigger] pairs[i2]).0 != (
            #[trigger] pairs[j2]).0 by {
                assert(pairs[i2].0 == v@[i2].0@);
                assert(pairs[j2].0 == v@[j2].0@);
            }
            assert forall|k: Seq<char>|
                self@.dom().contains(k) implies exists|i2: int|
                0 <= i2 < pairs.len() && (#[trigger] pairs[i2]).0 == k by {
                let i2 = choose|i2: int| 0 <= i2 < v@.len() && (#[trigger] v@[i2]).0@ == k;
                assert(pairs[i2].0 == k);
            }
            lemma_pairs_to_map_of_cover(pairs, self@);
        }
        let snap = crate::text::string_from_range(&out, 0, out.len());
        proof {
            assert(snap@ =~= out@);
            assert(snap@ == spec_encode_snapshot(pairs));
            assert(spec_decode_snapshot(snap@, 0) == Some(pairs));
        }
        snap
    }

    /// Deserializes a snapshot text into a fresh cache. Malformed text
    /// is an error, never a silently empty cache. On success the cache's
    /// mapping is exactly what the text decodes to, later entries
    /// overwriting earlier ones with the same identifier.
    pub fn restore(text: &str) -> (r: Result<Cache, SnapshotError>)
        ensures
            match r {
                Ok(c) => {
                    &&& spec_decode_snapshot(text@, 0) is Some
                    &&& c@ == pairs_to_map(spec_decode_snapshot(text@, 0)->0)
                    &&& c.wf()
                },
                Err(_) => spec_decode_snapshot(text@, 0) is None,
            },
    {
        let cs = crate::text::chars_of(text);
        let mut v = match decode_entries(&cs) {
            Option::Some(v) => v,
            Option::None => {
                return Err(SnapshotError::Malformed);
            },
        };
        let ghost pairs = view_pairs(v@);
        let mut c = Cache::new();
        let mut i: usize = 0;
        let n = v.len();
        proof {
            assert(view_pairs(v@.take(0)) =~= Seq::<(Seq<char>, StatusModel)>::empty());
        }
        while i < n
            invariant
                n == pairs.len(),
                v@.len() == n - i,
                0 <= i <= n,
                forall|j: int|
                    0 <= j < v@.len() ==> ((#[trigger] v@[j]).0@, v@[j].1@) == pairs[i + j],
                forall|j: int| 0 <= j < v@.len() ==> (#[trigger] v@[j]).1.wf(),
                c@ == pairs_to_map(pairs.take(i as int)),
                c.wf(),
            decreases n - i,
        {
            let ghost v0 = v@;
            let pair = v.remove(0);
            let ghost verdict_model = pair.1@;
            proof {
                assert((pair.0@, pair.1@) == pairs[i as int]);
                assert(pairs.take(i + 1).drop_last() =~= pairs.take(i as int));
            }
            let id = Identifier::new(pair.0);
            c.record(&id, pair.1);
            proof {
                assert(pairs.take(i + 1).last() == pairs[i as int]);
                assert forall|j: int|
                    0 <= j < v@.len() implies ((#[trigger] v@[j]).0@, v@[j].1@) == pairs[i + 1
                    + j] by {
                    assert(v@[j] == v0.remove(0)[j]);
                    assert(v0.remove(0)[j] == v0[j + 1]);
                }
                assert forall|j: int| 0 <= j < v@.len() implies (#[trigger] v@[j]).1.wf() by {
                    assert(v@[j] == v0[j + 1]);
                }
            }
            i = i + 1;
        }
        proof {
            assert(pairs.take(n as int) =~= pairs);
        }
        Ok(c)
    }
}

/// After storing a verdict, looking the identifier up finds exactly that
/// verdict, and every other identifier's entry is untouched, until
/// another store for the same identifier.
pub proof fn lemma_record_then_lookup(
    m: Map<Seq<char>, StatusModel>,
    i: Seq<char>,
    v: StatusModel,
    j: Seq<char>,
)
    ensures
        m.insert(i, v).contains_key(i),
        m.insert(i, v)[i] == v,
        j != i ==> m.insert(i, v).contains_key(j) == m.contains_key(j),
        j != i && m.contains_key(j) ==> m.insert(i, v)[j] == m[j],
{
}

} // verus!
