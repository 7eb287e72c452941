//! A map from text keys to values that also knows its keys, so that it can
//! be swept by age.
use vstd::prelude::*;
use vstd::hash_map::StringHashMap;

verus! {

broadcast use {
    vstd::seq::group_seq_axioms,
    vstd::seq_lib::group_seq_properties,
    vstd::std_specs::vec::group_vec_axioms,
    vstd::set::group_set_axioms,
    vstd::set_lib::group_set_lib_default,
    vstd::map::group_map_axioms,
    vstd::hash_map::group_hash_map_axioms,
};

/// A value that records when it was made, in milliseconds since the epoch.
pub trait Stamped {
    spec fn stamp(&self) -> u64;

    fn created_at(&self) -> (r: u64)
        ensures
            r == self.stamp(),
    ;
}

/// How old an entry may become before a sweep drops it, in milliseconds.
pub const STALE_MS: u64 = 3_600_000;

/// An entry made at `stamp` is still fresh at `now`: less than an hour has
/// passed (a stamp in the future counts as no time passed).
pub open spec fn is_fresh(stamp: u64, now: u64) -> bool {
    (if now >= stamp {
        now - stamp
    } else {
        0
    }) < STALE_MS
}

#[verifier::reject_recursive_types(V)]
pub struct TextMap<V> {
    map: StringHashMap<V>,
    keys: Vec<String>,
}

pub open spec fn key_views(keys: Seq<String>) -> Seq<Seq<char>> {
    keys.map_values(|k: String| k@)
}

proof fn lemma_remove_index_set(s: Seq<Seq<char>>, i: int)
    requires
        s.no_duplicates(),
        0 <= i < s.len(),
    ensures
        s.remove(i).no_duplicates(),
        s.remove(i).to_set() =~= s.to_set().remove(s[i]),
{
    let r = s.remove(i);
    assert forall|a: int, b: int| 0 <= a < r.len() && 0 <= b < r.len() && a != b implies r[a]
        != r[b] by {
        let a2 = if a < i {
            a
        } else {
            a + 1
        };
        let b2 = if b < i {
            b
        } else {
            b + 1
        };
        assert(r[a] == s[a2] && r[b] == s[b2]);
    }
    assert forall|x: Seq<char>| r.to_set().contains(x) implies s.to_set().remove(s[i]).contains(
        x,
    ) by {
        let j = choose|j: int| 0 <= j < r.len() && r[j] == x;
        let j2 = if j < i {
            j
        } else {
            j + 1
        };
        assert(s[j2] == x);
    }
    assert forall|x: Seq<char>| s.to_set().remove(s[i]).contains(x) implies r.to_set().contains(
        x,
    ) by {
        let j = choose|j: int| 0 <= j < s.len() && s[j] == x;
        assert(j != i);
        let j2 = if j < i {
            j
        } else {
            j - 1
        };
        assert(r[j2] == x);
    }
}

impl<V> TextMap<V> {
    /// The key list holds each key of the map exactly once.
    pub closed spec fn wf(&self) -> bool {
        &&& key_views(self.keys@).no_duplicates()
        &&& self.map@.dom() =~= key_views(self.keys@).to_set()
    }

    pub closed spec fn contents(&self) -> Map<Seq<char>, V> {
        self.map@
    }

    pub fn new() -> (r: Self)
        ensures
            r.wf(),
            r.contents() == Map::<Seq<char>, V>::empty(),
    {
        let r = TextMap { map: StringHashMap::new(), keys: Vec::new() };
        assert(key_views(r.keys@) =~= Seq::<Seq<char>>::empty());
        r
    }

    pub fn get(&self, k: &str) -> (r: Option<&V>)
        ensures
            match r {
                Some(v) => self.contents().contains_key(k@) && *v == self.contents()[k@],
                None => !self.contents().contains_key(k@),
            },
    {
        self.map.get(k)
    }

    proof fn lemma_len(&self)
        requires
            self.wf(),
        ensures
            self.contents().dom().finite(),
            self.contents().len() == self.keys@.len(),
    {
        key_views(self.keys@).unique_seq_to_set();
    }

    pub fn len(&self) -> (r: usize)
        requires
            self.wf(),
        ensures
            r == self.contents().len(),
    {
        proof {
            self.lemma_len();
        }
        self.keys.len()
    }

    /// Sets the value of `k`, replacing any earlier one.
    pub fn insert(&mut self, k: String, v: V)
        requires
            old(self).wf(),
        ensures
            final(self).wf(),
            final(self).contents() == old(self).contents().insert(k@, v),
    {
        if !self.map.contains_key(k.as_str()) {
            let ghost before = key_views(self.keys@);
            self.keys.push(k.clone());
            proof {
                assert(key_views(self.keys@) =~= before.push(k@));
                assert(!before.contains(k@));
                before.lemma_push_to_set_commute(k@);
            }
        }
        self.map.insert(k, v);
    }

    /// Drops `k`; whether it was there.
    pub fn remove(&mut self, k: &str) -> (r: bool)
        requires
            old(self).wf(),
        ensures
            final(self).wf(),
            final(self).contents() == old(self).contents().remove(k@),
            r == old(self).contents().contains_key(k@),
    {
        if !self.map.contains_key(k) {
            assert(self.map@.remove(k@) =~= self.map@);
            return false;
        }
        let ghost ks = key_views(self.keys@);
        assert(ks.to_set().contains(k@));
        let mut i: usize = 0;
        while i < self.keys.len()
            invariant
                i <= self.keys@.len(),
                ks == key_views(self.keys@),
                ks.contains(k@),
                forall|j: int| 0 <= j < i ==> ks[j] != k@,
            ensures
                i <= self.keys@.len(),
                i < self.keys@.len() ==> ks[i as int] == k@,
                forall|j: int| 0 <= j < i ==> ks[j] != k@,
            decreases self.keys@.len() - i,
        {
            if crate::json::same_text(&self.keys[i], k) {
                break;
            }
            i = i + 1;
        }
        if i >= self.keys.len() {
            assert(false);
            return false;
        }
        assert(ks[i as int] == k@);
        self.keys.remove(i);
        proof {
            lemma_remove_index_set(ks, i as int);
            assert(key_views(self.keys@) =~= ks.remove(i as int));
        }
        self.map.remove(k);
        true
    }
}

impl<V: Stamped> TextMap<V> {
    /// Keeps only the entries that are fresh at `now`; how many were dropped.
    pub fn retain_fresh(&mut self, now: u64) -> (r: usize)
        requires
            old(self).wf(),
        ensures
            final(self).wf(),
            final(self).contents() == old(self).contents().restrict(
                old(self).contents().dom().filter(
                    |k: Seq<char>| is_fresh(old(self).contents()[k].stamp(), now),
                ),
            ),
            r == old(self).contents().len() - final(self).contents().len(),
    {
        let ghost orig = self.map@;
        let ghost ks = key_views(self.keys@);
        let n = self.keys.len();
        proof {
            self.lemma_len();
        }
        let mut kept: Vec<String> = Vec::new();
        let mut removed: usize = 0;
        let mut i: usize = 0;
        while i < n
            invariant
                i <= n,
                n == ks.len(),
                ks == key_views(self.keys@),
                ks.no_duplicates(),
                orig.dom() =~= ks.to_set(),
                forall|k: Seq<char>| #[trigger]
                    self.map@.contains_key(k) <==> (orig.contains_key(k) && (is_fresh(
                        orig[k].stamp(),
                        now,
                    ) || !ks.take(i as int).contains(k))),
                forall|k: Seq<char>| #[trigger] self.map@.contains_key(k) ==> self.map@[k] == orig[k],
                key_views(kept@).no_duplicates(),
                forall|k: Seq<char>| #[trigger]
                    key_views(kept@).contains(k) <==> (ks.take(i as int).contains(k) && is_fresh(
                        orig[k].stamp(),
                        now,
                    )),
                removed + kept@.len() == i,
            decreases n - i,
        {
            let k = &self.keys[i];
            let ghost kv = k@;
            assert(ks[i as int] == kv);
            assert(ks.take(i as int + 1) =~= ks.take(i as int).push(kv));
            assert(!ks.take(i as int).contains(kv));
            assert(orig.contains_key(kv));
            let v = self.map.get(k.as_str());
            let fresh = match v {
                Some(val) => {
                    let t = val.created_at();
                    now.saturating_sub(t) < STALE_MS
                },
                None => false,
            };
            assert(self.map@.contains_key(kv));
            assert(fresh == is_fresh(orig[kv].stamp(), now));
            if fresh {
                let ghost before = key_views(kept@);
                assert(!before.contains(kv));
                kept.push(k.clone());
                proof {
                    assert(key_views(kept@) =~= before.push(kv));
                    assert forall|x: Seq<char>| #[trigger] key_views(kept@).contains(x) <==> (ks.take(i as int + 1).contains(x) && is_fresh(orig[x].stamp(), now)) by {
                        if key_views(kept@).contains(x) && x != kv {
                            assert(before.contains(x));
                        }
                        if ks.take(i as int + 1).contains(x) && x != kv {
                            let j = choose|j: int| 0 <= j < i + 1 && #[trigger] ks.take(i as int + 1)[j] == x;
                            assert(ks.take(i as int)[j] == x);
                        }
                    }
                }
            } else {
                let kc = k.clone();
                self.map.remove(kc.as_str());
                removed = removed + 1;
            }
            i = i + 1;
        }
        proof {
            assert(ks.take(n as int) =~= ks);
            assert(self.map@ =~= orig.restrict(
                orig.dom().filter(|k: Seq<char>| is_fresh(orig[k].stamp(), now)),
            ));
            assert(self.map@.dom() =~= key_views(kept@).to_set());
            key_views(kept@).unique_seq_to_set();
            ks.unique_seq_to_set();
        }
        self.keys = kept;
        removed
    }
}

} // verus!
