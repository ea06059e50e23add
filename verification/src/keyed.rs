//! A map with text keys, kept in the order of its keys.
use vstd::prelude::*;

use crate::text::{is_before, same};

verus! {

/// Whether the keys ascend strictly.
pub open spec fn ascending(keys: Seq<Seq<char>>) -> bool {
    forall|i: int, j: int|
        0 <= i < j < keys.len() ==> crate::text::precedes(#[trigger] keys[i], #[trigger] keys[j])
}

/// The map that entries make up, where a later entry replaces an earlier one with
/// its key.
pub open spec fn map_of<T>(entries: Seq<(String, T)>) -> Map<Seq<char>, T>
    decreases entries.len(),
{
    if entries.len() == 0 {
        Map::empty()
    } else {
        map_of(entries.drop_last()).insert(entries.last().0@, entries.last().1)
    }
}

/// The keys of some entries.
pub open spec fn keys_of<T>(entries: Seq<(String, T)>) -> Seq<Seq<char>> {
    Seq::new(entries.len(), |i: int| entries[i].0@)
}

proof fn lemma_ascending_prefix<T>(entries: Seq<(String, T)>)
    requires
        entries.len() > 0,
        ascending(keys_of(entries)),
    ensures
        ascending(keys_of(entries.drop_last())),
{
    let k = keys_of(entries);
    let p = keys_of(entries.drop_last());
    assert(forall|i: int| 0 <= i < p.len() ==> p[i] == k[i]);
}

proof fn lemma_map_of<T>(entries: Seq<(String, T)>)
    requires
        ascending(keys_of(entries)),
    ensures
        forall|k: Seq<char>| #[trigger]
            map_of(entries).dom().contains(k) <==> keys_of(entries).contains(k),
        forall|i: int|
            0 <= i < entries.len() ==> map_of(entries)[(#[trigger] entries[i]).0@] == entries[i].1,
        map_of(entries).dom().finite(),
        map_of(entries).dom().len() == entries.len(),
    decreases entries.len(),
{
    if entries.len() > 0 {
        let p = entries.drop_last();
        let n = p.len() as int;
        let ke = keys_of(entries);
        lemma_ascending_prefix(entries);
        lemma_map_of(p);
        assert forall|i: int| 0 <= i < n implies ke[i] != ke[n] by {
            crate::text::law_order_total(ke[i], ke[n]);
        }
        assert forall|k: Seq<char>| #[trigger]
            map_of(entries).dom().contains(k) <==> ke.contains(k) by {
            if ke.contains(k) {
                let i = choose|i: int| 0 <= i < ke.len() && ke[i] == k;
                if i < n {
                    assert(keys_of(p)[i] == k);
                }
            }
            if map_of(entries).dom().contains(k) {
                if k == ke[n] {
                    assert(ke[n] == k);
                } else {
                    let i = choose|i: int| 0 <= i < keys_of(p).len() && keys_of(p)[i] == k;
                    assert(ke[i] == k);
                }
            }
        }
        assert forall|i: int| 0 <= i < entries.len() implies map_of(
            entries,
        )[(#[trigger] entries[i]).0@] == entries[i].1 by {
            if i < n {
                assert(p[i] == entries[i]);
                assert(ke[i] == entries[i].0@);
            }
        }
        assert(!keys_of(p).contains(ke[n])) by {
            if keys_of(p).contains(ke[n]) {
                let i = choose|i: int| 0 <= i < keys_of(p).len() && keys_of(p)[i] == ke[n];
                assert(ke[i] == ke[n]);
            }
        }
    }
}

/// A map with text keys.
pub struct KeyedMap<T> {
    entries: Vec<(String, T)>,
}

impl<T> View for KeyedMap<T> {
    type V = Map<Seq<char>, T>;

    closed spec fn view(&self) -> Map<Seq<char>, T> {
        map_of(self.entries@)
    }
}

impl<T> KeyedMap<T> {
    #[verifier::type_invariant]
    spec fn in_order(self) -> bool {
        ascending(keys_of(self.entries@))
    }

    /// The map without entries.
    pub fn new() -> (r: Self)
        ensures
            r@ == Map::<Seq<char>, T>::empty(),
    {
        KeyedMap { entries: Vec::new() }
    }

    /// The position of the first entry whose key does not come before `key`, and
    /// whether that key is `key`.
    fn position(&self, key: &str) -> (r: (usize, bool))
        ensures
            r.0 <= self.entries@.len(),
            forall|i: int|
                0 <= i < r.0 ==> crate::text::precedes(
                    (#[trigger] self.entries@[i]).0@,
                    key@,
                ),
            r.1 ==> r.0 < self.entries@.len() && self.entries@[r.0 as int].0@ == key@,
            !r.1 ==> forall|i: int|
                r.0 <= i < self.entries@.len() ==> crate::text::precedes(
                    key@,
                    (#[trigger] self.entries@[i]).0@,
                ),
            r.1 == self@.dom().contains(key@),
            r.1 ==> self@[key@] == self.entries@[r.0 as int].1,
    {
        proof {
            use_type_invariant(&*self);
            lemma_map_of(self.entries@);
        }
        let ghost ks = keys_of(self.entries@);
        let mut i: usize = 0;
        while i < self.entries.len()
            invariant
                i <= self.entries@.len(),
                ks == keys_of(self.entries@),
                ascending(ks),
                forall|j: int| 0 <= j < i ==> crate::text::precedes(#[trigger] ks[j], key@),
                forall|k: Seq<char>| #[trigger]
                    map_of(self.entries@).dom().contains(k) <==> ks.contains(k),
                forall|j: int|
                    0 <= j < self.entries@.len() ==> map_of(
                        self.entries@,
                    )[(#[trigger] self.entries@[j]).0@] == self.entries@[j].1,
            decreases self.entries@.len() - i,
        {
            assert(ks[i as int] == self.entries@[i as int].0@);
            if !is_before(self.entries[i].0.as_str(), key) {
                let found = same(self.entries[i].0.as_str(), key);
                proof {
                    crate::text::law_order_total(ks[i as int], key@);
                    assert(forall|j: int|
                        0 <= j < i ==> crate::text::precedes(
                            (#[trigger] self.entries@[j]).0@,
                            key@,
                        )) by {
                        assert forall|j: int| 0 <= j < i implies crate::text::precedes(
                            (#[trigger] self.entries@[j]).0@,
                            key@,
                        ) by {
                            assert(ks[j] == self.entries@[j].0@);
                        }
                    }
                    if !found {
                        assert forall|j: int|
                            i <= j < self.entries@.len() implies crate::text::precedes(
                            key@,
                            (#[trigger] self.entries@[j]).0@,
                        ) by {
                            assert(ks[j] == self.entries@[j].0@);
                            if j > i {
                                crate::text::law_order_transitive(key@, ks[i as int], ks[j]);
                            }
                        }
                        assert(!ks.contains(key@)) by {
                            if ks.contains(key@) {
                                let j = choose|j: int| 0 <= j < ks.len() && ks[j] == key@;
                                crate::text::law_order_total(key@, key@);
                                if j >= i {
                                    assert(self.entries@[j].0@ == key@);
                                }
                            }
                        }
                    }
                }
                return (i, found);
            }
            i = i + 1;
        }
        proof {
            assert forall|j: int| 0 <= j < i implies crate::text::precedes(
                (#[trigger] self.entries@[j]).0@,
                key@,
            ) by {
                assert(ks[j] == self.entries@[j].0@);
            }
            assert(!ks.contains(key@)) by {
                if ks.contains(key@) {
                    let j = choose|j: int| 0 <= j < ks.len() && ks[j] == key@;
                    crate::text::law_order_total(key@, key@);
                }
            }
        }
        (i, false)
    }

    /// What the map holds under `key`.
    pub fn get(&self, key: &str) -> (r: Option<&T>)
        ensures
            match r {
                Some(v) => self@.dom().contains(key@) && *v == self@[key@],
                None => !self@.dom().contains(key@),
            },
    {
        let (at, found) = self.position(key);
        if found {
            Some(&self.entries[at].1)
        } else {
            None
        }
    }

    /// Whether the map holds anything under `key`.
    pub fn contains_key(&self, key: &str) -> (r: bool)
        ensures
            r == self@.dom().contains(key@),
    {
        self.position(key).1
    }

    /// Puts a value under `key`, in place of what was there.
    pub fn insert(&mut self, key: String, value: T)
        ensures
            final(self)@ == old(self)@.insert(key@, value),
    {
        let (at, found) = self.position(key.as_str());
        proof {
            use_type_invariant(&*self);
            lemma_map_of(self.entries@);
        }
        let ghost before = self.entries@;
        let ghost k = key@;
        let mut entries: Vec<(String, T)> = Vec::new();
        std::mem::swap(&mut self.entries, &mut entries);
        if found {
            entries.remove(at);
        }
        entries.insert(at, (key, value));
        proof {
            let after = entries@;
            let rest = if found {
                before.remove(at as int)
            } else {
                before
            };
            assert(after == rest.insert(at as int, (key, value)));
            let kb = keys_of(before);
            let ka = keys_of(after);
            assert forall|i: int, j: int| 0 <= i < j < ka.len() implies crate::text::precedes(
                #[trigger] ka[i],
                #[trigger] ka[j],
            ) by {
                if i < at {
                    assert(ka[i] == before[i].0@ && kb[i] == ka[i]);
                } else if i > at {
                    let d: int = if found {
                        i
                    } else {
                        i - 1
                    };
                    assert(ka[i] == before[d].0@ && kb[d] == ka[i]);
                }
                if j < at {
                    assert(ka[j] == before[j].0@ && kb[j] == ka[j]);
                } else if j > at {
                    let d: int = if found {
                        j
                    } else {
                        j - 1
                    };
                    assert(ka[j] == before[d].0@ && kb[d] == ka[j]);
                    if i == at && found {
                        assert(kb[at as int] == k);
                    }
                }
            }
            lemma_map_of(after);
            let goal = map_of(before).insert(k, value);
            assert(map_of(after) =~= goal) by {
                assert forall|x: Seq<char>|
                    map_of(after).dom().contains(x) == goal.dom().contains(x) by {
                    if ka.contains(x) {
                        let i = choose|i: int| 0 <= i < ka.len() && ka[i] == x;
                        if i < at {
                            assert(kb[i] == x);
                        } else if i > at {
                            let d: int = if found {
                                i
                            } else {
                                i - 1
                            };
                            assert(kb[d] == x);
                        }
                    }
                    if kb.contains(x) && x != k {
                        let i = choose|i: int| 0 <= i < kb.len() && kb[i] == x;
                        if i < at {
                            assert(ka[i] == x);
                        } else if !found {
                            assert(ka[i + 1] == x);
                        } else {
                            assert(ka[i] == x);
                        }
                    }
                    if x == k {
                        assert(ka[at as int] == x);
                    }
                }
                assert forall|x: Seq<char>| map_of(after).dom().contains(x) implies map_of(
                    after,
                )[x] == goal[x] by {
                    let i = choose|i: int| 0 <= i < ka.len() && ka[i] == x;
                    assert(after[i].0@ == x);
                    if i < at {
                        assert(before[i] == after[i]);
                        crate::text::law_order_total(x, k);
                    } else if i > at {
                        let d: int = if found {
                            i
                        } else {
                            i - 1
                        };
                        assert(before[d] == after[i]);
                        crate::text::law_order_total(x, k);
                        assert(ka[at as int] == k);
                        assert(crate::text::precedes(ka[at as int], ka[i]));
                    }
                }
            }
        }
        self.entries = entries;
    }

    /// Takes out what the map holds under `key`.
    pub fn remove(&mut self, key: &str) -> (r: Option<T>)
        ensures
            final(self)@ == old(self)@.remove(key@),
            match r {
                Some(v) => old(self)@.dom().contains(key@) && v == old(self)@[key@],
                None => !old(self)@.dom().contains(key@),
            },
    {
        let (at, found) = self.position(key);
        proof {
            use_type_invariant(&*self);
            lemma_map_of(self.entries@);
        }
        if !found {
            assert(self@.remove(key@) =~= self@);
            return None;
        }
        let ghost before = self.entries@;
        let mut entries: Vec<(String, T)> = Vec::new();
        std::mem::swap(&mut self.entries, &mut entries);
        let (_, value) = entries.remove(at);
        proof {
            let after = entries@;
            let kb = keys_of(before);
            let ka = keys_of(after);
            assert(kb[at as int] == key@);
            assert forall|i: int, j: int| 0 <= i < j < ka.len() implies crate::text::precedes(
                #[trigger] ka[i],
                #[trigger] ka[j],
            ) by {
                let a: int = if i < at {
                    i
                } else {
                    i + 1
                };
                let b: int = if j < at {
                    j
                } else {
                    j + 1
                };
                assert(ka[i] == kb[a] && ka[j] == kb[b]);
            }
            lemma_map_of(after);
            let goal = map_of(before).remove(key@);
            assert(map_of(after) =~= goal) by {
                assert forall|x: Seq<char>|
                    map_of(after).dom().contains(x) == goal.dom().contains(x) by {
                    if ka.contains(x) {
                        let i = choose|i: int| 0 <= i < ka.len() && ka[i] == x;
                        let a: int = if i < at {
                            i
                        } else {
                            i + 1
                        };
                        assert(kb[a] == x);
                        crate::text::law_order_total(x, key@);
                        if i < at {
                            assert(crate::text::precedes(kb[a], kb[at as int]));
                        } else {
                            assert(crate::text::precedes(kb[at as int], kb[a]));
                        }
                    }
                    if kb.contains(x) && x != key@ {
                        let i = choose|i: int| 0 <= i < kb.len() && kb[i] == x;
                        if i < at {
                            assert(ka[i] == x);
                        } else {
                            assert(ka[i - 1] == x);
                        }
                    }
                }
                assert forall|x: Seq<char>| map_of(after).dom().contains(x) implies map_of(
                    after,
                )[x] == goal[x] by {
                    let i = choose|i: int| 0 <= i < ka.len() && ka[i] == x;
                    assert(after[i].0@ == x);
                    let a: int = if i < at {
                        i
                    } else {
                        i + 1
                    };
                    assert(before[a] == after[i]);
                    assert(map_of(before)[before[a].0@] == before[a].1);
                    assert(map_of(after)[after[i].0@] == after[i].1);
                    assert(goal.dom().contains(x));
                }
            }
        }
        self.entries = entries;
        Some(value)
    }

    /// The keys, in ascending order.
    pub fn keys(&self) -> (r: Vec<String>)
        ensures
            ascending(r.deep_view()),
            forall|k: Seq<char>| #[trigger] self@.dom().contains(k) <==> r.deep_view().contains(k),
    {
        proof {
            use_type_invariant(&*self);
            lemma_map_of(self.entries@);
        }
        let mut out: Vec<String> = Vec::new();
        let mut i: usize = 0;
        while i < self.entries.len()
            invariant
                i <= self.entries@.len(),
                out@.len() == i,
                forall|j: int| 0 <= j < i ==> (#[trigger] out@[j])@ == self.entries@[j].0@,
            decreases self.entries@.len() - i,
        {
            out.push(self.entries[i].0.clone());
            i = i + 1;
        }
        assert(out.deep_view() =~= keys_of(self.entries@));
        out
    }

    /// The number of entries.
    pub fn len(&self) -> (r: usize)
        ensures
            self@.dom().finite(),
            r == self@.dom().len(),
    {
        proof {
            use_type_invariant(&*self);
            lemma_map_of(self.entries@);
        }
        self.entries.len()
    }

    /// Whether there are no entries.
    pub fn is_empty(&self) -> (r: bool)
        ensures
            r == (self@.dom() == Set::<Seq<char>>::empty()),
    {
        proof {
            use_type_invariant(&*self);
            lemma_map_of(self.entries@);
            if self@.dom().len() == 0 {
                assert(self@.dom() =~= Set::empty());
            }
        }
        self.entries.len() == 0
    }
}

/// Ascending keys stand in order, and no key stands twice; one key is in order.
pub proof fn law_ascending(keys: Seq<Seq<char>>, key: Seq<char>, i: int, j: int)
    ensures
        ascending(seq![key]),
        ascending(keys) && 0 <= i < j < keys.len() ==> crate::text::precedes(keys[i], keys[j])
            && keys[i] != keys[j],
{
    if ascending(keys) && 0 <= i < j < keys.len() {
        crate::text::law_order_total(keys[i], keys[j]);
    }
}

} // verus!
