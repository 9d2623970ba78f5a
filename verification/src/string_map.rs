//! An insertion-ordered map from `String` keys to arbitrary values, backed by
//! a vector of key/value entries with pairwise-distinct keys.
//!
//! The abstract value of a `StringMap<V>` is a `Map<Seq<char>, V::V>` over the
//! deep views of the stored values, which is what every contract in this crate
//! speaks of.

use vstd::prelude::*;
use crate::strutil::str_eq;

verus! {

#[derive(Debug, PartialEq, Eq)]
struct Pair<V> {
    key: String,
    val: V,
}

/// The sequence of key views of a sequence of entries, in storage order.
spec fn keys_of<V>(pairs: Seq<Pair<V>>) -> Seq<Seq<char>> {
    pairs.map_values(|p: Pair<V>| p.key@)
}

/// The map denoted by a sequence of entries; a later entry for the same key
/// would win, though well-formed maps never hold two entries for one key.
spec fn map_of<V: DeepView>(pairs: Seq<Pair<V>>) -> Map<Seq<char>, V::V>
    decreases pairs.len(),
{
    if pairs.len() == 0 {
        Map::empty()
    } else {
        map_of(pairs.drop_last()).insert(pairs.last().key@, pairs.last().val.deep_view())
    }
}

#[derive(Debug, PartialEq, Eq)]
pub struct StringMap<V: DeepView> {
    pairs: Vec<Pair<V>>,
}

impl<V: DeepView> View for StringMap<V> {
    type V = Map<Seq<char>, V::V>;

    closed spec fn view(&self) -> Map<Seq<char>, V::V> {
        map_of(self.pairs@)
    }
}

impl<V: DeepView> DeepView for StringMap<V> {
    type V = Map<Seq<char>, V::V>;

    open spec fn deep_view(&self) -> Map<Seq<char>, V::V> {
        self.view()
    }
}

proof fn lemma_map_of_contains<V: DeepView>(pairs: Seq<Pair<V>>, k: Seq<char>)
    ensures
        map_of(pairs).contains_key(k) <==> (exists|i: int|
            0 <= i < pairs.len() && (#[trigger] pairs[i]).key@ == k),
    decreases pairs.len(),
{
    if pairs.len() > 0 {
        lemma_map_of_contains(pairs.drop_last(), k);
        if pairs.last().key@ != k && map_of(pairs).contains_key(k) {
            let i = choose|i: int|
                0 <= i < pairs.drop_last().len() && (#[trigger] pairs.drop_last()[i]).key@ == k;
            assert(pairs[i].key@ == k);
        }
        if exists|i: int| 0 <= i < pairs.len() && (#[trigger] pairs[i]).key@ == k {
            let i = choose|i: int| 0 <= i < pairs.len() && (#[trigger] pairs[i]).key@ == k;
            if i < pairs.len() - 1 {
                assert(pairs.drop_last()[i].key@ == k);
            }
        }
    }
}

proof fn lemma_map_of_index<V: DeepView>(pairs: Seq<Pair<V>>, i: int)
    requires
        keys_of(pairs).no_duplicates(),
        0 <= i < pairs.len(),
    ensures
        map_of(pairs).contains_key(pairs[i].key@),
        map_of(pairs)[pairs[i].key@] == pairs[i].val.deep_view(),
    decreases pairs.len(),
{
    assert(keys_of(pairs.drop_last()) =~= keys_of(pairs).drop_last());
    if i < pairs.len() - 1 {
        assert(keys_of(pairs)[i] != keys_of(pairs)[pairs.len() - 1]);
        lemma_map_of_index(pairs.drop_last(), i);
        assert(pairs.drop_last()[i] == pairs[i]);
    }
}

proof fn lemma_map_of_dom<V: DeepView>(pairs: Seq<Pair<V>>)
    ensures
        map_of(pairs).dom() =~= keys_of(pairs).to_set(),
        map_of(pairs).dom().finite(),
    decreases pairs.len(),
{
    assert forall|k: Seq<char>|
        map_of(pairs).contains_key(k) <==> keys_of(pairs).to_set().contains(k) by {
        lemma_map_of_contains(pairs, k);
        if keys_of(pairs).to_set().contains(k) {
            let i = choose|i: int| 0 <= i < keys_of(pairs).len() && keys_of(pairs)[i] == k;
            assert(pairs[i].key@ == k);
        }
        if exists|i: int| 0 <= i < pairs.len() && (#[trigger] pairs[i]).key@ == k {
            let i = choose|i: int| 0 <= i < pairs.len() && (#[trigger] pairs[i]).key@ == k;
            assert(keys_of(pairs)[i] == k);
        }
    }
    broadcast use vstd::seq_lib::seq_to_set_is_finite;

    assert(map_of(pairs).dom() == keys_of(pairs).to_set());
}

proof fn lemma_map_of_len<V: DeepView>(pairs: Seq<Pair<V>>)
    requires
        keys_of(pairs).no_duplicates(),
    ensures
        map_of(pairs).dom().finite(),
        map_of(pairs).dom().len() == pairs.len(),
{
    lemma_map_of_dom(pairs);
    keys_of(pairs).unique_seq_to_set();
}

/// Replacing the value of the entry at `i` updates the map at that entry's key.
proof fn lemma_map_of_update<V: DeepView>(pairs: Seq<Pair<V>>, i: int, p: Pair<V>)
    requires
        keys_of(pairs).no_duplicates(),
        0 <= i < pairs.len(),
        pairs[i].key@ == p.key@,
    ensures
        map_of(pairs.update(i, p)) == map_of(pairs).insert(p.key@, p.val.deep_view()),
    decreases pairs.len(),
{
    assert(keys_of(pairs.drop_last()) =~= keys_of(pairs).drop_last());
    if i == pairs.len() - 1 {
        assert(pairs.update(i, p).drop_last() =~= pairs.drop_last());
        assert(pairs.update(i, p).last() == p);
        assert(map_of(pairs.update(i, p)) =~= map_of(pairs).insert(p.key@, p.val.deep_view()));
    } else {
        assert(pairs.update(i, p).drop_last() =~= pairs.drop_last().update(i, p));
        assert(pairs.update(i, p).last() == pairs.last());
        lemma_map_of_update(pairs.drop_last(), i, p);
        assert(keys_of(pairs)[i] != keys_of(pairs)[pairs.len() - 1]);
        assert(pairs.drop_last()[i] == pairs[i]);
        assert(map_of(pairs.update(i, p)) =~= map_of(pairs).insert(p.key@, p.val.deep_view()));
    }
}

/// Removing the entry at `i` removes that entry's key from the map.
proof fn lemma_map_of_remove<V: DeepView>(pairs: Seq<Pair<V>>, i: int)
    requires
        keys_of(pairs).no_duplicates(),
        0 <= i < pairs.len(),
    ensures
        map_of(pairs.remove(i)) == map_of(pairs).remove(pairs[i].key@),
    decreases pairs.len(),
{
    assert(keys_of(pairs.drop_last()) =~= keys_of(pairs).drop_last());
    if i == pairs.len() - 1 {
        assert(pairs.remove(i) =~= pairs.drop_last());
        lemma_map_of_contains(pairs.drop_last(), pairs[i].key@);
        assert forall|j: int| 0 <= j < pairs.drop_last().len()
            implies (#[trigger] pairs.drop_last()[j]).key@ != pairs[i].key@ by {
            assert(keys_of(pairs)[j] != keys_of(pairs)[i]);
        }
        assert(!map_of(pairs.drop_last()).contains_key(pairs[i].key@));
        assert(map_of(pairs.remove(i)) =~= map_of(pairs).remove(pairs[i].key@));
    } else {
        assert(pairs.remove(i).drop_last() =~= pairs.drop_last().remove(i));
        assert(pairs.remove(i).last() == pairs.last());
        lemma_map_of_remove(pairs.drop_last(), i);
        assert(keys_of(pairs)[i] != keys_of(pairs)[pairs.len() - 1]);
        assert(pairs.drop_last()[i] == pairs[i]);
        assert(map_of(pairs.remove(i)) =~= map_of(pairs).remove(pairs[i].key@));
    }
}

/// A sequence with pairwise-distinct elements stays that way when one element
/// is removed.
proof fn lemma_no_duplicates_remove(s: Seq<Seq<char>>, i: int)
    requires
        s.no_duplicates(),
        0 <= i < s.len(),
    ensures
        s.remove(i).no_duplicates(),
{
    s.remove_ensures(i);
    assert forall|a: int, b: int| 0 <= a < b < s.remove(i).len() implies s.remove(i)[a] != s.remove(
        i,
    )[b] by {
        let oa: int = if a < i {
            a
        } else {
            a + 1
        };
        let ob: int = if b < i {
            b
        } else {
            b + 1
        };
        assert(s.remove(i)[a] == s[oa]);
        assert(s.remove(i)[b] == s[ob]);
    }
}

impl<V: DeepView> StringMap<V> {
    /// The key views in storage (insertion) order; pairwise distinct.
    pub closed spec fn key_seq(self) -> Seq<Seq<char>> {
        keys_of(self.pairs@)
    }

    #[verifier::type_invariant]
    spec fn wf(self) -> bool {
        self.key_seq().no_duplicates()
    }

    pub fn new() -> (m: Self)
        ensures
            m@ == Map::<Seq<char>, V::V>::empty(),
            m.key_seq() == Seq::<Seq<char>>::empty(),
    {
        let m = StringMap { pairs: Vec::new() };
        proof {
            assert(m.key_seq() =~= Seq::<Seq<char>>::empty());
        }
        m
    }

    pub fn len(&self) -> (n: usize)
        ensures
            n == self.key_seq().len(),
            n == self@.dom().len(),
            self@.dom() == self.key_seq().to_set(),
            self@.dom().finite(),
            self.key_seq().no_duplicates(),
    {
        proof {
            use_type_invariant(self);
            lemma_map_of_dom(self.pairs@);
            lemma_map_of_len(self.pairs@);
        }
        self.pairs.len()
    }

    fn find_index(pairs: &Vec<Pair<V>>, k: &str) -> (r: Option<usize>)
        ensures
            match r {
                Some(i) => i < pairs@.len() && pairs@[i as int].key@ == k@,
                None => forall|j: int| 0 <= j < pairs@.len() ==> (#[trigger] pairs@[j]).key@ != k@,
            },
    {
        let n = pairs.len();
        let mut i: usize = 0;
        while i < n
            invariant
                i <= n,
                n == pairs@.len(),
                forall|j: int| 0 <= j < i ==> (#[trigger] pairs@[j]).key@ != k@,
            decreases n - i,
        {
            if str_eq(pairs[i].key.as_str(), k) {
                return Some(i);
            }
            i += 1;
        }
        None
    }

    pub fn contains_key(&self, k: &str) -> (r: bool)
        ensures
            r == self@.contains_key(k@),
    {
        proof {
            use_type_invariant(self);
            lemma_map_of_contains(self.pairs@, k@);
        }
        match Self::find_index(&self.pairs, k) {
            Some(i) => {
                proof {
                    assert(self.pairs@[i as int].key@ == k@);
                }
                true
            },
            None => false,
        }
    }

    pub fn get(&self, k: &str) -> (r: Option<&V>)
        ensures
            match r {
                Some(v) => self@.contains_key(k@) && v.deep_view() == self@[k@],
                None => !self@.contains_key(k@),
            },
    {
        proof {
            use_type_invariant(self);
            lemma_map_of_contains(self.pairs@, k@);
        }
        match Self::find_index(&self.pairs, k) {
            Some(i) => {
                proof {
                    lemma_map_of_index(self.pairs@, i as int);
                }
                Some(&self.pairs[i].val)
            },
            None => None,
        }
    }

    pub fn insert(&mut self, k: String, v: V)
        ensures
            final(self)@ == old(self)@.insert(k@, v.deep_view()),
            final(self)@.dom() == old(self)@.dom().insert(k@),
    {
        proof {
            use_type_invariant(&*self);
            lemma_map_of_dom(self.pairs@);
        }
        let mut pairs: Vec<Pair<V>> = Vec::new();
        proof {
            assert(keys_of(pairs@) =~= Seq::<Seq<char>>::empty());
        }
        std::mem::swap(&mut pairs, &mut self.pairs);
        match Self::find_index(&pairs, k.as_str()) {
            Some(i) => {
                proof {
                    lemma_map_of_update(pairs@, i as int, Pair { key: k, val: v });
                    assert(keys_of(pairs@.update(i as int, Pair { key: k, val: v })) =~= keys_of(
                        pairs@,
                    ));
                }
                pairs[i] = Pair { key: k, val: v };
            },
            None => {
                proof {
                    let p = Pair { key: k, val: v };
                    assert(pairs@.push(p).drop_last() =~= pairs@);
                    assert(keys_of(pairs@.push(p)) =~= keys_of(pairs@).push(k@));
                    assert(keys_of(pairs@.push(p)).no_duplicates());
                }
                pairs.push(Pair { key: k, val: v });
            },
        }
        self.pairs = pairs;
        proof {
            lemma_map_of_dom(self.pairs@);
            assert(final(self)@.dom() =~= old(self)@.dom().insert(k@));
        }
    }

    pub fn remove(&mut self, k: &str) -> (r: Option<V>)
        ensures
            final(self)@ == old(self)@.remove(k@),
            match r {
                Some(v) => old(self)@.contains_key(k@) && v.deep_view() == old(self)@[k@],
                None => !old(self)@.contains_key(k@),
            },
    {
        proof {
            use_type_invariant(&*self);
            lemma_map_of_contains(self.pairs@, k@);
        }
        let mut pairs: Vec<Pair<V>> = Vec::new();
        proof {
            assert(keys_of(pairs@) =~= Seq::<Seq<char>>::empty());
        }
        std::mem::swap(&mut pairs, &mut self.pairs);
        let r = match Self::find_index(&pairs, k) {
            Some(i) => {
                proof {
                    lemma_map_of_index(pairs@, i as int);
                    lemma_map_of_remove(pairs@, i as int);
                    assert(keys_of(pairs@.remove(i as int)) =~= keys_of(pairs@).remove(i as int));
                    lemma_no_duplicates_remove(keys_of(pairs@), i as int);
                }
                let p = pairs.remove(i);
                Some(p.val)
            },
            None => {
                proof {
                    assert(map_of(pairs@).remove(k@) =~= map_of(pairs@));
                }
                None
            },
        };
        self.pairs = pairs;
        r
    }

    pub fn key_at(&self, i: usize) -> (k: &String)
        requires
            i < self.key_seq().len(),
        ensures
            k@ == self.key_seq()[i as int],
    {
        &self.pairs[i].key
    }

    pub fn val_at(&self, i: usize) -> (v: &V)
        requires
            i < self.key_seq().len(),
        ensures
            self@.contains_key(self.key_seq()[i as int]),
            v.deep_view() == self@[self.key_seq()[i as int]],
    {
        proof {
            use_type_invariant(self);
            lemma_map_of_index(self.pairs@, i as int);
        }
        &self.pairs[i].val
    }
}

} // verus!
