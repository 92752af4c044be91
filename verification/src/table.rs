use vstd::prelude::*;
use crate::account::AccountId;

verus! {

/// A value that can serve as a key: it can be compared at run time, and the
/// comparison agrees with `==` in contracts.
pub trait Key: Sized {
    /// Whether two keys are equal.
    fn same(&self, other: &Self) -> (r: bool)
        ensures
            r == (*self == *other),
    ;
}

impl Key for AccountId {
    fn same(&self, other: &Self) -> (r: bool) {
        AccountId::same(self, other)
    }
}

impl Key for u32 {
    fn same(&self, other: &Self) -> (r: bool) {
        *self == *other
    }
}

impl<A: Key, B: Key> Key for (A, B) {
    fn same(&self, other: &Self) -> (r: bool) {
        self.0.same(&other.0) && self.1.same(&other.1)
    }
}

/// Whether no key stands at two places of `s`.
spec fn keys_distinct<K, V>(s: Seq<(K, V)>) -> bool {
    forall|i: int, j: int| 0 <= i < j < s.len() ==> s[i].0 != s[j].0
}

/// Whether `k` is the key of some entry of `s`.
spec fn holds_key<K, V>(s: Seq<(K, V)>, k: K) -> bool {
    exists|i: int| 0 <= i < s.len() && (#[trigger] s[i]).0 == k
}

/// A place of `s` at which `k` stands, where there is one.
spec fn place_of<K, V>(s: Seq<(K, V)>, k: K) -> int {
    choose|i: int| 0 <= i < s.len() && (#[trigger] s[i]).0 == k
}

/// The map that a sequence of entries with distinct keys stands for.
spec fn entries_map<K, V>(s: Seq<(K, V)>) -> Map<K, V> {
    Map::new(|k: K| holds_key(s, k), |k: K| s[place_of(s, k)].1)
}

proof fn lemma_entry_in_map<K, V>(s: Seq<(K, V)>, i: int)
    requires
        keys_distinct(s),
        0 <= i < s.len(),
    ensures
        entries_map(s).contains_key(s[i].0),
        entries_map(s)[s[i].0] == s[i].1,
{
    let k = s[i].0;
    assert(holds_key(s, k));
    let p = place_of(s, k);
    assert(0 <= p < s.len() && s[p].0 == k);
    if p < i {
        assert(s[p].0 != s[i].0);
    } else if i < p {
        assert(s[i].0 != s[p].0);
    }
}

proof fn lemma_update_is_insert<K, V>(s: Seq<(K, V)>, i: int, v: V)
    requires
        keys_distinct(s),
        0 <= i < s.len(),
    ensures
        keys_distinct(s.update(i, (s[i].0, v))),
        entries_map(s.update(i, (s[i].0, v))) == entries_map(s).insert(s[i].0, v),
{
    let k = s[i].0;
    let t = s.update(i, (k, v));
    assert forall|a: int, b: int| 0 <= a < b < t.len() implies t[a].0 != t[b].0 by {
        assert(t[a].0 == s[a].0 && t[b].0 == s[b].0);
    }
    assert forall|q: K| entries_map(t).contains_key(q) <==> entries_map(s).insert(
        k,
        v,
    ).contains_key(q) by {
        if holds_key(t, q) {
            let p = place_of(t, q);
            assert(s[p].0 == q);
        }
        if holds_key(s, q) {
            let p = place_of(s, q);
            assert(t[p].0 == q);
        }
        if q == k {
            assert(t[i].0 == q);
        }
    }
    assert forall|q: K| entries_map(t).contains_key(q) implies entries_map(t)[q] == entries_map(
        s,
    ).insert(k, v)[q] by {
        let p = place_of(t, q);
        lemma_entry_in_map(t, p);
        if q != k {
            assert(p != i);
            lemma_entry_in_map(s, p);
        } else {
            lemma_entry_in_map(t, i);
        }
    }
    assert(entries_map(t) =~= entries_map(s).insert(k, v));
}

proof fn lemma_push_is_insert<K, V>(s: Seq<(K, V)>, k: K, v: V)
    requires
        keys_distinct(s),
        !holds_key(s, k),
    ensures
        keys_distinct(s.push((k, v))),
        entries_map(s.push((k, v))) == entries_map(s).insert(k, v),
{
    let t = s.push((k, v));
    assert forall|a: int, b: int| 0 <= a < b < t.len() implies t[a].0 != t[b].0 by {
        if b == s.len() {
            assert(s[a].0 != k);
        } else {
            assert(t[a] == s[a] && t[b] == s[b]);
        }
    }
    assert forall|q: K| entries_map(t).contains_key(q) <==> entries_map(s).insert(
        k,
        v,
    ).contains_key(q) by {
        if holds_key(t, q) {
            let p = place_of(t, q);
            if p < s.len() {
                assert(s[p].0 == q);
            }
        }
        if holds_key(s, q) {
            let p = place_of(s, q);
            assert(t[p].0 == q);
        }
        if q == k {
            assert(t[s.len() as int].0 == q);
        }
    }
    assert forall|q: K| entries_map(t).contains_key(q) implies entries_map(t)[q] == entries_map(
        s,
    ).insert(k, v)[q] by {
        let p = place_of(t, q);
        lemma_entry_in_map(t, p);
        if q != k {
            assert(p < s.len());
            assert(t[p] == s[p]);
            lemma_entry_in_map(s, p);
        } else {
            lemma_entry_in_map(t, s.len() as int);
        }
    }
    assert(entries_map(t) =~= entries_map(s).insert(k, v));
}

proof fn lemma_swap_remove_is_remove<K, V>(s: Seq<(K, V)>, i: int)
    requires
        keys_distinct(s),
        0 <= i < s.len(),
    ensures
        keys_distinct(s.update(i, s.last()).drop_last()),
        entries_map(s.update(i, s.last()).drop_last()) == entries_map(s).remove(s[i].0),
{
    let k = s[i].0;
    let n = s.len() - 1;
    let t = s.update(i, s.last()).drop_last();
    // Each place of `t` holds the entry of one place of `s` other than `i`.
    assert forall|a: int| 0 <= a < t.len() implies #[trigger] t[a] == s[if a == i {
        n
    } else {
        a
    }] by {}
    assert forall|a: int, b: int| 0 <= a < b < t.len() implies t[a].0 != t[b].0 by {
        let sa = if a == i { n } else { a };
        let sb = if b == i { n } else { b };
        assert(t[a] == s[sa] && t[b] == s[sb]);
        if sa < sb {
            assert(s[sa].0 != s[sb].0);
        } else {
            assert(s[sb].0 != s[sa].0);
        }
    }
    assert forall|q: K| entries_map(t).contains_key(q) <==> entries_map(s).remove(k).contains_key(
        q,
    ) by {
        if holds_key(t, q) {
            let p = place_of(t, q);
            let sp = if p == i { n } else { p };
            assert(t[p] == s[sp]);
            assert(s[sp].0 == q);
            if sp < i {
                assert(s[sp].0 != s[i].0);
            } else {
                assert(s[i].0 != s[sp].0);
            }
        }
        if holds_key(s, q) && q != k {
            let p = place_of(s, q);
            assert(p != i);
            let tp = if p == n { i } else { p };
            assert(t[tp] == s[p]);
            assert(t[tp].0 == q);
        }
    }
    assert forall|q: K| entries_map(t).contains_key(q) implies entries_map(t)[q] == entries_map(
        s,
    ).remove(k)[q] by {
        let p = place_of(t, q);
        let sp = if p == i { n } else { p };
        assert(t[p] == s[sp]);
        lemma_entry_in_map(t, p);
        lemma_entry_in_map(s, sp);
    }
    assert(entries_map(t) =~= entries_map(s).remove(k));
}

/// The map that a list of entries stands for: each key with the value of
/// its last entry.
pub open spec fn map_of<K, V>(entries: Seq<(K, V)>) -> Map<K, V>
    decreases entries.len(),
{
    if entries.len() == 0 {
        Map::empty()
    } else {
        map_of(entries.drop_last()).insert(entries.last().0, entries.last().1)
    }
}

proof fn lemma_distinct_entries_map<K, V>(s: Seq<(K, V)>)
    requires
        keys_distinct(s),
    ensures
        entries_map(s) == map_of(s),
    decreases s.len(),
{
    if s.len() == 0 {
        assert(entries_map(s) =~= Map::<K, V>::empty());
    } else {
        let head = s.drop_last();
        assert forall|i: int, j: int| 0 <= i < j < head.len() implies head[i].0 != head[j].0 by {
            assert(head[i] == s[i] && head[j] == s[j]);
        }
        lemma_distinct_entries_map(head);
        assert(!holds_key(head, s.last().0)) by {
            if holds_key(head, s.last().0) {
                let p = place_of(head, s.last().0);
                assert(head[p] == s[p]);
                assert(s[p].0 != s[s.len() - 1].0);
            }
        }
        lemma_push_is_insert(head, s.last().0, s.last().1);
        assert(head.push((s.last().0, s.last().1)) =~= s);
    }
}

/// A keyed store that holds each key at most once. Its view is the map from
/// each key that it holds to the value stored for it.
pub struct Table<K: Key, V: Copy> {
    entries: Vec<(K, V)>,
}

impl<K: Key, V: Copy> View for Table<K, V> {
    type V = Map<K, V>;

    closed spec fn view(&self) -> Map<K, V> {
        entries_map(self.entries@)
    }
}

impl<K: Key, V: Copy> Table<K, V> {
    #[verifier::type_invariant]
    spec fn inv(self) -> bool {
        keys_distinct(self.entries@)
    }

    /// A store that holds no key.
    pub fn new() -> (t: Self)
        ensures
            t@ == Map::<K, V>::empty(),
    {
        let t = Table { entries: Vec::new() };
        assert(t@ =~= Map::<K, V>::empty());
        t
    }

    fn find(&self, k: &K) -> (r: Option<usize>)
        ensures
            match r {
                Some(i) => i < self.entries@.len() && self.entries@[i as int].0 == *k,
                None => !holds_key(self.entries@, *k),
            },
    {
        let mut i: usize = 0;
        while i < self.entries.len()
            invariant
                i <= self.entries@.len(),
                forall|j: int| 0 <= j < i ==> (#[trigger] self.entries@[j]).0 != *k,
            decreases self.entries@.len() - i,
        {
            if self.entries[i].0.same(k) {
                return Some(i);
            }
            i += 1;
        }
        None
    }

    /// The value stored for `k`, if there is one.
    pub fn get(&self, k: &K) -> (r: Option<V>)
        ensures
            r == if self@.contains_key(*k) {
                Some(self@[*k])
            } else {
                None::<V>
            },
    {
        proof {
            use_type_invariant(self);
        }
        match self.find(k) {
            Some(i) => {
                proof {
                    lemma_entry_in_map(self.entries@, i as int);
                }
                Some(self.entries[i].1)
            },
            None => None,
        }
    }

    /// Stores `v` for `k`, in place of what was stored for it before.
    pub fn insert(&mut self, k: K, v: V)
        ensures
            final(self)@ == old(self)@.insert(k, v),
    {
        proof {
            use_type_invariant(&*self);
        }
        let found = self.find(&k);
        let mut entries: Vec<(K, V)> = Vec::new();
        core::mem::swap(&mut self.entries, &mut entries);
        match found {
            Some(i) => {
                proof {
                    lemma_update_is_insert(entries@, i as int, v);
                }
                entries[i] = (k, v);
            },
            None => {
                proof {
                    lemma_push_is_insert(entries@, k, v);
                }
                entries.push((k, v));
            },
        }
        core::mem::swap(&mut self.entries, &mut entries);
    }

    /// Forgets what was stored for `k`.
    pub fn remove(&mut self, k: &K)
        ensures
            final(self)@ == old(self)@.remove(*k),
    {
        proof {
            use_type_invariant(&*self);
        }
        match self.find(k) {
            Some(i) => {
                let mut entries: Vec<(K, V)> = Vec::new();
                core::mem::swap(&mut self.entries, &mut entries);
                proof {
                    lemma_swap_remove_is_remove(entries@, i as int);
                }
                entries.swap_remove(i);
                core::mem::swap(&mut self.entries, &mut entries);
            },
            None => {
                assert(self@ =~= old(self)@.remove(*k));
            },
        }
    }

    /// A store with the entries of a list, each key with the value of its
    /// last entry.
    pub fn from_vec(entries: &Vec<(K, V)>) -> (t: Self) where K: Copy
        ensures
            t@ == map_of(entries@),
    {
        let mut t: Table<K, V> = Table::new();
        let mut i: usize = 0;
        assert(entries@.take(0) =~= Seq::<(K, V)>::empty());
        while i < entries.len()
            invariant
                i <= entries@.len(),
                t@ == map_of(entries@.take(i as int)),
            decreases entries@.len() - i,
        {
            let entry = entries[i];
            t.insert(entry.0, entry.1);
            proof {
                let next = entries@.take(i + 1);
                assert(next.drop_last() =~= entries@.take(i as int));
                assert(next.last() == entries@[i as int]);
            }
            i += 1;
        }
        assert(entries@.take(i as int) =~= entries@);
        t
    }

    /// The entries of the store as a list, each key once.
    pub fn to_vec(&self) -> (entries: Vec<(K, V)>) where K: Copy
        ensures
            map_of(entries@) == self@,
    {
        proof {
            use_type_invariant(self);
            lemma_distinct_entries_map(self.entries@);
        }
        let mut entries: Vec<(K, V)> = Vec::new();
        let mut i: usize = 0;
        while i < self.entries.len()
            invariant
                i <= self.entries@.len(),
                entries@ == self.entries@.take(i as int),
            decreases self.entries@.len() - i,
        {
            entries.push(self.entries[i]);
            assert(entries@ =~= self.entries@.take(i + 1));
            i += 1;
        }
        assert(self.entries@.take(i as int) =~= self.entries@);
        entries
    }
}

} // verus!
