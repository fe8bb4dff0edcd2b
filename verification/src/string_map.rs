//! A map from strings to values, kept as a list of entries with distinct keys.
use vstd::prelude::*;

verus! {

/// One key with its value.
#[derive(Debug)]
struct Entry<T> {
    key: String,
    value: T,
}

/// No two entries share a key.
spec fn distinct_keys<T>(entries: Seq<Entry<T>>) -> bool {
    forall|i: int, j: int|
        0 <= i < j < entries.len() ==> #[trigger] entries[i].key@ != #[trigger] entries[j].key@
}

/// The map that a list of entries stands for.
spec fn entries_map<T>(entries: Seq<Entry<T>>) -> Map<Seq<char>, T>
    decreases entries.len(),
{
    if entries.len() == 0 {
        Map::empty()
    } else {
        entries_map(entries.drop_last()).insert(entries.last().key@, entries.last().value)
    }
}

/// The keys of the map are those of the entries.
proof fn lemma_domain<T>(entries: Seq<Entry<T>>, key: Seq<char>)
    ensures
        entries_map(entries).contains_key(key) <==> exists|i: int|
            0 <= i < entries.len() && #[trigger] entries[i].key@ == key,
    decreases entries.len(),
{
    if entries.len() > 0 {
        let rest = entries.drop_last();
        lemma_domain(rest, key);
        if entries_map(entries).contains_key(key) && key != entries.last().key@ {
            let i = choose|i: int| 0 <= i < rest.len() && #[trigger] rest[i].key@ == key;
            assert(entries[i].key@ == key);
        }
        if exists|i: int| 0 <= i < entries.len() && #[trigger] entries[i].key@ == key {
            let i = choose|i: int| 0 <= i < entries.len() && #[trigger] entries[i].key@ == key;
            if i < rest.len() {
                assert(rest[i].key@ == key);
            }
        }
    }
}

/// Distinct keys stay so without the last entry.
proof fn lemma_distinct_without_last<T>(entries: Seq<Entry<T>>)
    requires
        distinct_keys(entries),
        entries.len() > 0,
    ensures
        distinct_keys(entries.drop_last()),
{
    let rest = entries.drop_last();
    assert forall|a: int, b: int| 0 <= a < b < rest.len() implies
        #[trigger] rest[a].key@ != #[trigger] rest[b].key@ by {
        assert(entries[a].key@ != entries[b].key@);
    }
}

/// With distinct keys, the map gives back the value of each entry.
proof fn lemma_lookup<T>(entries: Seq<Entry<T>>, i: int)
    requires
        distinct_keys(entries),
        0 <= i < entries.len(),
    ensures
        entries_map(entries).contains_key(entries[i].key@),
        entries_map(entries)[entries[i].key@] == entries[i].value,
    decreases entries.len(),
{
    if i < entries.len() - 1 {
        let rest = entries.drop_last();
        lemma_distinct_without_last(entries);
        lemma_lookup(rest, i);
        assert(rest[i] == entries[i]);
        assert(entries[i].key@ != entries[entries.len() - 1].key@);
    }
}

/// With distinct keys, the map has as many keys as there are entries.
proof fn lemma_len<T>(entries: Seq<Entry<T>>)
    requires
        distinct_keys(entries),
    ensures
        entries_map(entries).dom().finite(),
        entries_map(entries).len() == entries.len(),
    decreases entries.len(),
{
    if entries.len() > 0 {
        let rest = entries.drop_last();
        lemma_distinct_without_last(entries);
        lemma_len(rest);
        lemma_domain(rest, entries.last().key@);
        if entries_map(rest).contains_key(entries.last().key@) {
            let i = choose|i: int|
                0 <= i < rest.len() && #[trigger] rest[i].key@ == entries.last().key@;
            assert(entries[i].key@ != entries[entries.len() - 1].key@);
        }
    }
}

/// Taking an entry out of the list takes its key out of the map.
proof fn lemma_remove_at<T>(entries: Seq<Entry<T>>, i: int)
    requires
        distinct_keys(entries),
        0 <= i < entries.len(),
    ensures
        distinct_keys(entries.remove(i)),
        entries_map(entries.remove(i)) == entries_map(entries).remove(entries[i].key@),
{
    let after = entries.remove(i);
    let gone = entries[i].key@;
    assert forall|a: int, b: int| 0 <= a < b < after.len() implies
        #[trigger] after[a].key@ != #[trigger] after[b].key@ by {
        let a0 = if a < i { a } else { a + 1 };
        let b0 = if b < i { b } else { b + 1 };
        assert(after[a] == entries[a0] && after[b] == entries[b0]);
        assert(entries[a0].key@ != entries[b0].key@);
    }
    let m = entries_map(after);
    let n = entries_map(entries).remove(gone);
    assert forall|k: Seq<char>|
        #![trigger m.dom().contains(k)]
        #![trigger n.dom().contains(k)]
        #![trigger m[k]]
        m.dom().contains(k) == n.dom().contains(k) && (m.dom().contains(k) ==> m[k] == n[k]) by {
        lemma_domain(after, k);
        lemma_domain(entries, k);
        if m.contains_key(k) {
            let a = choose|a: int| 0 <= a < after.len() && #[trigger] after[a].key@ == k;
            let a0 = if a < i { a } else { a + 1 };
            assert(after[a] == entries[a0]);
            lemma_lookup(after, a);
            lemma_lookup(entries, a0);
            if a0 < i {
                assert(entries[a0].key@ != entries[i].key@);
            } else {
                assert(entries[i].key@ != entries[a0].key@);
            }
        }
        if n.contains_key(k) {
            let a0 = choose|a: int| 0 <= a < entries.len() && #[trigger] entries[a].key@ == k;
            let a = if a0 < i { a0 } else { a0 - 1 };
            assert(after[a] == entries[a0]);
        }
    }
    assert(m =~= n);
}

/// A map from strings to values of type `T`.
#[derive(Debug)]
pub struct StringMap<T> {
    entries: Vec<Entry<T>>,
}

impl<T> View for StringMap<T> {
    type V = Map<Seq<char>, T>;

    closed spec fn view(&self) -> Map<Seq<char>, T> {
        entries_map(self.entries@)
    }
}

impl<T> StringMap<T> {
    #[verifier::type_invariant]
    spec fn inv(self) -> bool {
        distinct_keys(self.entries@)
    }

    /// The empty map.
    pub fn new() -> (map: StringMap<T>)
        ensures
            map@ == Map::<Seq<char>, T>::empty(),
    {
        StringMap { entries: Vec::new() }
    }

    /// The number of keys.
    pub fn len(&self) -> (n: usize)
        ensures
            self@.dom().finite(),
            n == self@.len(),
    {
        proof {
            use_type_invariant(self);
            lemma_len(self.entries@);
        }
        self.entries.len()
    }

    /// Where the entry under `key` stands.
    fn position(&self, key: &String) -> (found: Option<usize>)
        ensures
            found is Some <==> self@.contains_key(key@),
            found matches Some(i) ==> i < self.entries@.len() && self.entries@[i as int].key@
                == key@,
    {
        let mut i: usize = 0;
        while i < self.entries.len()
            invariant
                i <= self.entries@.len(),
                forall|j: int| 0 <= j < i ==> #[trigger] self.entries@[j].key@ != key@,
            decreases self.entries@.len() - i,
        {
            if self.entries[i].key == *key {
                proof {
                    lemma_domain(self.entries@, key@);
                }
                return Some(i);
            }
            i += 1;
        }
        proof {
            lemma_domain(self.entries@, key@);
        }
        None
    }

    /// Whether there is a value under `key`.
    pub fn contains_key(&self, key: &String) -> (found: bool)
        ensures
            found == self@.contains_key(key@),
    {
        self.position(key).is_some()
    }

    /// The value under `key`.
    pub fn get(&self, key: &String) -> (found: Option<&T>)
        ensures
            found is Some <==> self@.contains_key(key@),
            found matches Some(value) ==> *value == self@[key@],
    {
        match self.position(key) {
            Some(i) => {
                proof {
                    use_type_invariant(self);
                    lemma_lookup(self.entries@, i as int);
                }
                Some(&self.entries[i].value)
            },
            None => None,
        }
    }

    /// Takes the value under `key` out of the map.
    pub fn remove(&mut self, key: &String) -> (removed: Option<T>)
        ensures
            final(self)@ == old(self)@.remove(key@),
            removed is Some <==> old(self)@.contains_key(key@),
            removed matches Some(value) ==> value == old(self)@[key@],
    {
        proof {
            use_type_invariant(&*self);
        }
        match self.position(key) {
            Some(i) => {
                let mut entries: Vec<Entry<T>> = Vec::new();
                std::mem::swap(&mut entries, &mut self.entries);
                proof {
                    lemma_lookup(entries@, i as int);
                    lemma_remove_at(entries@, i as int);
                }
                let entry = entries.remove(i);
                self.entries = entries;
                Some(entry.value)
            },
            None => {
                assert(self@.remove(key@) =~= self@);
                None
            },
        }
    }

    /// Puts `value` under `key`, in place of what was there.
    pub fn insert(&mut self, key: String, value: T)
        ensures
            final(self)@ == old(self)@.insert(key@, value),
    {
        let _ = self.remove(&key);
        let mut entries: Vec<Entry<T>> = Vec::new();
        proof {
            use_type_invariant(&*self);
            lemma_domain(self.entries@, key@);
        }
        std::mem::swap(&mut entries, &mut self.entries);
        let ghost before = entries@;
        entries.push(Entry { key, value });
        assert(entries@.drop_last() =~= before);
        assert(entries_map(entries@) =~= old(self)@.insert(key@, value));
        self.entries = entries;
    }

    /// Keeps the values of which `keep` says so, with their keys, and drops the others.
    pub fn retain<F: Fn(&T) -> bool>(&mut self, keep: F)
        requires
            forall|value: &T| keep.requires((value,)),
        ensures
            forall|k: Seq<char>| #[trigger]
                final(self)@.contains_key(k) ==> old(self)@.contains_key(k) && final(self)@[k]
                    == old(self)@[k] && keep.ensures((&old(self)@[k],), true),
            forall|k: Seq<char>| #[trigger]
                old(self)@.contains_key(k) && !final(self)@.contains_key(k) ==> keep.ensures(
                    (&old(self)@[k],),
                    false,
                ),
    {
        proof {
            use_type_invariant(&*self);
        }
        let ghost before = self@;
        let mut entries: Vec<Entry<T>> = Vec::new();
        std::mem::swap(&mut entries, &mut self.entries);
        let mut i: usize = 0;
        while i < entries.len()
            invariant
                i <= entries@.len(),
                distinct_keys(entries@),
                forall|value: &T| keep.requires((value,)),
                forall|k: Seq<char>| #[trigger]
                    entries_map(entries@).contains_key(k) ==> before.contains_key(k)
                        && entries_map(entries@)[k] == before[k],
                forall|k: Seq<char>| #[trigger]
                    before.contains_key(k) && !entries_map(entries@).contains_key(k)
                        ==> keep.ensures((&before[k],), false),
                forall|j: int|
                    0 <= j < i ==> keep.ensures((&(#[trigger] entries@[j]).value,), true),
            decreases entries@.len() - i,
        {
            proof {
                lemma_lookup(entries@, i as int);
                lemma_remove_at(entries@, i as int);
            }
            if keep(&entries[i].value) {
                i += 1;
            } else {
                let _ = entries.remove(i);
            }
        }
        proof {
            assert forall|k: Seq<char>| #[trigger]
                entries_map(entries@).contains_key(k) implies keep.ensures(
                (&before[k],),
                true,
            ) by {
                lemma_domain(entries@, k);
                let j = choose|j: int| 0 <= j < entries@.len() && #[trigger] entries@[j].key@ == k;
                lemma_lookup(entries@, j);
            }
        }
        self.entries = entries;
    }
}

/// What was put under a key is what is found there; nothing is found once it was taken out, and
/// what is under other keys stays as it was.
pub proof fn law_map_gives_back_what_was_put_in<T>(
    filled: &mut StringMap<T>,
    key: String,
    value: T,
    emptied: &mut StringMap<T>,
    gone: &String,
    removed: Option<T>,
    map: &StringMap<T>,
    wanted: &String,
    found: Option<&T>,
    contained: bool,
    other: Seq<char>,
)
    requires
        call_ensures(StringMap::<T>::insert, (filled, key, value), ()),
        call_ensures(StringMap::<T>::remove, (emptied, gone), removed),
        call_ensures(StringMap::<T>::get, (map, wanted), found),
        call_ensures(StringMap::<T>::contains_key, (map, wanted), contained),
    ensures
        final(filled)@.contains_key(key@) && final(filled)@[key@] == value,
        other != key@ ==> final(filled)@.contains_key(other) == old(filled)@.contains_key(other)
            && final(filled)@[other] == old(filled)@[other],
        !final(emptied)@.contains_key(gone@),
        other != gone@ ==> final(emptied)@.contains_key(other) == old(emptied)@.contains_key(other)
            && final(emptied)@[other] == old(emptied)@[other],
        match removed {
            Some(taken) => old(emptied)@.contains_key(gone@) && taken == old(emptied)@[gone@],
            None => !old(emptied)@.contains_key(gone@),
        },
        contained <==> map@.contains_key(wanted@),
        match found {
            Some(held) => map@.contains_key(wanted@) && *held == map@[wanted@],
            None => !map@.contains_key(wanted@),
        },
{
}

} // verus!
