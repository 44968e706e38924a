//! The arguments of a tool invocation: a finite mapping from names to
//! values.

use vstd::prelude::*;

verus! {

/// The value that `entries` gives `key`: that of the first entry with this
/// key.
pub open spec fn lookup(entries: Seq<(Seq<char>, Seq<char>)>, key: Seq<char>) -> Option<Seq<char>>
    decreases entries.len(),
{
    if entries.len() == 0 {
        None
    } else if entries[0].0 == key {
        Some(entries[0].1)
    } else {
        lookup(entries.subrange(1, entries.len() as int), key)
    }
}

/// No key stands in two entries.
pub open spec fn distinct_keys(entries: Seq<(Seq<char>, Seq<char>)>) -> bool {
    forall|i: int, j: int|
        0 <= i < entries.len() && 0 <= j < entries.len() && i != j ==> (#[trigger] entries[i]).0
            != (#[trigger] entries[j]).0
}

/// The index of the first entry with `key`, or `entries.len()`.
pub open spec fn key_index(entries: Seq<(Seq<char>, Seq<char>)>, key: Seq<char>) -> int
    decreases entries.len(),
{
    if entries.len() == 0 || entries[0].0 == key {
        0
    } else {
        1 + key_index(entries.subrange(1, entries.len() as int), key)
    }
}

/// `entries` with `key` set to `value`: in place where the key is there, at
/// the end where it is new.
pub open spec fn put(
    entries: Seq<(Seq<char>, Seq<char>)>,
    key: Seq<char>,
    value: Seq<char>,
) -> Seq<(Seq<char>, Seq<char>)> {
    let i = key_index(entries, key);
    if 0 <= i < entries.len() {
        entries.update(i, (key, value))
    } else {
        entries.push((key, value))
    }
}

/// The mapping that `entries` stand for.
pub open spec fn as_map(entries: Seq<(Seq<char>, Seq<char>)>) -> Map<Seq<char>, Seq<char>> {
    Map::new(
        |k: Seq<char>| lookup(entries, k) is Some,
        |k: Seq<char>| lookup(entries, k)->0,
    )
}

/// What `key_index` returns is the first place of the key.
pub proof fn lemma_key_index(entries: Seq<(Seq<char>, Seq<char>)>, key: Seq<char>)
    ensures
        0 <= key_index(entries, key) <= entries.len(),
        forall|j: int| 0 <= j < key_index(entries, key) ==> (#[trigger] entries[j]).0 != key,
        key_index(entries, key) < entries.len() ==> entries[key_index(entries, key)].0 == key,
        key_index(entries, key) < entries.len() ==> lookup(entries, key) == Some(
            entries[key_index(entries, key)].1,
        ),
        key_index(entries, key) == entries.len() ==> lookup(entries, key) is None,
    decreases entries.len(),
{
    if entries.len() > 0 && entries[0].0 != key {
        let rest = entries.subrange(1, entries.len() as int);
        lemma_key_index(rest, key);
        assert forall|j: int| 0 <= j < key_index(entries, key) implies (#[trigger] entries[j]).0
            != key by {
            if j > 0 {
                assert(entries[j] == rest[j - 1]);
            }
        }
        if key_index(rest, key) < rest.len() {
            assert(rest[key_index(rest, key)] == entries[key_index(rest, key) + 1]);
        }
    }
}

/// Where an entry with `key` stands at `i` and none stands before it, the
/// first place of the key is `i`.
pub proof fn lemma_key_index_is(entries: Seq<(Seq<char>, Seq<char>)>, key: Seq<char>, i: int)
    requires
        0 <= i <= entries.len(),
        forall|j: int| 0 <= j < i ==> (#[trigger] entries[j]).0 != key,
        i < entries.len() ==> entries[i].0 == key,
    ensures
        key_index(entries, key) == i,
{
    lemma_key_index(entries, key);
    let k = key_index(entries, key);
    if k < i {
        assert(entries[k].0 != key);
    } else if k > i {
        assert(entries[i].0 != key);
    }
}

/// After `put`, `key` has `value` and every other key has what it had; no key
/// comes to stand twice.
pub proof fn lemma_put(
    entries: Seq<(Seq<char>, Seq<char>)>,
    key: Seq<char>,
    value: Seq<char>,
)
    ensures
        as_map(put(entries, key, value)) == as_map(entries).insert(key, value),
        distinct_keys(entries) ==> distinct_keys(put(entries, key, value)),
{
    let after = put(entries, key, value);
    lemma_key_index(entries, key);
    let i = key_index(entries, key);
    assert forall|k: Seq<char>| lookup(after, k) == (if k == key {
        Some(value)
    } else {
        lookup(entries, k)
    }) by {
        lemma_key_index(entries, k);
        let ki = key_index(entries, k);
        if k == key {
            lemma_key_index_is(after, k, i);
            lemma_key_index(after, k);
        } else if ki < entries.len() {
            assert(after[ki] == entries[ki]);
            assert forall|j: int| 0 <= j < ki implies (#[trigger] after[j]).0 != k by {
                if j == i {
                } else {
                    assert(after[j] == entries[j]);
                }
            }
            lemma_key_index_is(after, k, ki);
            lemma_key_index(after, k);
        } else {
            assert forall|j: int| 0 <= j < after.len() implies (#[trigger] after[j]).0 != k by {
                if j == i {
                } else {
                    assert(after[j] == entries[j]);
                }
            }
            lemma_key_index_is(after, k, after.len() as int);
            lemma_key_index(after, k);
        }
    }
    assert(as_map(after) =~= as_map(entries).insert(key, value));
    if distinct_keys(entries) {
        assert forall|a: int, b: int|
            0 <= a < after.len() && 0 <= b < after.len() && a != b implies (#[trigger] after[a]).0
            != (#[trigger] after[b]).0 by {
            if a != i {
                assert(after[a] == entries[a]);
            }
            if b != i {
                assert(after[b] == entries[b]);
            }
            if i < entries.len() {
                assert(entries[i].0 == key);
            }
        }
    }
}

/// Where no key stands twice, each entry's key has that entry's value.
pub proof fn lemma_lookup_entry(entries: Seq<(Seq<char>, Seq<char>)>, i: int)
    requires
        distinct_keys(entries),
        0 <= i < entries.len(),
    ensures
        lookup(entries, entries[i].0) == Some(entries[i].1),
{
    assert forall|j: int| 0 <= j < i implies (#[trigger] entries[j]).0 != entries[i].0 by {}
    lemma_key_index_is(entries, entries[i].0, i);
    lemma_key_index(entries, entries[i].0);
}

/// A finite mapping from argument names to argument values. No name occurs
/// twice; the entries keep the order in which their names first came.
#[derive(Debug)]
pub struct Arguments {
    entries: Vec<(String, String)>,
}

impl View for Arguments {
    type V = Map<Seq<char>, Seq<char>>;

    open spec fn view(&self) -> Map<Seq<char>, Seq<char>> {
        as_map(self.entries())
    }
}

impl Arguments {
    /// The entries in order, each a name with its value.
    pub closed spec fn entries(&self) -> Seq<(Seq<char>, Seq<char>)> {
        self.entries.deep_view()
    }

    #[verifier::type_invariant]
    closed spec fn no_name_twice(&self) -> bool {
        distinct_keys(self.entries.deep_view())
    }

    /// The empty mapping.
    pub fn new() -> (r: Self)
        ensures
            r@ == Map::<Seq<char>, Seq<char>>::empty(),
            r.entries() == Seq::<(Seq<char>, Seq<char>)>::empty(),
    {
        let r = Arguments { entries: Vec::new() };
        assert(r.entries.deep_view() =~= Seq::<(Seq<char>, Seq<char>)>::empty());
        assert(r@ =~= Map::<Seq<char>, Seq<char>>::empty());
        r
    }

    /// The number of names.
    pub fn len(&self) -> (n: usize)
        ensures
            n == self.entries().len(),
            distinct_keys(self.entries()),
    {
        proof {
            use_type_invariant(self);
        }
        self.entries.len()
    }

    /// The name of entry `i`.
    pub fn name_at(&self, i: usize) -> (r: &String)
        requires
            i < self.entries().len(),
        ensures
            r@ == self.entries()[i as int].0,
    {
        &self.entries[i].0
    }

    /// The value of entry `i`.
    pub fn value_at(&self, i: usize) -> (r: &String)
        requires
            i < self.entries().len(),
        ensures
            r@ == self.entries()[i as int].1,
    {
        &self.entries[i].1
    }

    /// The place of `key` among the entries, or `len()` where it is not there.
    fn find(&self, key: &str) -> (i: usize)
        ensures
            i == key_index(self.entries(), key@),
            i <= self.entries().len(),
    {
        let mut i: usize = 0;
        while i < self.entries.len()
            invariant
                i <= self.entries.len(),
                forall|j: int| 0 <= j < i ==> (#[trigger] self.entries.deep_view()[j]).0 != key@,
            decreases self.entries.len() - i,
        {
            if crate::text::same_text(self.entries[i].0.as_str(), key) {
                proof {
                    assert(self.entries.deep_view()[i as int].0 == key@);
                    lemma_key_index_is(self.entries.deep_view(), key@, i as int);
                }
                return i;
            }
            i = i + 1;
        }
        proof {
            lemma_key_index_is(self.entries.deep_view(), key@, i as int);
        }
        i
    }

    /// The value of `key`, where it has one.
    pub fn get(&self, key: &str) -> (r: Option<&String>)
        ensures
            r.deep_view() == lookup(self.entries(), key@),
            r is Some <==> self@.contains_key(key@),
            r matches Some(v) ==> v@ == self@[key@],
    {
        let i = self.find(key);
        proof {
            lemma_key_index(self.entries.deep_view(), key@);
        }
        if i < self.entries.len() {
            Some(&self.entries[i].1)
        } else {
            None
        }
    }

    /// Gives `key` the value `value`, in place of the one it had, if any.
    pub fn insert(&mut self, key: String, value: String)
        ensures
            final(self)@ == old(self)@.insert(key@, value@),
            final(self).entries() == put(old(self).entries(), key@, value@),
    {
        let i = self.find(key.as_str());
        let mut taken = Arguments::new();
        core::mem::swap(self, &mut taken);
        proof {
            use_type_invariant(&taken);
            lemma_put(taken.entries.deep_view(), key@, value@);
        }
        let mut entries = taken.entries;
        let ghost before = entries.deep_view();
        if i < entries.len() {
            entries.set(i, (key, value));
            assert(entries.deep_view() =~= before.update(i as int, (key@, value@)));
        } else {
            entries.push((key, value));
            assert(entries.deep_view() =~= before.push((key@, value@)));
        }
        *self = Arguments { entries };
    }

    /// Whether `self` gives every name the value that `other` gives it.
    fn within(&self, other: &Arguments) -> (r: bool)
        ensures
            r == (forall|i: int|
                0 <= i < self.entries().len() ==> lookup(
                    other.entries(),
                    (#[trigger] self.entries()[i]).0,
                ) == Some(self.entries()[i].1)),
    {
        let mut i: usize = 0;
        while i < self.entries.len()
            invariant
                i <= self.entries.len(),
                forall|j: int|
                    0 <= j < i ==> lookup(
                        other.entries(),
                        (#[trigger] self.entries.deep_view()[j]).0,
                    ) == Some(self.entries.deep_view()[j].1),
            decreases self.entries.len() - i,
        {
            match other.get(self.entries[i].0.as_str()) {
                Some(v) => {
                    if !crate::text::same_text(v.as_str(), self.entries[i].1.as_str()) {
                        assert(lookup(other.entries(), self.entries()[i as int].0) != Some(
                            self.entries()[i as int].1,
                        ));
                        return false;
                    }
                },
                None => {
                    assert(lookup(other.entries(), self.entries()[i as int].0) is None);
                    return false;
                },
            }
            i = i + 1;
        }
        true
    }

    /// Whether the two mappings are the same, whatever the order of their
    /// entries.
    pub fn same_as(&self, other: &Arguments) -> (r: bool)
        ensures
            r == (self@ == other@),
    {
        let a = self.within(other);
        let b = other.within(self);
        proof {
            use_type_invariant(self);
            use_type_invariant(other);
            let x = self.entries.deep_view();
            let y = other.entries.deep_view();
            if a && b {
                assert forall|k: Seq<char>| lookup(x, k) == lookup(y, k) by {
                    lemma_key_index(x, k);
                    lemma_key_index(y, k);
                    if key_index(x, k) < x.len() {
                        assert(lookup(y, x[key_index(x, k)].0) == Some(x[key_index(x, k)].1));
                    } else if key_index(y, k) < y.len() {
                        assert(lookup(x, y[key_index(y, k)].0) == Some(y[key_index(y, k)].1));
                    }
                }
                assert(self@ =~= other@);
            }
            if self@ == other@ {
                assert forall|i: int| 0 <= i < x.len() implies lookup(y, (#[trigger] x[i]).0)
                    == Some(x[i].1) by {
                    lemma_lookup_entry(x, i);
                    assert(self@.contains_key(x[i].0));
                    assert(other@.contains_key(x[i].0));
                    assert(self@[x[i].0] == other@[x[i].0]);
                }
                assert forall|i: int| 0 <= i < y.len() implies lookup(x, (#[trigger] y[i]).0)
                    == Some(y[i].1) by {
                    lemma_lookup_entry(y, i);
                    assert(other@.contains_key(y[i].0));
                    assert(self@.contains_key(y[i].0));
                    assert(self@[y[i].0] == other@[y[i].0]);
                }
            }
        }
        a && b
    }

    /// A copy with the same entries in the same order.
    pub fn duplicate(&self) -> (r: Self)
        ensures
            r@ == self@,
            r.entries() == self.entries(),
    {
        proof {
            use_type_invariant(self);
        }
        let mut entries: Vec<(String, String)> = Vec::new();
        let mut i: usize = 0;
        while i < self.entries.len()
            invariant
                i <= self.entries.len(),
                entries.deep_view() == self.entries.deep_view().take(i as int),
            decreases self.entries.len() - i,
        {
            let ghost before = entries.deep_view();
            entries.push((self.entries[i].0.clone(), self.entries[i].1.clone()));
            assert(entries.deep_view() =~= before.push(self.entries.deep_view()[i as int]));
            assert(self.entries.deep_view().take(i + 1) =~= self.entries.deep_view().take(
                i as int,
            ).push(self.entries.deep_view()[i as int]));
            i = i + 1;
        }
        assert(self.entries.deep_view().take(self.entries.len() as int)
            =~= self.entries.deep_view());
        Arguments { entries }
    }
}

impl Clone for Arguments {
    fn clone(&self) -> (r: Self)
        ensures
            r@ == self@,
            r.entries() == self.entries(),
    {
        self.duplicate()
    }
}

impl PartialEq for Arguments {
    fn eq(&self, other: &Self) -> (r: bool) {
        self.same_as(other)
    }
}

impl vstd::std_specs::cmp::PartialEqSpecImpl for Arguments {
    open spec fn obeys_eq_spec() -> bool {
        true
    }

    open spec fn eq_spec(&self, other: &Self) -> bool {
        self@ == other@
    }
}

impl Eq for Arguments {

}

impl Default for Arguments {
    fn default() -> (r: Self)
        ensures
            r@ == Map::<Seq<char>, Seq<char>>::empty(),
    {
        Arguments::new()
    }
}

} // verus!
