//! A map from names to values.

use vstd::prelude::*;

verus! {

/// One name and its value.
pub struct Entry<V> {
    pub name: String,
    pub value: V,
}

/// The position of `name` among `entries`.
pub open spec fn position<V>(entries: Seq<Entry<V>>, name: Seq<char>) -> int {
    choose|i: int| 0 <= i < entries.len() && #[trigger] entries[i].name@ == name
}

/// Some entry has the name `name`.
pub open spec fn listed<V>(entries: Seq<Entry<V>>, name: Seq<char>) -> bool {
    exists|i: int| 0 <= i < entries.len() && #[trigger] entries[i].name@ == name
}

/// The names of `entries`, in order.
pub open spec fn names<V>(entries: Seq<Entry<V>>) -> Seq<Seq<char>> {
    entries.map_values(|entry: Entry<V>| entry.name@)
}

/// No two entries have the same name.
pub open spec fn distinct<V>(entries: Seq<Entry<V>>) -> bool {
    forall|i: int, j: int|
        0 <= i < j < entries.len() ==> #[trigger] entries[i].name@ != #[trigger] entries[j].name@
}

/// Named values, each name at most once, in the order in which the names were first inserted.
pub struct NameMap<V> {
    entries: Vec<Entry<V>>,
}

impl<V> View for NameMap<V> {
    type V = Map<Seq<char>, V>;

    open spec fn view(&self) -> Map<Seq<char>, V> {
        Map::new(
            |name: Seq<char>| listed(self.entries(), name),
            |name: Seq<char>| self.entries()[position(self.entries(), name)].value,
        )
    }
}

impl<V> NameMap<V> {
    #[verifier::type_invariant]
    spec fn well_formed(self) -> bool {
        distinct(self.entries@)
    }

    /// The entries, in order.
    pub closed spec fn entries(self) -> Seq<Entry<V>> {
        self.entries@
    }

    /// Create an empty map.
    pub fn new() -> (map: Self)
        ensures
            map@ == Map::<Seq<char>, V>::empty(),
            map.entries() == Seq::<Entry<V>>::empty(),
    {
        let map = NameMap { entries: Vec::new() };
        assert(map@ =~= Map::<Seq<char>, V>::empty());
        map
    }

    /// The number of names.
    pub fn len(&self) -> (n: usize)
        ensures
            n == self.entries().len(),
            n == self@.dom().len(),
    {
        proof {
            use_type_invariant(self);
            lemma_names_are_counted(self.entries@);
            assert(self@.dom() =~= names(self.entries@).to_set()) by {
                lemma_names_are_listed(self.entries@);
            }
        }
        self.entries.len()
    }

    /// The entry at position `i`.
    pub fn entry(&self, i: usize) -> (entry: &Entry<V>)
        requires
            i < self.entries().len(),
        ensures
            *entry == self.entries()[i as int],
            self@.contains_key(entry.name@),
            self@[entry.name@] == entry.value,
    {
        proof {
            use_type_invariant(self);
        }
        let entry = &self.entries[i];
        assert(listed(self.entries@, entry.name@));
        entry
    }

    fn find(&self, name: &String) -> (found: Option<usize>)
        ensures
            match found {
                Some(i) => i < self.entries@.len() && self.entries@[i as int].name@ == name@,
                None => !listed(self.entries@, name@),
            },
    {
        let mut i: usize = 0;
        while i < self.entries.len()
            invariant
                i <= self.entries@.len(),
                forall|j: int| 0 <= j < i ==> #[trigger] self.entries@[j].name@ != name@,
            decreases self.entries@.len() - i,
        {
            if self.entries[i].name == *name {
                return Some(i);
            }
            i = i + 1;
        }
        None
    }

    /// The value named `name`.
    pub fn get(&self, name: &str) -> (value: Option<&V>)
        ensures
            match value {
                Some(v) => self@.contains_key(name@) && *v == self@[name@],
                None => !self@.contains_key(name@),
            },
    {
        proof {
            use_type_invariant(self);
        }
        match self.find(&name.to_owned()) {
            Some(i) => {
                assert(listed(self.entries@, name@));
                Some(&self.entries[i].value)
            },
            None => None,
        }
    }

    /// Insert `value` under `name`, replacing the value that was there.
    pub fn insert(&mut self, name: String, value: V)
        ensures
            final(self)@ == old(self)@.insert(name@, value),
            final(self).entries() == if old(self)@.contains_key(name@) {
                old(self).entries().update(
                    position(old(self).entries(), name@),
                    Entry { name, value },
                )
            } else {
                old(self).entries().push(Entry { name, value })
            },
    {
        proof {
            use_type_invariant(&*self);
        }
        let found = self.find(&name);
        let mut entries: Vec<Entry<V>> = Vec::new();
        std::mem::swap(&mut entries, &mut self.entries);
        let ghost before = entries@;
        let ghost key = name@;
        match found {
            Some(i) => {
                entries.set(i, Entry { name, value });
            },
            None => {
                entries.push(Entry { name, value });
            },
        }
        proof {
            lemma_stored(before, entries@, key, value, found);
        }
        self.entries = entries;
        assert(self@ =~= old(self)@.insert(key, value)) by {
            lemma_stored(before, entries@, key, value, found);
        }
    }

    /// Remove `name` and its value.
    pub fn remove(&mut self, name: &str)
        ensures
            final(self)@ == old(self)@.remove(name@),
            final(self).entries() == if old(self)@.contains_key(name@) {
                old(self).entries().remove(position(old(self).entries(), name@))
            } else {
                old(self).entries()
            },
    {
        proof {
            use_type_invariant(&*self);
        }
        match self.find(&name.to_owned()) {
            Some(i) => {
                let mut entries: Vec<Entry<V>> = Vec::new();
                std::mem::swap(&mut entries, &mut self.entries);
                let ghost before = entries@;
                entries.remove(i);
                proof {
                    lemma_removed(before, entries@, name@, i as int);
                }
                self.entries = entries;
                assert(self@ =~= old(self)@.remove(name@));
            },
            None => {
                assert(self@ =~= old(self)@.remove(name@));
            },
        }
    }

    /// Call `f` on the value named `name`, if there is one.
    pub fn update<F: FnOnce(&mut V)>(&mut self, name: &str, f: F)
        requires
            forall|v: &mut V| #[trigger] f.requires((v,)),
        ensures
            !old(self)@.contains_key(name@) ==> *final(self) == *old(self),
            old(self)@.contains_key(name@) ==> exists|v: &mut V|
                #![trigger f.ensures((v,), ())]
                *v == old(self)@[name@] && final(self)@ == old(self)@.insert(name@, *final(v))
                    && f.ensures((v,), ()),
            names(final(self).entries()) == names(old(self).entries()),
    {
        proof {
            use_type_invariant(&*self);
        }
        match self.find(&name.to_owned()) {
            Some(i) => {
                let mut entries: Vec<Entry<V>> = Vec::new();
                std::mem::swap(&mut entries, &mut self.entries);
                let ghost before = entries@;
                assert(listed(before, name@));
                f(&mut entries[i].value);
                proof {
                    lemma_stored(before, entries@, name@, entries@[i as int].value, Some(i));
                }
                self.entries = entries;
                assert(self@ =~= old(self)@.insert(name@, entries@[i as int].value));
            },
            None => {},
        }
    }
}

/// A value that can be copied to one of the same mathematical form.
pub trait Duplicate: View + Sized {
    fn duplicate(&self) -> (copy: Self)
        ensures
            copy@ == self@,
    ;
}

impl Duplicate for String {
    fn duplicate(&self) -> String {
        self.clone()
    }
}

/// The mathematical form of each named value.
pub open spec fn values<V: View>(map: Map<Seq<char>, V>) -> Map<Seq<char>, V::V> {
    map.map_values(|v: V| v@)
}

impl<V> NameMap<V> {
    /// The names of this map, each with what `f` makes of its value.
    pub fn mapped<W, F: Fn(&V) -> W>(&self, f: F) -> (out: NameMap<W>)
        requires
            forall|v: &V| #[trigger] f.requires((v,)),
        ensures
            out@.dom() == self@.dom(),
            names(out.entries()) == names(self.entries()),
            forall|name: Seq<char>| #[trigger]
                self@.contains_key(name) ==> f.ensures((&self@[name],), out@[name]),
    {
        proof {
            use_type_invariant(self);
        }
        let mut out: NameMap<W> = NameMap::new();
        let mut i: usize = 0;
        while i < self.entries.len()
            invariant
                i <= self.entries@.len(),
                distinct(self.entries@),
                forall|v: &V| #[trigger] f.requires((v,)),
                forall|name: Seq<char>| #[trigger]
                    out@.contains_key(name) ==> listed(self.entries@.take(i as int), name),
                names(out.entries()) == names(self.entries@.take(i as int)),
                forall|j: int|
                    0 <= j < i ==> {
                        &&& out@.contains_key((#[trigger] self.entries@[j]).name@)
                        &&& f.ensures((&self.entries@[j].value,), out@[self.entries@[j].name@])
                    },
            decreases self.entries@.len() - i,
        {
            let entry = &self.entries[i];
            let value = f(&entry.value);
            let ghost before = out@;
            let ghost earlier = out.entries();
            proof {
                let had = self.entries@.take(i as int);
                if before.contains_key(entry.name@) {
                    let p = position(had, entry.name@);
                    assert(listed(had, entry.name@));
                    assert(had[p] == self.entries@[p]);
                    assert(self.entries@[p].name@ != self.entries@[i as int].name@);
                }
                assert(!before.contains_key(entry.name@));
            }
            out.insert(entry.name.clone(), value);
            proof {
                let had = self.entries@.take(i as int);
                let has = self.entries@.take(i + 1);
                assert(has =~= had.push(*entry));
                assert(names(out.entries()) =~= names(earlier).push(entry.name@));
                assert(names(has) =~= names(had).push(entry.name@));
                assert forall|name: Seq<char>| #[trigger] out@.contains_key(name) implies listed(
                    has,
                    name,
                ) by {
                    if name == entry.name@ {
                        assert(has[i as int].name@ == name);
                    } else {
                        assert(before.contains_key(name));
                        let p = position(had, name);
                        assert(has[p] == had[p]);
                    }
                }
            }
            i = i + 1;
        }
        proof {
            assert(self.entries@.take(i as int) =~= self.entries@);
            assert forall|name: Seq<char>| #[trigger] self@.contains_key(name) implies out@.contains_key(
                name,
            ) && f.ensures((&self@[name],), out@[name]) by {
                let p = position(self.entries@, name);
                assert(self.entries@[p].name@ == name);
            }
            assert(out@.dom() =~= self@.dom());
        }
        out
    }
}

impl<V: Duplicate> NameMap<V> {
    /// A copy of the map and of its values.
    pub fn duplicate(&self) -> (copy: Self)
        ensures
            values(copy@) == values(self@),
    {
        let again = |v: &V| -> (w: V)
            ensures
                w@ == v@,
            { v.duplicate() };
        let copy = self.mapped(again);
        assert(values(copy@) =~= values(self@));
        copy
    }
}

/// A name is listed exactly if it is among the names.
proof fn lemma_names_are_listed<V>(entries: Seq<Entry<V>>)
    ensures
        forall|name: Seq<char>| #[trigger]
            listed(entries, name) == names(entries).to_set().contains(name),
{
    assert forall|name: Seq<char>| #[trigger] listed(entries, name) == names(
        entries,
    ).to_set().contains(name) by {
        if listed(entries, name) {
            let p = position(entries, name);
            assert(names(entries)[p] == name);
        }
        if names(entries).contains(name) {
            let p = choose|p: int| 0 <= p < names(entries).len() && names(entries)[p] == name;
            assert(entries[p].name@ == name);
        }
    }
}

/// There are as many names as entries.
proof fn lemma_names_are_counted<V>(entries: Seq<Entry<V>>)
    requires
        distinct(entries),
    ensures
        names(entries).to_set().len() == entries.len(),
{
    assert(names(entries).no_duplicates()) by {
        assert forall|i: int, j: int|
            0 <= i < names(entries).len() && 0 <= j < names(entries).len() && i != j implies names(
            entries,
        )[i] != names(entries)[j] by {
            assert(names(entries)[i] == entries[i].name@);
            assert(names(entries)[j] == entries[j].name@);
        }
    }
    names(entries).unique_seq_to_set();
}

/// Storing `value` under `key`, at `found` or else at the end, keeps the names distinct and
/// changes no other name's value.
proof fn lemma_stored<V>(
    before: Seq<Entry<V>>,
    after: Seq<Entry<V>>,
    key: Seq<char>,
    value: V,
    found: Option<usize>,
)
    requires
        distinct(before),
        match found {
            Some(i) => {
                &&& i < before.len()
                &&& before[i as int].name@ == key
                &&& after.len() == before.len()
                &&& after[i as int].name@ == key
                &&& after[i as int].value == value
                &&& forall|j: int|
                    0 <= j < before.len() && j != i ==> #[trigger] after[j] == before[j]
            },
            None => {
                &&& !listed(before, key)
                &&& after.len() == before.len() + 1
                &&& after[before.len() as int].name@ == key
                &&& after[before.len() as int].value == value
                &&& forall|j: int| 0 <= j < before.len() ==> #[trigger] after[j] == before[j]
            },
        },
    ensures
        distinct(after),
        listed(after, key),
        after[position(after, key)].value == value,
        forall|name: Seq<char>|
            name != key ==> #[trigger] listed(after, name) == listed(before, name),
        forall|name: Seq<char>|
            name != key && #[trigger] listed(before, name) ==> after[position(after, name)].value
                == before[position(before, name)].value,
{
    let at = match found {
        Some(i) => i as int,
        None => before.len() as int,
    };
    assert(after[at].name@ == key);
    assert forall|i: int, j: int| 0 <= i < j < after.len() implies #[trigger] after[i].name@
        != #[trigger] after[j].name@ by {
        if i == at {
            assert(after[j] == before[j]);
        } else if j == at {
            assert(after[i] == before[i]);
        } else {
            assert(after[i] == before[i]);
            assert(after[j] == before[j]);
        }
    }
    assert forall|name: Seq<char>| name != key implies #[trigger] listed(after, name) == listed(
        before,
        name,
    ) by {
        if listed(after, name) {
            let p = position(after, name);
            assert(after[p] == before[p]);
        }
        if listed(before, name) {
            let p = position(before, name);
            assert(after[p] == before[p]);
        }
    }
    assert forall|name: Seq<char>| name != key && #[trigger] listed(before, name) implies after[
        position(after, name)
    ].value == before[position(before, name)].value by {
        let p = position(before, name);
        assert(after[p] == before[p]);
        assert(listed(after, name));
    }
}

/// Removing the entry at `at` keeps the names distinct and changes no other name's value.
proof fn lemma_removed<V>(before: Seq<Entry<V>>, after: Seq<Entry<V>>, key: Seq<char>, at: int)
    requires
        distinct(before),
        0 <= at < before.len(),
        before[at].name@ == key,
        after == before.remove(at),
    ensures
        distinct(after),
        !listed(after, key),
        forall|name: Seq<char>|
            name != key ==> #[trigger] listed(after, name) == listed(before, name),
        forall|name: Seq<char>|
            name != key && #[trigger] listed(before, name) ==> after[position(after, name)].value
                == before[position(before, name)].value,
{
    assert forall|i: int| 0 <= i < after.len() implies #[trigger] after[i] == before[if i < at {
        i
    } else {
        i + 1
    }] by {}
    assert forall|name: Seq<char>| name != key implies #[trigger] listed(after, name) == listed(
        before,
        name,
    ) by {
        if listed(before, name) {
            let p = position(before, name);
            let q = if p < at {
                p
            } else {
                p - 1
            };
            assert(after[q] == before[p]);
        }
    }
    assert forall|name: Seq<char>| name != key && #[trigger] listed(before, name) implies after[
        position(after, name)
    ].value == before[position(before, name)].value by {
        let p = position(before, name);
        let q = if p < at {
            p
        } else {
            p - 1
        };
        assert(after[q] == before[p]);
        assert(listed(after, name));
    }
}

} // verus!
