//! The variable-binding store of one scope: a flat mapping from names to
//! values.

use vstd::prelude::*;

verus! {

/// The place of the binding of `name` in `s`: the last one, should a name
/// occur more than once.
pub open spec fn slot<V>(s: Seq<(Seq<char>, V)>, name: Seq<char>) -> Option<int>
    decreases s.len(),
{
    if s.len() == 0 {
        None
    } else if s.last().0 == name {
        Some(s.len() - 1)
    } else {
        slot(s.drop_last(), name)
    }
}

/// The value bound to `name` in `s`.
pub open spec fn find<V>(s: Seq<(Seq<char>, V)>, name: Seq<char>) -> Option<V> {
    match slot(s, name) {
        Some(i) => Some(s[i].1),
        None => None,
    }
}

/// The bindings `s` with `name` bound to `value`: in place of an earlier
/// binding of the name, or as a new last binding.
pub open spec fn bound<V>(s: Seq<(Seq<char>, V)>, name: Seq<char>, value: V) -> Seq<
    (Seq<char>, V),
> {
    match slot(s, name) {
        Some(i) => s.update(i, (name, value)),
        None => s.push((name, value)),
    }
}

/// The bindings `s` without the binding of `name`.
pub open spec fn unbound<V>(s: Seq<(Seq<char>, V)>, name: Seq<char>) -> Seq<(Seq<char>, V)> {
    match slot(s, name) {
        Some(i) => s.remove(i),
        None => s,
    }
}

/// No name is bound twice.
pub open spec fn distinct_names<V>(s: Seq<(Seq<char>, V)>) -> bool {
    forall|i: int, j: int| 0 <= i < j < s.len() ==> s[i].0 != s[j].0
}

/// What [`slot`] finds: an index that holds the name, after which the name
/// does not occur; or nothing, where the name does not occur at all.
pub proof fn slot_found<V>(s: Seq<(Seq<char>, V)>, name: Seq<char>)
    ensures
        match slot(s, name) {
            Some(i) => 0 <= i < s.len() && s[i].0 == name && forall|j: int|
                i < j < s.len() ==> s[j].0 != name,
            None => forall|j: int| 0 <= j < s.len() ==> s[j].0 != name,
        },
    decreases s.len(),
{
    if s.len() > 0 && s.last().0 != name {
        let t = s.drop_last();
        slot_found(t, name);
        assert forall|j: int| 0 <= j < t.len() implies s[j] == t[j] by {}
        match slot(t, name) {
            Some(i) => {
                assert forall|j: int| i < j < s.len() implies s[j].0 != name by {
                    if j < t.len() {
                        assert(s[j] == t[j]);
                    }
                }
            },
            None => {
                assert forall|j: int| 0 <= j < s.len() implies s[j].0 != name by {
                    if j < t.len() {
                        assert(s[j] == t[j]);
                    }
                }
            },
        }
    }
}

/// An index that holds the name, and after which the name does not occur,
/// is the one that [`slot`] finds.
pub proof fn slot_is<V>(s: Seq<(Seq<char>, V)>, name: Seq<char>, i: int)
    requires
        0 <= i < s.len(),
        s[i].0 == name,
        forall|j: int| i < j < s.len() ==> s[j].0 != name,
    ensures
        slot(s, name) == Some(i),
    decreases s.len(),
{
    if s.last().0 != name {
        slot_is(s.drop_last(), name, i);
    }
}

/// A name that does not occur has no slot.
pub proof fn slot_absent<V>(s: Seq<(Seq<char>, V)>, name: Seq<char>)
    requires
        forall|j: int| 0 <= j < s.len() ==> s[j].0 != name,
    ensures
        slot(s, name) is None,
    decreases s.len(),
{
    if s.len() > 0 {
        slot_absent(s.drop_last(), name);
    }
}

/// Where a name is bound depends on the names alone, not on the values.
pub proof fn slot_by_names<A, B>(s: Seq<(Seq<char>, A)>, t: Seq<(Seq<char>, B)>, name: Seq<char>)
    requires
        s.len() == t.len(),
        forall|i: int| 0 <= i < s.len() ==> s[i].0 == t[i].0,
    ensures
        slot(s, name) == slot(t, name),
    decreases s.len(),
{
    if s.len() > 0 && s.last().0 != name {
        slot_by_names(s.drop_last(), t.drop_last(), name);
    }
}

/// Reading after writing: a name that was just bound is found with the
/// value it was bound to, and every other name is found as before.
pub proof fn find_after_bound<V>(
    s: Seq<(Seq<char>, V)>,
    name: Seq<char>,
    value: V,
    other: Seq<char>,
)
    ensures
        find(bound(s, name, value), other) == if other == name {
            Some(value)
        } else {
            find(s, other)
        },
{
    let t = bound(s, name, value);
    slot_found(s, name);
    slot_found(s, other);
    match slot(s, name) {
        Some(i) => {
            if other == name {
                slot_is(t, other, i);
            } else {
                match slot(s, other) {
                    Some(k) => {
                        slot_is(t, other, k);
                    },
                    None => {
                        slot_absent(t, other);
                    },
                }
            }
        },
        None => {
            if other == name {
                slot_is(t, other, s.len() as int);
            } else {
                match slot(s, other) {
                    Some(k) => {
                        slot_is(t, other, k);
                    },
                    None => {
                        slot_absent(t, other);
                    },
                }
            }
        },
    }
}

/// Binding a name keeps the names distinct.
pub proof fn bound_keeps_distinct<V>(s: Seq<(Seq<char>, V)>, name: Seq<char>, value: V)
    requires
        distinct_names(s),
    ensures
        distinct_names(bound(s, name, value)),
{
    slot_found(s, name);
}

/// Reading after removing: among distinct names, a removed name is no
/// longer found, and every other name is found as before.
pub proof fn find_after_unbound<V>(s: Seq<(Seq<char>, V)>, name: Seq<char>, other: Seq<char>)
    requires
        distinct_names(s),
    ensures
        distinct_names(unbound(s, name)),
        find(unbound(s, name), other) == if other == name {
            None
        } else {
            find(s, other)
        },
{
    let t = unbound(s, name);
    slot_found(s, name);
    slot_found(s, other);
    match slot(s, name) {
        Some(i) => {
            assert forall|j: int| 0 <= j < t.len() implies t[j] == s[if j < i {
                j
            } else {
                j + 1
            }] by {}
            if other == name {
                slot_absent(t, other);
            } else {
                match slot(s, other) {
                    Some(k) => {
                        slot_is(
                            t,
                            other,
                            if k < i {
                                k
                            } else {
                                k - 1
                            },
                        );
                    },
                    None => {
                        slot_absent(t, other);
                    },
                }
            }
        },
        None => {},
    }
}

/// A store of variable bindings.
#[derive(Debug, PartialEq)]
pub struct SymbolMap<V> {
    pub symbols: Vec<(String, V)>,
}

impl<V> SymbolMap<V> {
    /// The bindings held: each name with its value, in the order in which
    /// the names were first bound.
    pub open spec fn bindings(&self) -> Seq<(Seq<char>, V)> {
        Seq::new(self.symbols@.len(), |i: int| (self.symbols@[i].0@, self.symbols@[i].1))
    }

    /// No name is bound twice.
    pub open spec fn well_formed(&self) -> bool {
        distinct_names(self.bindings())
    }

    /// The store without bindings.
    pub fn new() -> (r: Self)
        ensures
            r.bindings() == Seq::<(Seq<char>, V)>::empty(),
            r.well_formed(),
    {
        let r = Self { symbols: Vec::new() };
        assert(r.bindings() =~= Seq::<(Seq<char>, V)>::empty());
        r
    }

    /// The index of the binding of `key`.
    fn index_of(&self, key: &String) -> (r: Option<usize>)
        ensures
            match r {
                Some(i) => slot(self.bindings(), key@) == Some(i as int) && i
                    < self.symbols.len(),
                None => slot(self.bindings(), key@) is None,
            },
    {
        let ghost all = self.bindings();
        let mut i: usize = self.symbols.len();
        assert(all.subrange(0, i as int) == all);
        while i > 0
            invariant
                i <= self.symbols.len(),
                all == self.bindings(),
                slot(all, key@) == slot(all.subrange(0, i as int), key@),
            decreases i,
        {
            let ghost prefix = all.subrange(0, i as int);
            i -= 1;
            assert(prefix.drop_last() == all.subrange(0, i as int));
            assert(prefix.last() == all[i as int]);
            if self.symbols[i].0 == *key {
                return Some(i);
            }
        }
        None
    }

    /// The value bound to `key`.
    pub fn get(&self, key: String) -> (r: Option<&V>)
        ensures
            match r {
                Some(v) => find(self.bindings(), key@) == Some(*v),
                None => find(self.bindings(), key@) is None,
            },
    {
        match self.index_of(&key) {
            Some(i) => Some(&self.symbols[i].1),
            None => None,
        }
    }

    /// Binds `key` to `value` and returns the value it was bound to before.
    pub fn set(&mut self, key: String, value: V) -> (r: Option<V>)
        ensures
            final(self).bindings() == bound(old(self).bindings(), key@, value),
            r == find(old(self).bindings(), key@),
            old(self).well_formed() ==> final(self).well_formed(),
    {
        proof {
            if self.well_formed() {
                bound_keeps_distinct(self.bindings(), key@, value);
            }
        }
        match self.index_of(&key) {
            Some(i) => {
                let before = self.symbols.remove(i);
                self.symbols.insert(i, (key, value));
                assert(self.bindings() =~= bound(old(self).bindings(), key@, value));
                Some(before.1)
            },
            None => {
                self.symbols.push((key, value));
                assert(self.bindings() =~= bound(old(self).bindings(), key@, value));
                None
            },
        }
    }

    /// Removes the binding of `key` and returns the value it was bound to.
    pub fn remove(&mut self, key: String) -> (r: Option<V>)
        ensures
            final(self).bindings() == unbound(old(self).bindings(), key@),
            r == find(old(self).bindings(), key@),
            old(self).well_formed() ==> final(self).well_formed(),
    {
        proof {
            if self.well_formed() {
                find_after_unbound(self.bindings(), key@, key@);
            }
        }
        match self.index_of(&key) {
            Some(i) => {
                let before = self.symbols.remove(i);
                assert(self.bindings() =~= unbound(old(self).bindings(), key@));
                Some(before.1)
            },
            None => None,
        }
    }
}

} // verus!
