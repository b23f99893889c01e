//! The system parameters of a device.

use crate::text::from_utf8_lossy;
use vstd::prelude::*;

verus! {

/// No two of `entries` have the same name.
pub open spec fn distinct_names<V>(entries: Seq<(String, V)>) -> bool {
    forall|i: int, j: int|
        0 <= i < j < entries.len() ==> (#[trigger] entries[i]).0@ != (#[trigger] entries[j]).0@
}

/// Entry `i` has this name.
pub open spec fn is_named<V>(entries: Seq<(String, V)>, i: int, name: Seq<char>) -> bool {
    0 <= i < entries.len() && entries[i].0@ == name
}

/// The values of `entries` by name.
pub open spec fn by_name<V>(entries: Seq<(String, V)>) -> Map<Seq<char>, V> {
    Map::new(
        |name: Seq<char>| exists|i: int| is_named(entries, i, name),
        |name: Seq<char>| entries[choose|i: int| is_named(entries, i, name)].1,
    )
}

/// The parameters that the native library has told so far: values of type `V`,
/// by name.
pub struct SystemParameters<V> {
    entries: Vec<(String, V)>,
}

impl<V> View for SystemParameters<V> {
    type V = Map<Seq<char>, V>;

    closed spec fn view(&self) -> Map<Seq<char>, V> {
        by_name(self.entries@)
    }
}

impl<V> SystemParameters<V> {
    /// No name occurs twice.
    pub closed spec fn wf(self) -> bool {
        distinct_names(self.entries@)
    }

    /// No parameters, with room for `size` of them.
    pub fn with_capacity(size: usize) -> (parameters: Self)
        ensures
            parameters.wf(),
            parameters@ == Map::<Seq<char>, V>::empty(),
    {
        let parameters = SystemParameters { entries: Vec::with_capacity(size) };
        assert(by_name(parameters.entries@) =~= Map::<Seq<char>, V>::empty());
        parameters
    }

    /// The position of the parameter with this name.
    fn position(&self, name: &String) -> (position: Option<usize>)
        ensures
            match position {
                Some(i) => is_named(self.entries@, i as int, name@),
                None => forall|i: int| !is_named(self.entries@, i, name@),
            },
    {
        let mut i: usize = 0;
        while i < self.entries.len()
            invariant
                i <= self.entries@.len(),
                forall|j: int| 0 <= j < i ==> !is_named(self.entries@, j, name@),
            decreases self.entries.len() - i,
        {
            if self.entries[i].0 == *name {
                return Some(i);
            }
            i += 1;
        }
        None
    }

    /// Sets the parameter with this name. A value that it had before is lost.
    pub fn insert(&mut self, name: String, value: V)
        requires
            old(self).wf(),
        ensures
            final(self).wf(),
            final(self)@ == old(self)@.insert(name@, value),
    {
        let ghost before = self.entries@;
        let ghost added = name@;
        match self.position(&name) {
            Some(i) => {
                self.entries.set(i, (name, value));
                assert(is_named(self.entries@, i as int, added));
            },
            None => {
                self.entries.push((name, value));
                assert(is_named(self.entries@, before.len() as int, added));
            },
        }
        proof {
            let after = self.entries@;
            assert forall|i: int, j: int| 0 <= i < j < after.len() implies (#[trigger] after[i]).0@
                != (#[trigger] after[j]).0@ by {
                if j == before.len() {
                    assert(!is_named(before, i, added));
                } else {
                    assert(before[i].0@ == after[i].0@);
                    assert(before[j].0@ == after[j].0@);
                }
            }
            assert forall|n: Seq<char>| by_name(after).contains_key(n) <==> by_name(before).insert(
                added,
                value,
            ).contains_key(n) by {
                if n != added {
                    if exists|i: int| is_named(before, i, n) {
                        assert(is_named(after, choose|i: int| is_named(before, i, n), n));
                    }
                    if exists|i: int| is_named(after, i, n) {
                        assert(is_named(before, choose|i: int| is_named(after, i, n), n));
                    }
                }
            }
            assert forall|n: Seq<char>| by_name(after).contains_key(n) implies by_name(after)[n]
                == by_name(before).insert(added, value)[n] by {
                let j = choose|i: int| is_named(after, i, n);
                assert(is_named(after, j, n));
                if n != added {
                    assert(is_named(before, j, n));
                    let k = choose|i: int| is_named(before, i, n);
                    assert(j == k);
                }
            }
            assert(by_name(after) =~= by_name(before).insert(added, value));
        }
    }

    /// Takes a parameter as the native library told it: the bytes of its name,
    /// without the zero that ends them, and its value.
    pub fn accept(&mut self, name: &[u8], value: V)
        requires
            old(self).wf(),
        ensures
            final(self).wf(),
            final(self)@ == old(self)@.insert(crate::text::utf8_lossy(name@), value),
            vstd::utf8::valid_utf8(name@) ==> final(self)@ == old(self)@.insert(
                vstd::utf8::decode_utf8(name@),
                value,
            ),
    {
        self.insert(from_utf8_lossy(name), value);
    }

    /// The parameter with this name.
    pub fn get(&self, name: &str) -> (value: Option<&V>)
        requires
            self.wf(),
        ensures
            match value {
                Some(v) => self@.contains_key(name@) && *v == self@[name@],
                None => !self@.contains_key(name@),
            },
    {
        match self.position(&name.to_owned()) {
            Some(i) => Some(&self.entries[i].1),
            None => None,
        }
    }

    /// All parameters, each once, in no particular order.
    pub fn into_entries(self) -> (entries: Vec<(String, V)>)
        requires
            self.wf(),
        ensures
            distinct_names(entries@),
            by_name(entries@) == self@,
            forall|i: int, j: int|
                0 <= i < j < entries@.len() ==> (#[trigger] entries@[i]).0@ != (
                #[trigger] entries@[j]).0@,
            forall|i: int|
                0 <= i < entries@.len() ==> self@.contains_key((#[trigger] entries@[i]).0@)
                    && self@[entries@[i].0@] == entries@[i].1,
            forall|name: Seq<char>| #[trigger]
                self@.contains_key(name) ==> exists|i: int|
                    0 <= i < entries@.len() && (#[trigger] entries@[i]).0@ == name,
    {
        proof {
            let entries = self.entries@;
            assert forall|i: int| 0 <= i < entries.len() implies self@.contains_key(
                (#[trigger] entries[i]).0@,
            ) && self@[entries[i].0@] == entries[i].1 by {
                assert(is_named(entries, i, entries[i].0@));
                let j = choose|j: int| is_named(entries, j, entries[i].0@);
                assert(is_named(entries, j, entries[i].0@));
            }
            assert forall|name: Seq<char>| #[trigger] self@.contains_key(name) implies exists|i: int|
                0 <= i < entries.len() && (#[trigger] entries[i]).0@ == name by {
                let i = choose|i: int| is_named(entries, i, name);
                assert(entries[i].0@ == name);
            }
        }
        self.entries
    }
}

} // verus!
