//! The handlers that receive the output of spawned processes.
//!
//! Every device of the process shares one [`OutputHandlers`]. A handler is
//! stored under a number, its key. The native library is given the key when a
//! handler is connected, and hands it back with every piece of output.

use std::collections::BTreeMap;
use vstd::prelude::*;

verus! {

broadcast use vstd::std_specs::btree::group_btree_axioms;

/// A registered handler.
pub struct UserData<C, X> {
    /// Takes the process, the file descriptor, the data and the context.
    pub callback: C,
    /// The context that the callback was registered with, as its calls left it.
    pub context: X,
}

/// `m` is the greatest element of `keys`.
pub open spec fn is_greatest(keys: Set<usize>, m: usize) -> bool {
    keys.contains(m) && forall|k: usize| #[trigger] keys.contains(k) ==> k <= m
}

/// The key after all those in use: one more than the greatest, or 0 when there
/// are none.
pub open spec fn next_key(keys: Set<usize>) -> int {
    if keys.is_empty() {
        0
    } else {
        (choose|m: usize| is_greatest(keys, m)) + 1
    }
}

/// `handlers` with `data` under the next key.
pub open spec fn registered<H>(handlers: Map<usize, H>, data: H) -> Map<usize, H> {
    handlers.insert(next_key(handlers.dom()) as usize, data)
}

/// `handlers` without those under `keys`.
pub open spec fn released<H>(handlers: Map<usize, H>, keys: Set<usize>) -> Map<usize, H> {
    handlers.remove_keys(keys)
}

/// The registered handlers, by key.
pub struct OutputHandlers<C, X> {
    entries: BTreeMap<usize, UserData<C, X>>,
}

impl<C, X> View for OutputHandlers<C, X> {
    type V = Map<usize, UserData<C, X>>;

    closed spec fn view(&self) -> Map<usize, UserData<C, X>> {
        self.entries@
    }
}

/// `BTreeMap::last_key_value`, without the value: the greatest key of the map,
/// or `None` when the map is empty.
#[verifier::external_body]
fn last_key<V>(map: &BTreeMap<usize, V>) -> (last: Option<usize>)
    ensures
        match last {
            Some(key) => is_greatest(map@.dom(), key),
            None => map@.dom().is_empty(),
        },
{
    map.last_key_value().map(|entry| *entry.0)
}

/// `BTreeMap::get_mut`: the value under `key`, to be changed in place, or `None`
/// when the map holds none.
#[verifier::external_body]
fn value_mut<V>(map: &mut BTreeMap<usize, V>, key: usize) -> (value: Option<&mut V>)
    ensures
        match value {
            Some(v) => {
                &&& old(map)@.contains_key(key)
                &&& *v == old(map)@[key]
                &&& final(map)@ == old(map)@.insert(key, *final(v))
            },
            None => !old(map)@.contains_key(key) && final(map)@ == old(map)@,
        },
{
    map.get_mut(&key)
}

/// There are finitely many handlers, so that one of their keys is the greatest.
pub proof fn handlers_are_finite<C, X>(handlers: OutputHandlers<C, X>)
    ensures
        handlers@.dom().finite(),
{
}

impl<C, X> OutputHandlers<C, X> {
    /// No handlers.
    pub fn new() -> (handlers: Self)
        ensures
            handlers@ == Map::<usize, UserData<C, X>>::empty(),
    {
        OutputHandlers { entries: BTreeMap::new() }
    }

    /// Whether there is a next key: only the greatest `usize` has none after it.
    pub fn has_room(&self) -> (room: bool)
        ensures
            room == (next_key(self@.dom()) <= usize::MAX),
            room == !self@.contains_key(usize::MAX),
    {
        match last_key(&self.entries) {
            Some(last) => {
                assert(is_greatest(self.entries@.dom(), last));
                last < usize::MAX
            },
            None => true,
        }
    }

    /// Stores `data` under the next key, which is returned.
    pub fn register(&mut self, data: UserData<C, X>) -> (key: usize)
        requires
            next_key(old(self)@.dom()) <= usize::MAX,
        ensures
            key == next_key(old(self)@.dom()),
            !old(self)@.contains_key(key),
            forall|k: usize| #[trigger] old(self)@.contains_key(k) ==> k < key,
            key > 0 ==> old(self)@.contains_key((key - 1) as usize),
            final(self)@ == registered(old(self)@, data),
            final(self)@ == old(self)@.insert(key, data),
    {
        let key: usize = match last_key(&self.entries) {
            Some(last) => {
                assert(is_greatest(self.entries@.dom(), last));
                last + 1
            },
            None => 0,
        };
        self.entries.insert(key, data);
        key
    }

    /// Takes the handler under `key` out, if there is one.
    pub(crate) fn unregister(&mut self, key: usize)
        ensures
            final(self)@ == old(self)@.remove(key),
    {
        self.entries.remove(&key);
    }
}

impl<C, X> UserData<C, X> where C: FnMut(u32, i8, &[u8], &mut X) {
    /// The callback may be called with this piece of output and the context as
    /// it is.
    pub open spec fn accepts(self, pid: u32, fd: i8, data: &[u8]) -> bool {
        forall|c: &mut X|
            *c == self.context ==> #[trigger] call_requires(self.callback, (pid, fd, data, c))
    }

    /// `self` can take the place of `registered`: its callback may be called
    /// exactly where that of `registered` may be called, and what it may do in a
    /// call the other may do too. The contexts may differ.
    pub open spec fn stands_for(self, registered: Self) -> bool {
        &&& forall|p: u32, n: i8, b: &[u8], c: &mut X| #[trigger]
            call_requires(self.callback, (p, n, b, c)) == call_requires(
                registered.callback,
                (p, n, b, c),
            )
        &&& forall|p: u32, n: i8, b: &[u8], c: &mut X| #[trigger]
            call_ensures(self.callback, (p, n, b, c), ()) ==> call_ensures(
                registered.callback,
                (p, n, b, c),
                (),
            )
    }
}

impl<C, X> OutputHandlers<C, X> where C: FnMut(u32, i8, &[u8], &mut X) {
    /// Hands a piece of output to the handler under `key`: its callback is called
    /// once, with the process, the file descriptor, the data and its own context.
    /// What the call leaves of the handler stays under the key. Output for a key
    /// that no handler is stored under is dropped.
    pub fn dispatch(&mut self, key: usize, pid: u32, fd: i8, data: &[u8])
        requires
            old(self)@.contains_key(key) ==> old(self)@[key].accepts(pid, fd, data),
        ensures
            !old(self)@.contains_key(key) ==> final(self)@ == old(self)@,
            old(self)@.contains_key(key) ==> final(self)@ == old(self)@.insert(
                key,
                final(self)@[key],
            ),
            old(self)@.contains_key(key) ==> final(self)@[key].stands_for(old(self)@[key]),
            old(self)@.contains_key(key) ==> exists|c: &mut X|
                *c == old(self)@[key].context && *final(c) == final(self)@[key].context
                    && #[trigger] call_ensures(
                    old(self)@[key].callback,
                    (pid, fd, data, c),
                    (),
                ),
    {
        match value_mut(&mut self.entries, key) {
            Some(UserData { callback, context }) => callback(pid, fd, data, context),
            None => {},
        }
    }
}

/// How many bytes of output there are to read, given the size that
/// `g_bytes_get_data` told and whether the address that it returned is null.
pub fn output_len(raw_data_size: u64, raw_data_is_null: bool) -> (len: usize)
    requires
        !raw_data_is_null ==> raw_data_size <= usize::MAX,
    ensures
        len == if raw_data_is_null {
            0
        } else {
            raw_data_size as int
        },
{
    if raw_data_size == 0 || raw_data_is_null {
        0
    } else {
        raw_data_size as usize
    }
}

} // verus!
