//! What holds of the handlers of all devices, through every history of the
//! process.

use crate::device::DeviceView;
use crate::handlers::UserData;
use vstd::prelude::*;

verus! {

/// The devices of a process, and the handlers that they share.
pub struct System<C, X> {
    /// The stored handlers, by key: the view of the shared
    /// [`crate::handlers::OutputHandlers`].
    pub handlers: Map<usize, UserData<C, X>>,
    /// The views of the [`crate::device::Device`]s.
    pub devices: Seq<DeviceView>,
}

/// Something that happens in a process.
pub enum Step<C, X> {
    /// A device is made ([`crate::device::Device::from_raw`]).
    Open { device_ptr: usize },
    /// A handler is registered for a device ([`crate::device::Device::on_output`]
    /// or [`crate::device::Device::on_output_with_context`]) and connected under
    /// an id ([`crate::device::Device::output_connected`]).
    Connect { device: int, data: UserData<C, X>, handler_id: u64 },
    /// Output arrives for a key ([`crate::handlers::OutputHandlers::dispatch`]).
    /// Where a handler is stored there, it is left as `after`.
    Output { key: usize, after: UserData<C, X> },
    /// A device is dropped ([`crate::device::Device::release`]).
    Close { device: int },
}

impl<C, X> System<C, X> where C: FnMut(u32, i8, &[u8], &mut X) {
    /// No devices and no handlers.
    pub open spec fn initial() -> Self {
        System { handlers: Map::empty(), devices: Seq::empty() }
    }

    /// The step can be taken: its device is there, and so is a next key, and
    /// output leaves a handler that stands for the one that was stored.
    pub open spec fn can_take(self, step: Step<C, X>) -> bool {
        match step {
            Step::Open { .. } => true,
            Step::Connect { device, .. } => 0 <= device < self.devices.len()
                && crate::handlers::next_key(self.handlers.dom()) <= usize::MAX,
            Step::Output { key, after } => self.handlers.contains_key(key) ==> after.stands_for(
                self.handlers[key],
            ),
            Step::Close { device } => 0 <= device < self.devices.len(),
        }
    }

    /// The system after the step.
    pub open spec fn take_step(self, step: Step<C, X>) -> Self {
        match step {
            Step::Open { device_ptr } => System {
                devices: self.devices.push(DeviceView::opened(device_ptr)),
                ..self
            },
            Step::Connect { device, data, handler_id } => {
                let key = crate::handlers::next_key(self.handlers.dom()) as usize;
                System {
                    handlers: crate::handlers::registered(self.handlers, data),
                    devices: self.devices.update(
                        device,
                        self.devices[device].connected(handler_id, key),
                    ),
                }
            },
            Step::Output { key, after } => if self.handlers.contains_key(key) {
                System { handlers: self.handlers.insert(key, after), ..self }
            } else {
                self
            },
            Step::Close { device } => System {
                handlers: crate::handlers::released(self.handlers, self.devices[device].keys()),
                devices: self.devices.remove(device),
            },
        }
    }

    /// The system after all of `steps`, one after the other.
    pub open spec fn after(steps: Seq<Step<C, X>>) -> Self
        decreases steps.len(),
    {
        if steps.len() == 0 {
            Self::initial()
        } else {
            Self::after(steps.drop_last()).take_step(steps.last())
        }
    }

    /// All of `steps` can be taken, one after the other.
    pub open spec fn possible(steps: Seq<Step<C, X>>) -> bool
        decreases steps.len(),
    {
        steps.len() > 0 ==> Self::possible(steps.drop_last()) && Self::after(
            steps.drop_last(),
        ).can_take(steps.last())
    }

    /// Device `d` has the handler under `key`, connected under `id`.
    pub open spec fn has(self, d: int, id: u64, key: usize) -> bool {
        0 <= d < self.devices.len() && self.devices[d].mappings.contains_key(id)
            && self.devices[d].mappings[id] == key
    }

    /// There are finitely many handlers, every key that a device has is that of a
    /// stored handler, and no two connections share one.
    pub open spec fn consistent(self) -> bool {
        &&& self.handlers.dom().finite()
        &&& forall|d: int, id: u64, key: usize| #[trigger]
            self.has(d, id, key) ==> self.handlers.contains_key(key)
        &&& forall|d1: int, id1: u64, d2: int, id2: u64, key: usize|
            #![trigger self.has(d1, id1, key), self.has(d2, id2, key)]
            self.has(d1, id1, key) && self.has(d2, id2, key) ==> d1 == d2 && id1 == id2
    }

    /// Some device has the handler under `key`.
    pub open spec fn owned(self, key: usize) -> bool {
        exists|d: int, id: u64| self.has(d, id, key)
    }

    /// Every stored handler is that of some device.
    pub open spec fn all_owned(self) -> bool {
        forall|key: usize| self.handlers.contains_key(key) ==> #[trigger] self.owned(key)
    }

    /// The native library gives a new connection an id that no connection of the
    /// device has.
    pub open spec fn new_id(self, step: Step<C, X>) -> bool {
        match step {
            Step::Connect { device, handler_id, .. } => !self.devices[device].mappings.contains_key(
                handler_id,
            ),
            _ => true,
        }
    }

    /// The native library gives every new connection in `steps` a new id.
    pub open spec fn new_ids(steps: Seq<Step<C, X>>) -> bool
        decreases steps.len(),
    {
        steps.len() > 0 ==> Self::new_ids(steps.drop_last()) && Self::after(
            steps.drop_last(),
        ).new_id(steps.last())
    }
}

/// A finite set of keys that is not empty has a greatest.
proof fn lemma_greatest_exists(keys: Set<usize>)
    requires
        keys.finite(),
        !keys.is_empty(),
    ensures
        exists|m: usize| crate::handlers::is_greatest(keys, m),
    decreases keys.len(),
{
    let k = keys.choose();
    let rest = keys.remove(k);
    if rest.is_empty() {
        assert forall|j: usize| #[trigger] keys.contains(j) implies j <= k by {
            if j != k {
                assert(rest.contains(j));
            }
        }
        assert(crate::handlers::is_greatest(keys, k));
    } else {
        lemma_greatest_exists(rest);
        let m = choose|m: usize| crate::handlers::is_greatest(rest, m);
        let top = if k > m {
            k
        } else {
            m
        };
        assert forall|j: usize| #[trigger] keys.contains(j) implies j <= top by {
            if j != k {
                assert(rest.contains(j));
            }
        }
        assert(crate::handlers::is_greatest(keys, top));
    }
}

/// The key of a new handler is greater than all keys in use, and so it is new. It
/// is 0 or follows a key in use. There is one unless the greatest number is in
/// use.
pub proof fn next_key_is_new(keys: Set<usize>)
    requires
        keys.finite(),
    ensures
        forall|k: usize| #[trigger] keys.contains(k) ==> k < crate::handlers::next_key(keys),
        crate::handlers::next_key(keys) >= 0,
        crate::handlers::next_key(keys) > 0 ==> keys.contains(
            (crate::handlers::next_key(keys) - 1) as usize,
        ),
        crate::handlers::next_key(keys) <= usize::MAX <==> !keys.contains(usize::MAX),
{
    if !keys.is_empty() {
        lemma_greatest_exists(keys);
        let m = choose|m: usize| crate::handlers::is_greatest(keys, m);
        assert(crate::handlers::is_greatest(keys, m));
    }
}

/// Whatever step is taken, a consistent system stays consistent.
pub proof fn step_keeps_consistent<C, X>(system: System<C, X>, step: Step<C, X>) where
    C: FnMut(u32, i8, &[u8], &mut X),
    requires
        system.consistent(),
        system.can_take(step),
    ensures
        system.take_step(step).consistent(),
{
    let next = system.take_step(step);
    next_key_is_new(system.handlers.dom());
    match step {
        Step::Open { device_ptr } => {
            assert forall|d: int, id: u64, key: usize| #[trigger] next.has(d, id, key) implies system.has(
                d,
                id,
                key,
            ) by {}
        },
        Step::Connect { device, data, handler_id } => {
            let new = crate::handlers::next_key(system.handlers.dom()) as usize;
            assert forall|d: int, id: u64, key: usize| #[trigger] next.has(d, id, key) implies (if d
                == device && id == handler_id {
                key == new
            } else {
                system.has(d, id, key) && key != new
            }) by {
                if !(d == device && id == handler_id) {
                    assert(system.has(d, id, key));
                    assert(system.handlers.dom().contains(key));
                }
            }
        },
        Step::Output { key, after } => {
            assert forall|d: int, id: u64, k: usize| #[trigger] next.has(d, id, k) implies system.has(
                d,
                id,
                k,
            ) by {}
        },
        Step::Close { device } => {
            assert(next.handlers.dom() =~= system.handlers.dom().difference(
                system.devices[device].keys(),
            ));
            assert forall|d: int, id: u64, key: usize| #[trigger] next.has(d, id, key) implies {
                let was = if d < device {
                    d
                } else {
                    d + 1
                };
                system.has(was, id, key) && next.handlers.contains_key(key)
            } by {
                let was = if d < device {
                    d
                } else {
                    d + 1
                };
                assert(system.has(was, id, key));
                if system.devices[device].keys().contains(key) {
                    let other = choose|other: u64| system.devices[device].mappings.contains_key(other)
                        && system.devices[device].mappings[other] == key;
                    assert(system.has(device, other, key));
                }
            }
        },
    }
}

/// At every time, every key that a device has is that of a stored handler, and
/// no two connections, of one device or of two, share a handler.
pub proof fn always_consistent<C, X>(steps: Seq<Step<C, X>>) where
    C: FnMut(u32, i8, &[u8], &mut X),
    requires
        System::possible(steps),
    ensures
        System::after(steps).consistent(),
    decreases steps.len(),
{
    if steps.len() > 0 {
        always_consistent(steps.drop_last());
        step_keeps_consistent(System::after(steps.drop_last()), steps.last());
    }
}

/// As long as the native library gives every connection of a device an id of its
/// own, every stored handler is that of a device that was not dropped.
pub proof fn always_owned<C, X>(steps: Seq<Step<C, X>>) where
    C: FnMut(u32, i8, &[u8], &mut X),
    requires
        System::possible(steps),
        System::new_ids(steps),
    ensures
        System::after(steps).all_owned(),
    decreases steps.len(),
{
    if steps.len() > 0 {
        always_owned(steps.drop_last());
        always_consistent(steps.drop_last());
        let system = System::after(steps.drop_last());
        let next = system.take_step(steps.last());
        assert forall|key: usize| next.handlers.contains_key(key) implies #[trigger] next.owned(
            key,
        ) by {
            match steps.last() {
                Step::Open { device_ptr } => {
                    assert(system.owned(key));
                    let (d, id) = choose|d: int, id: u64| system.has(d, id, key);
                    assert(next.has(d, id, key));
                },
                Step::Connect { device, data, handler_id } => {
                    let new = crate::handlers::next_key(system.handlers.dom()) as usize;
                    if key == new {
                        assert(next.has(device, handler_id, key));
                    } else {
                        assert(system.owned(key));
                        let (d, id) = choose|d: int, id: u64| system.has(d, id, key);
                        assert(next.has(d, id, key));
                    }
                },
                Step::Output { key: at, after } => {
                    assert(system.handlers.contains_key(key));
                    assert(system.owned(key));
                    let (d, id) = choose|d: int, id: u64| system.has(d, id, key);
                    assert(next.has(d, id, key));
                },
                Step::Close { device } => {
                    assert(system.owned(key));
                    let (d, id) = choose|d: int, id: u64| system.has(d, id, key);
                    if d == device {
                        assert(system.devices[device].mappings.contains_key(id));
                        assert(system.devices[device].keys().contains(key));
                    }
                    let now = if d < device {
                        d
                    } else {
                        d - 1
                    };
                    assert(next.has(now, id, key));
                },
            }
        }
    }
}

/// Once all devices are dropped no handler is left, as long as the native
/// library gave every connection of a device an id of its own.
pub proof fn nothing_is_left<C, X>(steps: Seq<Step<C, X>>) where
    C: FnMut(u32, i8, &[u8], &mut X),
    requires
        System::possible(steps),
        System::new_ids(steps),
        System::after(steps).devices.len() == 0,
    ensures
        System::after(steps).handlers == Map::<usize, UserData<C, X>>::empty(),
{
    always_owned(steps);
    let system = System::after(steps);
    assert forall|key: usize| !system.handlers.contains_key(key) by {
        if system.handlers.contains_key(key) {
            assert(system.owned(key));
        }
    }
    assert(system.handlers =~= Map::<usize, UserData<C, X>>::empty());
}

/// Once a device is dropped, output for its handlers reaches nobody, and the
/// handlers of all other devices are as they were.
pub proof fn closed_device_is_silent<C, X>(system: System<C, X>, device: int, after: UserData<C, X>) where
    C: FnMut(u32, i8, &[u8], &mut X),
    requires
        system.consistent(),
        0 <= device < system.devices.len(),
    ensures
        ({
            let closed = system.take_step(Step::Close { device });
            &&& forall|id: u64, key: usize| #[trigger]
                system.has(device, id, key) ==> !closed.handlers.contains_key(key)
                    && closed.take_step(Step::Output { key, after }) == closed
            &&& forall|d: int, id: u64, key: usize| #[trigger]
                system.has(d, id, key) && d != device ==> closed.handlers.contains_key(key)
                    && closed.handlers[key] == system.handlers[key]
            &&& forall|d: int|
                0 <= d < system.devices.len() && d != device ==> #[trigger] system.devices[d]
                    == closed.devices[if d < device {
                    d
                } else {
                    d - 1
                }]
        }),
{
    let closed = system.take_step(Step::Close { device });
    assert forall|id: u64, key: usize| #[trigger] system.has(device, id, key) implies
        !closed.handlers.contains_key(key) by {
        assert(system.devices[device].mappings.contains_key(id));
        assert(system.devices[device].keys().contains(key));
    }
    assert forall|d: int, id: u64, key: usize| #[trigger]
        system.has(d, id, key) && d != device implies closed.handlers.contains_key(key)
        && closed.handlers[key] == system.handlers[key] by {
        if system.devices[device].keys().contains(key) {
            let other = choose|other: u64| system.devices[device].mappings.contains_key(other)
                && system.devices[device].mappings[other] == key;
            assert(system.has(device, other, key));
        }
    }
}

/// Until its device is dropped, a handler that was connected stays stored under
/// its key, whatever happens to other devices. Only output for that key changes
/// it, and what that leaves stands for what was there.
pub proof fn handler_stays<C, X>(system: System<C, X>, step: Step<C, X>, d: int, id: u64, key: usize) where
    C: FnMut(u32, i8, &[u8], &mut X),
    requires
        system.consistent(),
        system.can_take(step),
        system.has(d, id, key),
        step matches Step::Close { device } ==> device != d,
    ensures
        system.take_step(step).handlers.contains_key(key),
        system.take_step(step).handlers[key] == match step {
            Step::Output { key: at, after } => if at == key {
                after
            } else {
                system.handlers[key]
            },
            _ => system.handlers[key],
        },
        system.take_step(step).handlers[key].stands_for(system.handlers[key]),
{
    next_key_is_new(system.handlers.dom());
    if let Step::Close { device } = step {
        closed_device_is_silent(system, device, system.handlers[key]);
    }
}

/// A new handler is stored with the callback and the context that it was
/// registered with, and is the handler that output for its key reaches.
pub proof fn connected_handler_is_found<C, X>(
    system: System<C, X>,
    device: int,
    data: UserData<C, X>,
    handler_id: u64,
) where
    C: FnMut(u32, i8, &[u8], &mut X),
    requires
        system.consistent(),
        system.can_take(Step::Connect { device, data, handler_id }),
    ensures
        ({
            let next = system.take_step(Step::Connect { device, data, handler_id });
            let key = crate::handlers::next_key(system.handlers.dom()) as usize;
            &&& next.has(device, handler_id, key)
            &&& next.handlers.contains_key(key)
            &&& next.handlers[key] == data
            &&& !system.handlers.contains_key(key)
        }),
{
    next_key_is_new(system.handlers.dom());
}

/// A handler stands for itself, and what stands for what stands for a handler
/// stands for that handler.
pub proof fn stands_for_is_kept<C, X>(
    a: UserData<C, X>,
    b: UserData<C, X>,
    c: UserData<C, X>,
) where
    C: FnMut(u32, i8, &[u8], &mut X),

    ensures
        a.stands_for(a),
        b.stands_for(a) && c.stands_for(b) ==> c.stands_for(a),
{
}

/// The key that the handler that is connected in the step `i` of `steps` gets.
pub open spec fn connected_key<C, X>(steps: Seq<Step<C, X>>, i: int) -> usize where
    C: FnMut(u32, i8, &[u8], &mut X),

{
    crate::handlers::next_key(System::after(steps.take(i)).handlers.dom()) as usize
}

/// No step of `steps` after the step `i` drops the device that has the handler
/// under `key`.
pub open spec fn not_closed<C, X>(steps: Seq<Step<C, X>>, i: int, key: usize) -> bool where
    C: FnMut(u32, i8, &[u8], &mut X),

{
    forall|j: int|
        i < j < steps.len() ==> (#[trigger] steps[j] matches Step::Close { device }
            ==> !System::after(steps.take(j)).devices[device].keys().contains(key))
}

/// Through every history, until its device is dropped, the handler under the key
/// of a connection stands for the one that was registered, whatever output came
/// for it and whatever happened to others.
pub proof fn registered_handler_is_kept<C, X>(
    steps: Seq<Step<C, X>>,
    i: int,
    device: int,
    data: UserData<C, X>,
    handler_id: u64,
) where
    C: FnMut(u32, i8, &[u8], &mut X),

    requires
        System::possible(steps),
        0 <= i < steps.len(),
        steps[i] == (Step::Connect { device, data, handler_id }),
        not_closed(steps, i, connected_key(steps, i)),
    ensures
        System::after(steps).handlers.contains_key(connected_key(steps, i)),
        System::after(steps).handlers[connected_key(steps, i)].stands_for(data),
    decreases steps.len(),
{
    let before = steps.drop_last();
    let key = connected_key(steps, i);
    assert(steps.take(steps.len() - 1) =~= before);
    always_consistent(before);
    next_key_is_new(System::after(before).handlers.dom());
    if i < steps.len() - 1 {
        assert(before.take(i) =~= steps.take(i));
        assert forall|j: int| i < j < before.len() implies (#[trigger] before[j] matches
            Step::Close { device } ==> !System::after(before.take(j)).devices[device].keys().contains(
            key,
        )) by {
            assert(before[j] == steps[j]);
            assert(before.take(j) =~= steps.take(j));
        }
        registered_handler_is_kept(before, i, device, data, handler_id);
        assert(steps.last() == steps[steps.len() - 1]);
        if let Step::Output { key: at, after } = steps.last() {
            stands_for_is_kept(data, System::after(before).handlers[key], after);
        }
    }
}

/// In `run`, the handler after `i` stands for the one at `i`.
spec fn next_stands<C, X>(run: Seq<UserData<C, X>>, i: int) -> bool where
    C: FnMut(u32, i8, &[u8], &mut X),

{
    run[i + 1].stands_for(run[i])
}

/// Where each handler of a run stands for the one before, all stand for the first.
proof fn lemma_run_stands<C, X>(run: Seq<UserData<C, X>>, n: int) where
    C: FnMut(u32, i8, &[u8], &mut X),

    requires
        0 <= n < run.len(),
        forall|i: int| 0 <= i < run.len() - 1 ==> #[trigger] next_stands(run, i),
    ensures
        run[n].stands_for(run[0]),
    decreases n,
{
    if n > 0 {
        lemma_run_stands(run, n - 1);
        assert(next_stands(run, n - 1));
    }
}

/// In a run of output for one handler, every piece of output, the piece `n` among
/// them, reaches the callback that was registered: the first with the context
/// that was registered, each later one with the context as the call before left
/// it. Before and after, the handler stands for the registered one.
///
/// `run` is the handler as it was registered and as each piece of `output` left
/// it: what is required of it is what
/// [`crate::handlers::OutputHandlers::dispatch`] ensures.
pub proof fn every_output_reaches_the_callback<C, X>(
    run: Seq<UserData<C, X>>,
    output: Seq<(u32, i8, &[u8])>,
    n: int,
) where
    C: FnMut(u32, i8, &[u8], &mut X),

    requires
        run.len() == output.len() + 1,
        forall|i: int|
            #![trigger run[i]]
            0 <= i < output.len() ==> run[i + 1].stands_for(run[i]) && exists|
                p: u32,
                f: i8,
                b: &[u8],
                c: &mut X,
            |
                (p, f, b) == output[i] && *c == run[i].context && *final(c) == run[i + 1].context
                    && #[trigger] call_ensures(run[i].callback, (p, f, b, c), ()),
        0 <= n < output.len(),
    ensures
        run[n].stands_for(run[0]),
        run[n + 1].stands_for(run[0]),
        exists|c: &mut X|
            *c == run[n].context && *final(c) == run[n + 1].context && #[trigger] call_ensures(
                run[0].callback,
                (output[n].0, output[n].1, output[n].2, c),
                (),
            ),
{
    assert forall|i: int| 0 <= i < run.len() - 1 implies #[trigger] next_stands(run, i) by {
        let handler = run[i];
    }
    lemma_run_stands(run, n);
    lemma_run_stands(run, n + 1);
    let (pid, fd, data) = output[n];
    assert(output[n].0 == pid && output[n].1 == fd && output[n].2 == data);
}

/// In a run of output for one handler, every piece counts as one call of the
/// callback: whatever number each call raises by one in the context, `n` pieces
/// of output raise by `n`.
///
/// `run` and `output` are as in [`every_output_reaches_the_callback`].
pub proof fn every_output_counts_as_one_call<C, X>(
    run: Seq<UserData<C, X>>,
    output: Seq<(u32, i8, &[u8])>,
    calls: spec_fn(X) -> int,
    n: int,
) where
    C: FnMut(u32, i8, &[u8], &mut X),

    requires
        run.len() == output.len() + 1,
        forall|i: int|
            #![trigger run[i]]
            0 <= i < output.len() ==> run[i + 1].stands_for(run[i]) && exists|
                p: u32,
                f: i8,
                b: &[u8],
                c: &mut X,
            |
                (p, f, b) == output[i] && *c == run[i].context && *final(c) == run[i + 1].context
                    && #[trigger] call_ensures(run[i].callback, (p, f, b, c), ()),
        forall|p: u32, f: i8, b: &[u8], c: &mut X| #[trigger]
            call_ensures(run[0].callback, (p, f, b, c), ()) ==> calls(*final(c)) == calls(*c) + 1,
        0 <= n <= output.len(),
    ensures
        calls(run[n].context) == calls(run[0].context) + n,
    decreases n,
{
    if n > 0 {
        every_output_counts_as_one_call(run, output, calls, n - 1);
        every_output_reaches_the_callback(run, output, n - 1);
    }
}

} // verus!
