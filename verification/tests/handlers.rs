use frida::calls::ConnectCall;
use frida::handlers::output_len;
use frida::{Device, OutputHandlers, UserData};
use std::any::Any;
use std::cell::RefCell;
use std::rc::Rc;

type Context = Box<dyn Any>;
type Callback = Box<dyn FnMut(u32, i8, &[u8], &mut Context)>;
type Handlers = OutputHandlers<Callback, Context>;
type Seen = Rc<RefCell<Vec<(u32, i8, Vec<u8>)>>>;

fn recorder(seen: &Seen) -> Callback {
    let seen = Rc::clone(seen);
    Box::new(move |pid, fd, data, _| seen.borrow_mut().push((pid, fd, data.to_vec())))
}

fn counter() -> Callback {
    Box::new(|_, _, data, context| *context.downcast_mut::<usize>().unwrap() += data.len())
}

#[test]
fn handlers_are_connected_to_the_output_signal() {
    let mut handlers = Handlers::new();
    let mut device = Device::from_raw(4);
    let seen = Seen::default();
    assert_eq!(
        device.on_output(&mut handlers, recorder(&seen), Box::new(())),
        ConnectCall {
            device: 4,
            signal: "output",
            key: 0,
        }
    );
    assert_eq!(
        device.on_output_with_context(&mut handlers, counter(), Box::new(0usize)),
        ConnectCall {
            device: 4,
            signal: "output",
            key: 1,
        }
    );
}

#[test]
fn output_reaches_the_handler_under_its_key() {
    let mut handlers = Handlers::new();
    let mut device = Device::from_raw(4);
    let (first, second) = (Seen::default(), Seen::default());
    let a = device.on_output(&mut handlers, recorder(&first), Box::new(())).key;
    let b = device.on_output(&mut handlers, recorder(&second), Box::new(())).key;
    handlers.dispatch(b, 12, 2, b"startup");
    handlers.dispatch(a, 13, 1, b"");
    handlers.dispatch(99, 14, 1, b"lost");
    assert_eq!(*first.borrow(), [(13, 1, Vec::new())]);
    assert_eq!(*second.borrow(), [(12, 2, b"startup".to_vec())]);
}

#[test]
fn callbacks_get_their_own_context() {
    let mut handlers = Handlers::new();
    let mut device = Device::from_raw(4);
    let totals: Rc<RefCell<Vec<usize>>> = Rc::default();
    let mut keys = Vec::new();
    for start in [0usize, 100] {
        let totals = Rc::clone(&totals);
        let callback: Callback = Box::new(move |_, _, data, context| {
            let total = context.downcast_mut::<usize>().unwrap();
            *total += data.len();
            totals.borrow_mut().push(*total);
        });
        keys.push(
            device
                .on_output_with_context(&mut handlers, callback, Box::new(start))
                .key,
        );
    }
    handlers.dispatch(keys[0], 1, 1, b"abc");
    handlers.dispatch(keys[1], 1, 1, b"de");
    handlers.dispatch(keys[0], 1, 1, b"f");
    assert_eq!(*totals.borrow(), [3, 102, 4]);
}

#[test]
fn every_output_of_a_run_reaches_the_callback() {
    let mut handlers = Handlers::new();
    let mut device = Device::from_raw(4);
    let seen = Seen::default();
    let totals: Rc<RefCell<Vec<usize>>> = Rc::default();
    let plain = device.on_output(&mut handlers, recorder(&seen), Box::new(())).key;
    let kept = Rc::clone(&totals);
    let callback: Callback = Box::new(move |_, _, data, context| {
        let total = context.downcast_mut::<usize>().unwrap();
        *total = 10 * *total + data.len();
        kept.borrow_mut().push(*total);
    });
    let with_context = device
        .on_output_with_context(&mut handlers, callback, Box::new(7usize))
        .key;
    let output: [(u32, i8, &[u8]); 4] = [(1, 1, b"a"), (1, 2, b"bc"), (2, 1, b""), (1, 1, b"def")];
    for (pid, fd, data) in output {
        handlers.dispatch(plain, pid, fd, data);
        handlers.dispatch(with_context, pid, fd, data);
    }
    let expected: Vec<_> = output
        .iter()
        .map(|(pid, fd, data)| (*pid, *fd, data.to_vec()))
        .collect();
    assert_eq!(*seen.borrow(), expected);
    assert_eq!(*totals.borrow(), [71, 712, 7120, 71203]);
}

#[test]
fn every_output_counts_as_one_call() {
    type Count = Box<dyn FnMut(u32, i8, &[u8], &mut u64)>;
    let mut handlers: OutputHandlers<Count, u64> = OutputHandlers::new();
    let mut device = Device::from_raw(4);
    let counted = Rc::new(RefCell::new(Vec::new()));
    let kept = Rc::clone(&counted);
    let callback: Count = Box::new(move |_, _, _, calls| {
        *calls += 1;
        kept.borrow_mut().push(*calls);
    });
    let key = device.on_output(&mut handlers, callback, 0).key;
    for _ in 0..5 {
        handlers.dispatch(key, 12, 1, b"same");
    }
    assert_eq!(*counted.borrow(), [1, 2, 3, 4, 5]);
}

#[test]
fn callback_stays_while_other_devices_come_and_go() {
    let mut handlers = Handlers::new();
    let mut device = Device::from_raw(1);
    let (seen, other) = (Seen::default(), Seen::default());
    let call = device.on_output(&mut handlers, recorder(&seen), Box::new(()));
    let key = call.key;
    device.output_connected(call, 1);
    for id in 2..5 {
        let mut passing = Device::from_raw(2);
        let call = passing.on_output(&mut handlers, recorder(&other), Box::new(()));
        // A new key exceeds every key in use.
        assert!(call.key > key);
        passing.output_connected(call, id);
        handlers.dispatch(key, id as u32, 1, b"x");
        passing.release(&mut handlers);
    }
    let pids: Vec<u32> = seen.borrow().iter().map(|piece| piece.0).collect();
    assert_eq!(pids, [2, 3, 4]);
    assert_eq!(other.borrow().len(), 0);
}

#[test]
fn released_device_gets_no_more_output() {
    let mut handlers = Handlers::new();
    let mut device = Device::from_raw(4);
    let seen = Seen::default();
    let call = device.on_output(&mut handlers, recorder(&seen), Box::new(()));
    let key = call.key;
    device.output_connected(call, 500);
    handlers.dispatch(key, 12, 1, b"startup");
    assert_eq!(device.release(&mut handlers), [500]);
    handlers.dispatch(key, 12, 1, b"shutdown");
    assert_eq!(*seen.borrow(), [(12, 1, b"startup".to_vec())]);
    // The callback itself is gone too.
    assert_eq!(Rc::strong_count(&seen), 1);
}

#[test]
fn release_leaves_other_devices_alone() {
    let mut handlers = Handlers::new();
    let (mut a, mut b) = (Device::from_raw(1), Device::from_raw(2));
    let (seen_a, seen_b) = (Seen::default(), Seen::default());
    let mut keys = Vec::new();
    // The native library counts its connections for all devices.
    for id in [10, 12] {
        let call = a.on_output(&mut handlers, recorder(&seen_a), Box::new(()));
        keys.push(call.key);
        a.output_connected(call, id);
        let call = b.on_output(&mut handlers, recorder(&seen_b), Box::new(()));
        keys.push(call.key);
        b.output_connected(call, id + 1);
    }
    assert_eq!(keys, [0, 1, 2, 3]);
    let mut cut = a.release(&mut handlers);
    cut.sort();
    assert_eq!(cut, [10, 12]);
    for key in keys {
        handlers.dispatch(key, 1, 1, b"x");
    }
    assert_eq!(seen_a.borrow().len(), 0);
    assert_eq!(seen_b.borrow().len(), 2);
    // A device that was released has nothing left to release.
    assert_eq!(a.release(&mut handlers), []);
    assert_eq!(b.release(&mut handlers).len(), 2);
    handlers.dispatch(1, 1, 1, b"x");
    assert_eq!(seen_b.borrow().len(), 2);
}

#[test]
fn next_key_follows_the_greatest_in_use() {
    let mut handlers = Handlers::new();
    let (mut a, mut b) = (Device::from_raw(1), Device::from_raw(2));
    let seen = Seen::default();
    let call = a.on_output(&mut handlers, recorder(&seen), Box::new(()));
    a.output_connected(call, 1);
    let call = b.on_output(&mut handlers, recorder(&seen), Box::new(()));
    b.output_connected(call, 2);
    // With key 0 free again and key 1 in use, 2 is next.
    a.release(&mut handlers);
    assert_eq!(a.on_output(&mut handlers, recorder(&seen), Box::new(())).key, 2);
    // With nothing in use, 0 is next.
    let mut handlers = Handlers::new();
    assert!(handlers.has_room());
    let call = a.on_output(&mut handlers, recorder(&seen), Box::new(()));
    assert_eq!(call.key, 0);
    a.output_connected(call, 3);
    a.release(&mut handlers);
    assert_eq!(a.on_output(&mut handlers, recorder(&seen), Box::new(())).key, 0);
}

#[test]
fn connection_with_a_known_id_replaces_the_earlier_one() {
    let mut handlers = Handlers::new();
    let mut device = Device::from_raw(1);
    let seen = Seen::default();
    for _ in 0..2 {
        let call = device.on_output(&mut handlers, recorder(&seen), Box::new(()));
        device.output_connected(call, 0);
    }
    assert_eq!(device.release(&mut handlers), [0]);
    handlers.dispatch(0, 1, 1, b"kept");
    handlers.dispatch(1, 1, 1, b"dropped");
    assert_eq!(*seen.borrow(), [(1, 1, b"kept".to_vec())]);
}

#[test]
fn handlers_can_be_registered_by_themselves() {
    let mut handlers = Handlers::new();
    let seen = Seen::default();
    assert_eq!(
        handlers.register(UserData {
            callback: recorder(&seen),
            context: Box::new(()),
        }),
        0
    );
    assert_eq!(
        handlers.register(UserData {
            callback: counter(),
            context: Box::new(0usize),
        }),
        1
    );
    handlers.dispatch(0, 2, -1, &[0, 255]);
    handlers.dispatch(1, 2, -1, &[0, 255]);
    assert_eq!(*seen.borrow(), [(2, -1, vec![0, 255])]);
}

#[test]
fn output_without_bytes_is_empty() {
    assert_eq!(output_len(5, false), 5);
    assert_eq!(output_len(0, false), 0);
    assert_eq!(output_len(5, true), 0);
    assert_eq!(output_len(u64::MAX, true), 0);
}
