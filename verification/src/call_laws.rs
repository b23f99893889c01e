//! What is handed to the native library, and what is made of its answers, for
//! every number, address and text.

use crate::calls::InputCall;
use crate::device::DeviceView;
use crate::device_type::DeviceType;
use crate::error::{Error, ErrorView, NativeError};
use crate::handlers::UserData;
use crate::pid::{PidLike, SpawnedPid};
use crate::process::Session;
use crate::scope::Scope;
use crate::spawn::SpawnStdio;
use vstd::prelude::*;

verus! {

/// A device has the address that it was made from, and no handlers. So two
/// devices that were made are the same only where their addresses are.
pub proof fn opened_device_has_its_address(p: usize, q: usize)
    ensures
        DeviceView::opened(p).device_ptr == p,
        DeviceView::opened(p).mappings.dom() == Set::<u64>::empty(),
        DeviceView::opened(p) == DeviceView::opened(q) ==> p == q,
{
}

/// A connection gives the device the key of one more handler, and leaves its
/// address and all other connections alone.
pub proof fn connection_is_noted(device: DeviceView, handler_id: u64, key: usize, other: u64)
    ensures
        device.connected(handler_id, key).device_ptr == device.device_ptr,
        device.connected(handler_id, key).mappings.contains_key(handler_id),
        device.connected(handler_id, key).mappings[handler_id] == key,
        device.connected(handler_id, key).keys().contains(key),
        other != handler_id ==> (device.connected(handler_id, key).mappings.contains_key(other)
            <==> device.mappings.contains_key(other)),
        other != handler_id ==> device.connected(handler_id, key).mappings[other]
            == device.mappings[other],
{
    assert(device.connected(handler_id, key).mappings.contains_key(handler_id));
}

/// The keys of a device are those of its connections and no others.
pub proof fn keys_are_those_of_connections(device: DeviceView, key: usize)
    ensures
        device.keys().contains(key) <==> exists|id: u64| #[trigger]
            device.mappings.contains_key(id) && device.mappings[id] == key,
{
}

/// A process that was spawned without an error has the number that the native
/// library gave it, and is marked as piped or as inheriting, as its stdio was set.
pub proof fn spawned_process_is_marked(n: u32)
    ensures
        crate::calls::spawn_outcome(SpawnStdio::Pipe, n, None) == Ok::<SpawnedPid, ErrorView>(
            SpawnedPid::PipedStdio(n),
        ),
        crate::calls::spawn_outcome(SpawnStdio::Inherit, n, None) == Ok::<SpawnedPid, ErrorView>(
            SpawnedPid::InheritedStdio(n),
        ),
{
}

/// Input to a process that is marked as piped is let through, to that process of
/// that device and with that data. Input to any other is refused in its name.
pub proof fn input_goes_by_the_mark(device_ptr: usize, n: u32, data: &[u8])
    ensures
        crate::device::input_call(device_ptr, SpawnedPid::PipedStdio(n), data) == Ok::<
            InputCall,
            ErrorView,
        >(InputCall { device: device_ptr, pid: n, data }),
        forall|pid: SpawnedPid|
            pid == SpawnedPid::InheritedStdio(n) || pid == SpawnedPid::Unknown(n) ==> (
            #[trigger] crate::device::input_call(device_ptr, pid, data)) == Err::<
                InputCall,
                ErrorView,
            >(
                ErrorView::DeviceInputFailed {
                    pid: n,
                    code: None,
                    message: "process must be spawned with piped stdio"@,
                },
            ),
{
}

/// The native library counts the scopes from 0, in the order of how much they
/// tell.
pub proof fn scopes_are_counted()
    ensures
        Scope::Minimal.number() == 0,
        Scope::Metadata.number() == 1,
        Scope::Full.number() == 2,
        vstd::std_specs::convert::IntoSpec::<i32>::into_spec(Scope::Minimal) == 0,
        vstd::std_specs::convert::IntoSpec::<i32>::into_spec(Scope::Metadata) == 1,
        vstd::std_specs::convert::IntoSpec::<i32>::into_spec(Scope::Full) == 2,
{
}

/// The native library counts the device types from 0, and has no others.
pub proof fn device_types_are_counted(n: u32)
    ensures
        DeviceType::Local.number() == 0,
        DeviceType::Remote.number() == 1,
        DeviceType::USB.number() == 2,
        vstd::std_specs::convert::IntoSpec::<u32>::into_spec(DeviceType::Local) == 0,
        vstd::std_specs::convert::IntoSpec::<u32>::into_spec(DeviceType::Remote) == 1,
        vstd::std_specs::convert::IntoSpec::<u32>::into_spec(DeviceType::USB) == 2,
        DeviceType::is_number(n) <==> n <= 2,
{
    assert(DeviceType::Local.number() == 0);
    assert(DeviceType::Remote.number() == 1);
    assert(DeviceType::USB.number() == 2);
}

/// A session has the very address that the native library returned, so that two
/// sessions are the same only where their addresses are. Where an error was
/// reported there is no session, whatever the address.
pub proof fn session_has_its_address(p: usize, q: usize)
    ensures
        crate::calls::attach_outcome(p, false) == Ok::<Session, ErrorView>(
            Session { session_ptr: p },
        ),
        crate::calls::attach_outcome(p, false) == crate::calls::attach_outcome(q, false) ==> p == q,
        crate::calls::attach_outcome(p, true) == Err::<Session, ErrorView>(
            ErrorView::DeviceAttachError,
        ),
{
}

/// A process is the process with its number, however its stdio is handled, and
/// whichever way the number is asked for.
pub proof fn plain_pid_is_the_number(n: u32)
    ensures
        forall|pid: SpawnedPid|
            #![trigger pid.pid()]
            #![trigger pid.as_pid()]
            pid == SpawnedPid::InheritedStdio(n) || pid == SpawnedPid::PipedStdio(n) || pid
                == SpawnedPid::Unknown(n) ==> pid.pid() == n && pid.as_pid() == n
                && vstd::std_specs::convert::IntoSpec::<u32>::into_spec(pid) == n,
        n.as_pid() == n,
{
}

/// A spawned process equals a number exactly where it has that number, and
/// another spawned process exactly where both the number and the handling of
/// stdio are the same.
pub proof fn spawned_pids_are_told_apart(n: u32, m: u32)
    ensures
        forall|pid: SpawnedPid|
            pid == SpawnedPid::InheritedStdio(n) || pid == SpawnedPid::PipedStdio(n) || pid
                == SpawnedPid::Unknown(n) ==> (
            #[trigger] vstd::std_specs::cmp::PartialEqSpec::<u32>::eq_spec(&pid, &m) <==> n == m),
        forall|a: SpawnedPid, b: SpawnedPid| #[trigger]
            vstd::std_specs::cmp::PartialEqSpec::<SpawnedPid>::eq_spec(&a, &b) <==> match (a, b) {
                (SpawnedPid::InheritedStdio(x), SpawnedPid::InheritedStdio(y)) => x == y,
                (SpawnedPid::PipedStdio(x), SpawnedPid::PipedStdio(y)) => x == y,
                (SpawnedPid::Unknown(x), SpawnedPid::Unknown(y)) => x == y,
                _ => false,
            },
{
}

/// A failure has the code that the native library reported and the text that its
/// message encodes, and tells which operation failed, and for input also at which
/// process.
pub proof fn failure_has_code_and_text(
    error: NativeError,
    text: Seq<char>,
    stdio: SpawnStdio,
    n: u32,
)
    requires
        error.message@ == vstd::utf8::encode_utf8(text),
    ensures
        crate::calls::query_failure(error) == (ErrorView::DeviceQuerySystemParametersFailed {
            code: error.code,
            message: text,
        }),
        crate::calls::spawn_outcome(stdio, n, Some(error)) == Err::<SpawnedPid, ErrorView>(
            ErrorView::SpawnFailed { code: error.code, message: text },
        ),
        crate::calls::resume_outcome(Some(error)) == Err::<(), ErrorView>(
            ErrorView::ResumeFailed { code: error.code, message: text },
        ),
        crate::calls::kill_outcome(Some(error)) == Err::<(), ErrorView>(
            ErrorView::KillFailed { code: error.code, message: text },
        ),
        crate::calls::input_outcome(n, Some(error)) == Err::<(), ErrorView>(
            ErrorView::DeviceInputFailed { pid: n, code: Some(error.code), message: text },
        ),
{
    vstd::utf8::encode_utf8_valid_utf8(text);
    vstd::utf8::encode_utf8_decode_utf8(text);
}

/// The view of an error leaves nothing out.
pub proof fn error_view_keeps_all(pid: u32, code: i32, told: Option<i32>, message: String)
    ensures
        Error::CStringFailed@ == ErrorView::CStringFailed,
        Error::DeviceAttachError@ == ErrorView::DeviceAttachError,
        (Error::DeviceQuerySystemParametersFailed { code, message })@ == (
        ErrorView::DeviceQuerySystemParametersFailed { code, message: message@ }),
        (Error::SpawnFailed { code, message })@ == (ErrorView::SpawnFailed {
            code,
            message: message@,
        }),
        (Error::ResumeFailed { code, message })@ == (ErrorView::ResumeFailed {
            code,
            message: message@,
        }),
        (Error::KillFailed { code, message })@ == (ErrorView::KillFailed {
            code,
            message: message@,
        }),
        (Error::DeviceInputFailed { pid, code: told, message })@ == (ErrorView::DeviceInputFailed {
            pid,
            code: told,
            message: message@,
        }),
{
}

/// Bytes that are not UTF-8 are read as no text at all.
pub proof fn unreadable_name_is_empty(bytes: Seq<u8>)
    requires
        !vstd::utf8::valid_utf8(bytes),
    ensures
        crate::text::text_or_empty(bytes).len() == 0,
{
}

/// A C string ends in a zero, and what stands before is the text's encoding.
pub proof fn c_string_is_ended(text: Seq<char>)
    ensures
        crate::text::c_string(text).len() == vstd::utf8::encode_utf8(text).len() + 1,
        crate::text::c_string(text).last() == 0,
        crate::text::c_string(text).drop_last() == vstd::utf8::encode_utf8(text),
{
    assert(crate::text::c_string(text).drop_last() =~= vstd::utf8::encode_utf8(text));
}

/// A reader of C strings sees the bytes up to the first zero, and all of them
/// where there is none.
pub proof fn reader_stops_at_the_first_zero(bytes: Seq<u8>)
    ensures
        crate::text::c_string_bytes(bytes).len() <= bytes.len(),
        crate::text::c_string_bytes(bytes) == bytes.take(
            crate::text::c_string_bytes(bytes).len() as int,
        ),
        !crate::text::c_string_bytes(bytes).contains(0u8),
        crate::text::c_string_bytes(bytes).len() < bytes.len() ==> bytes[crate::text::c_string_bytes(
            bytes,
        ).len() as int] == 0,
    decreases bytes.len(),
{
    let seen = crate::text::c_string_bytes(bytes);
    if bytes.len() > 0 && bytes[0] != 0 {
        let rest = bytes.drop_first();
        let seen_of_rest = crate::text::c_string_bytes(rest);
        reader_stops_at_the_first_zero(rest);
        assert forall|i: int| 0 <= i < seen.len() implies seen[i] == bytes[i] && seen[i] != 0 by {
            if i > 0 {
                assert(seen_of_rest[i - 1] == rest.take(seen_of_rest.len() as int)[i - 1]);
                assert(seen_of_rest.contains(seen_of_rest[i - 1]));
            }
        }
        assert(seen =~= bytes.take(seen.len() as int));
    }
    assert(seen =~= bytes.take(seen.len() as int));
}

/// Registering adds one handler, under a key that was free and that follows the
/// keys in use, and leaves all others alone. Releasing takes out those with the
/// given keys, and leaves all others alone.
pub proof fn registering_and_releasing<H>(
    handlers: Map<usize, H>,
    data: H,
    keys: Set<usize>,
    k: usize,
)
    requires
        handlers.dom().finite(),
        !handlers.contains_key(usize::MAX),
    ensures
        ({
            let key = crate::handlers::next_key(handlers.dom()) as usize;
            let more = crate::handlers::registered(handlers, data);
            &&& !handlers.contains_key(key)
            &&& more.contains_key(key) && more[key] == data
            &&& k != key ==> (more.contains_key(k) <==> handlers.contains_key(k))
            &&& handlers.contains_key(k) ==> k < key && more[k] == handlers[k]
        }),
        ({
            let fewer = crate::handlers::released(handlers, keys);
            &&& fewer.contains_key(k) <==> handlers.contains_key(k) && !keys.contains(k)
            &&& fewer.contains_key(k) ==> fewer[k] == handlers[k]
        }),
{
    crate::handler_laws::next_key_is_new(handlers.dom());
}

/// A handler accepts a piece of output exactly where its callback may be called
/// with it and the context that the handler has.
pub proof fn handler_accepts_what_its_callback_may_get<C, X>(
    handler: UserData<C, X>,
    pid: u32,
    fd: i8,
    data: &[u8],
    c: &mut X,
) where
    C: FnMut(u32, i8, &[u8], &mut X),

    requires
        *c == handler.context,
    ensures
        (forall|x: &mut X|
            *x == handler.context ==> #[trigger] call_requires(handler.callback, (pid, fd, data, x)))
            ==> handler.accepts(pid, fd, data),
        handler.accepts(pid, fd, data) ==> call_requires(handler.callback, (pid, fd, data, c)),
{
}

/// What stands for a handler and has its context accepts the same output.
pub proof fn stand_in_accepts_the_same<C, X>(
    kept: UserData<C, X>,
    registered: UserData<C, X>,
    pid: u32,
    fd: i8,
    data: &[u8],
) where
    C: FnMut(u32, i8, &[u8], &mut X),

    requires
        kept.stands_for(registered),
        kept.context == registered.context,
    ensures
        kept.accepts(pid, fd, data) == registered.accepts(pid, fd, data),
{
    if registered.accepts(pid, fd, data) {
        assert(kept.accepts(pid, fd, data));
    }
    if kept.accepts(pid, fd, data) {
        assert forall|x: &mut X| *x == registered.context implies #[trigger] call_requires(
            registered.callback,
            (pid, fd, data, x),
        ) by {
            assert(call_requires(kept.callback, (pid, fd, data, x)));
        }
    }
}

} // verus!
