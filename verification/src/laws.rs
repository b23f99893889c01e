//! What holds of the library as a whole.

use crate::calls::InputCall;
use crate::device_type::DeviceType;
use crate::error::{ErrorView, NativeError};
use crate::parameters::SystemParameters;
use crate::pid::{PidLike, SpawnedPid};
use crate::process::{Process, ProcessListing};
use crate::scope::Scope;
use crate::spawn::SpawnStdio;
use vstd::prelude::*;

verus! {

/// Input goes only to processes that were spawned with piped stdio. Input to a
/// process that was spawned without an error is let through exactly when its
/// stdio was set to be piped; it then goes to the very process that the native
/// library spawned, and is otherwise refused in that process's name.
pub proof fn input_only_to_piped(
    device_ptr: usize,
    stdio: SpawnStdio,
    native_pid: u32,
    data: &[u8],
)
    ensures
        crate::calls::spawn_outcome(stdio, native_pid, None) matches Ok(spawned) && {
            let call = crate::device::input_call(device_ptr, spawned, data);
            &&& call is Ok <==> stdio == SpawnStdio::Pipe
            &&& call matches Ok(c) ==> c == (InputCall { device: device_ptr, pid: native_pid, data })
            &&& call matches Err(e) ==> e == crate::device::input_refused(native_pid)
        },
{
}

/// A failure to send input has no code exactly when the native library was not
/// asked.
pub proof fn input_code_tells_who_failed(
    device_ptr: usize,
    pid: SpawnedPid,
    data: &[u8],
    error: NativeError,
)
    ensures
        crate::device::input_call(device_ptr, pid, data) matches Err(e) ==> (e matches
            ErrorView::DeviceInputFailed { pid: p, code, message: _ } && p == pid.pid() && code
            is None),
        crate::calls::input_outcome(pid.pid(), Some(error)) matches Err(e) && (e matches
            ErrorView::DeviceInputFailed { pid: p, code, message: _ } ==> p == pid.pid() && code
            == Some(error.code)),
{
}

/// Attaching, spawning, resuming, killing and sending input succeed exactly when
/// the native library reports no error.
pub proof fn success_is_no_error(
    session_ptr: usize,
    stdio: SpawnStdio,
    pid: u32,
    error: Option<NativeError>,
)
    ensures
        crate::calls::attach_outcome(session_ptr, error is Some) is Ok <==> error is None,
        crate::calls::spawn_outcome(stdio, pid, error) is Ok <==> error is None,
        crate::calls::resume_outcome(error) is Ok <==> error is None,
        crate::calls::kill_outcome(error) is Ok <==> error is None,
        crate::calls::input_outcome(pid, error) is Ok <==> error is None,
{
}

/// An error whose message is not UTF-8 is reported in the same way by every
/// operation that reports the message.
pub proof fn unreadable_message_is_c_string_failed(
    stdio: SpawnStdio,
    pid: u32,
    error: NativeError,
)
    requires
        !vstd::utf8::valid_utf8(error.message@),
    ensures
        crate::calls::query_failure(error) == ErrorView::CStringFailed,
        crate::calls::spawn_outcome(stdio, pid, Some(error)) == Err::<SpawnedPid, ErrorView>(
            ErrorView::CStringFailed,
        ),
        crate::calls::resume_outcome(Some(error)) == Err::<(), ErrorView>(ErrorView::CStringFailed),
        crate::calls::kill_outcome(Some(error)) == Err::<(), ErrorView>(ErrorView::CStringFailed),
        crate::calls::input_outcome(pid, Some(error)) == Err::<(), ErrorView>(
            ErrorView::CStringFailed,
        ),
{
}

/// A message that is UTF-8 is reported in full: its text encodes to the very
/// bytes of the native message.
pub proof fn readable_message_is_kept(error: NativeError)
    requires
        vstd::utf8::valid_utf8(error.message@),
    ensures
        vstd::utf8::encode_utf8(error.text()) == error.message@,
{
    vstd::utf8::decode_utf8_encode_utf8(error.message@);
}

/// A name or an id that is text is read as that text.
pub proof fn name_is_read_back(name: Seq<char>)
    ensures
        crate::text::text_or_empty(vstd::utf8::encode_utf8(name)) == name,
{
    vstd::utf8::encode_utf8_valid_utf8(name);
    vstd::utf8::encode_utf8_decode_utf8(name);
}

/// The native library reads the program to spawn as it was given.
pub proof fn program_is_read_back(program: Seq<char>)
    requires
        !program.contains('\0'),
    ensures
        vstd::utf8::decode_utf8(
            crate::text::c_string_bytes(crate::text::c_string(program)),
        ) == program,
{
    crate::text::lemma_nul_bytes(program);
    crate::text::lemma_c_string_bytes(vstd::utf8::encode_utf8(program));
    vstd::utf8::encode_utf8_decode_utf8(program);
}

/// A device type is known by its number.
pub proof fn device_type_from_number(a: DeviceType, b: DeviceType)
    ensures
        DeviceType::is_number(a.number()),
        a.number() == b.number() ==> a == b,
{
}

/// A scope is known by its number.
pub proof fn scope_from_number(a: Scope, b: Scope)
    ensures
        a.number() == b.number() ==> a == b,
{
}

/// All ways to the plain process id lead to the same one, and a spawned process
/// equals the plain id that it has.
pub proof fn pids_agree(spawned: SpawnedPid, plain: u32)
    ensures
        spawned.as_pid() == spawned.pid(),
        vstd::std_specs::convert::IntoSpec::<u32>::into_spec(spawned) == spawned.pid(),
        plain.as_pid() == plain,
        vstd::std_specs::cmp::PartialEqSpec::eq_spec(&spawned, &plain) <==> spawned.as_pid() == plain.as_pid(),
{
}

/// The parameters once all of `entries`, names as bytes with their values, were
/// handed one after the other to [`crate::parameters::SystemParameters::accept`].
pub open spec fn parameters_told<V>(entries: Seq<(Seq<u8>, V)>) -> Map<Seq<char>, V>
    decreases entries.len(),
{
    if entries.len() == 0 {
        Map::empty()
    } else {
        parameters_told(entries.drop_last()).insert(
            crate::text::utf8_lossy(entries.last().0),
            entries.last().1,
        )
    }
}

/// A table that was told all of `entries`, and accepts one more, was told them
/// and that one; an empty table was told nothing.
pub proof fn parameters_are_told_in_order<V>(
    entries: Seq<(Seq<u8>, V)>,
    before: SystemParameters<V>,
    after: SystemParameters<V>,
    name: Seq<u8>,
    value: V,
)
    requires
        before@ == parameters_told(entries),
        after@ == before@.insert(crate::text::utf8_lossy(name), value),
    ensures
        after@ == parameters_told(entries.push((name, value))),
        parameters_told(Seq::<(Seq<u8>, V)>::empty()) == Map::<Seq<char>, V>::empty(),
{
    assert(entries.push((name, value)).drop_last() =~= entries);
}

/// A parameter has the value of the last entry with its name.
pub proof fn last_entry_counts<V>(entries: Seq<(Seq<u8>, V)>, i: int)
    requires
        0 <= i < entries.len(),
        forall|j: int|
            i < j < entries.len() ==> crate::text::utf8_lossy((#[trigger] entries[j]).0)
                != crate::text::utf8_lossy(entries[i].0),
    ensures
        parameters_told(entries).contains_key(crate::text::utf8_lossy(entries[i].0)),
        parameters_told(entries)[crate::text::utf8_lossy(entries[i].0)] == entries[i].1,
    decreases entries.len(),
{
    if i < entries.len() - 1 {
        assert forall|j: int| i < j < entries.drop_last().len() implies crate::text::utf8_lossy(
            (#[trigger] entries.drop_last()[j]).0,
        ) != crate::text::utf8_lossy(entries[i].0) by {
            assert(entries.drop_last()[j] == entries[j]);
        }
        last_entry_counts(entries.drop_last(), i);
        assert(entries.last() == entries[entries.len() - 1]);
    }
}

/// There is no parameter but those of the entries.
pub proof fn only_entries_count<V>(entries: Seq<(Seq<u8>, V)>, name: Seq<char>)
    requires
        parameters_told(entries).contains_key(name),
    ensures
        exists|i: int|
            0 <= i < entries.len() && crate::text::utf8_lossy((#[trigger] entries[i]).0) == name,
    decreases entries.len(),
{
    if crate::text::utf8_lossy(entries.last().0) == name {
        assert(entries[entries.len() - 1].0 == entries.last().0);
    } else {
        only_entries_count(entries.drop_last(), name);
        let i = choose|i: int|
            0 <= i < entries.drop_last().len() && crate::text::utf8_lossy(
                (#[trigger] entries.drop_last()[i]).0,
            ) == name;
        assert(entries[i] == entries.drop_last()[i]);
    }
}

/// The first `n` processes of a native list that has the address `at(i)` at the
/// index `i`.
pub open spec fn processes_at(at: spec_fn(int) -> usize, n: nat) -> Seq<Process> {
    Seq::new(n, |i: int| Process { process_ptr: at(i) })
}

/// Fetching keeps to the order of the native list, leaves nothing out and fetches
/// nothing twice: a listing that holds the first processes of the list, and
/// accepts the one at the index that it asks for next, holds the first processes
/// of the list, one more than before.
pub proof fn processes_are_listed_in_order(
    at: spec_fn(int) -> usize,
    before: ProcessListing,
    after: ProcessListing,
)
    requires
        before.fetched() == processes_at(at, before.fetched().len()),
        after.fetched() == before.fetched().push(
            Process { process_ptr: at(before.fetched().len() as int) },
        ),
    ensures
        after.fetched() == processes_at(at, after.fetched().len()),
        after.fetched().len() == before.fetched().len() + 1,
{
    assert(after.fetched() =~= processes_at(at, after.fetched().len()));
}

} // verus!
