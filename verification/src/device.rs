//! Devices.

use crate::calls::{
    AttachCall, ConnectCall, EnumerateProcessesCall, InputCall, KillCall,
    QuerySystemParametersCall, ResumeCall, SpawnCall,
};
use crate::device_type::DeviceType;
use crate::error::{Error, ErrorView};
use crate::handlers::{OutputHandlers, UserData};
use crate::pid::{PidLike, SpawnedPid};
use crate::scope::Scope;
use crate::spawn::SpawnOptions;
use crate::text::{str_or_empty, to_c_string};
use std::collections::HashMap;
use vstd::prelude::*;

verus! {

broadcast use vstd::std_specs::hash::group_hash_axioms;

/// Access to a Frida device.
pub struct Device {
    device_ptr: usize,
    on_output_handler_mappings: HashMap<u64, usize>,
}

/// A [`Device`], with its handlers as a map.
pub struct DeviceView {
    /// The address of the native device.
    pub device_ptr: usize,
    /// The keys of the handlers that are connected to the device, by the id that
    /// the native library gave the connection.
    pub mappings: Map<u64, usize>,
}

impl DeviceView {
    /// A device without handlers.
    pub open spec fn opened(device_ptr: usize) -> DeviceView {
        DeviceView { device_ptr, mappings: Map::empty() }
    }

    /// The device with one more connection. One that had the same id is
    /// forgotten.
    pub open spec fn connected(self, handler_id: u64, key: usize) -> DeviceView {
        DeviceView { mappings: self.mappings.insert(handler_id, key), ..self }
    }

    /// The keys of the handlers of the device.
    pub open spec fn keys(self) -> Set<usize> {
        self.mappings.values()
    }
}

impl View for Device {
    type V = DeviceView;

    closed spec fn view(&self) -> DeviceView {
        DeviceView {
            device_ptr: self.device_ptr,
            mappings: self.on_output_handler_mappings@,
        }
    }
}

/// What a caller is told that sends input to a process without piped stdio.
pub open spec fn input_refused(pid: u32) -> ErrorView {
    ErrorView::DeviceInputFailed {
        pid,
        code: None,
        message: "process must be spawned with piped stdio"@,
    }
}

/// The call that sends `data` to a process, where it may be made.
pub open spec fn input_call<'d>(device_ptr: usize, pid: SpawnedPid, data: &'d [u8]) -> Result<
    InputCall<'d>,
    ErrorView,
> {
    match pid {
        SpawnedPid::PipedStdio(pid) => Ok(InputCall { device: device_ptr, pid, data }),
        SpawnedPid::InheritedStdio(pid) => Err(input_refused(pid)),
        SpawnedPid::Unknown(pid) => Err(input_refused(pid)),
    }
}

impl Device {
    /// The native device at this address.
    pub fn from_raw(device_ptr: usize) -> (device: Device)
        ensures
            device@ == DeviceView::opened(device_ptr),
            device@.device_ptr == device_ptr,
            device@.mappings == Map::<u64, usize>::empty(),
    {
        Device { device_ptr, on_output_handler_mappings: HashMap::new() }
    }

    /// The address of the native device.
    pub fn as_raw(&self) -> (device_ptr: usize)
        ensures
            device_ptr == self@.device_ptr,
    {
        self.device_ptr
    }

    /// Returns the device's name, given the bytes that `frida_device_get_name`
    /// returned.
    pub fn get_name<'b>(&self, name: &'b [u8]) -> (text: &'b str)
        ensures
            text@ == crate::text::text_or_empty(name@),
            vstd::utf8::valid_utf8(name@) ==> vstd::utf8::encode_utf8(text@) == name@,
            !vstd::utf8::valid_utf8(name@) ==> text@.len() == 0,
    {
        str_or_empty(name)
    }

    /// Returns the device's id, given the bytes that `frida_device_get_id`
    /// returned.
    pub fn get_id<'b>(&self, id: &'b [u8]) -> (text: &'b str)
        ensures
            text@ == crate::text::text_or_empty(id@),
            vstd::utf8::valid_utf8(id@) ==> vstd::utf8::encode_utf8(text@) == id@,
            !vstd::utf8::valid_utf8(id@) ==> text@.len() == 0,
    {
        str_or_empty(id)
    }

    /// Returns the device's type, given the number that
    /// `frida_device_get_dtype` returned.
    pub fn get_type(&self, dtype: u32) -> (device_type: DeviceType)
        requires
            DeviceType::is_number(dtype),
        ensures
            device_type.number() == dtype,
            dtype == match device_type {
                DeviceType::Local => 0u32,
                DeviceType::Remote => 1u32,
                DeviceType::USB => 2u32,
            },
    {
        DeviceType::from(dtype)
    }

    /// Returns if the device is lost or not, given what `frida_device_is_lost`
    /// returned.
    pub fn is_lost(&self, lost: i32) -> (is_lost: bool)
        ensures
            is_lost == (lost == 1),
    {
        lost == 1
    }

    /// Asks for the device's system parameters.
    pub fn query_system_parameters(&self) -> (call: QuerySystemParametersCall)
        ensures
            call.device == self@.device_ptr,
    {
        QuerySystemParametersCall { device: self.device_ptr }
    }

    /// Asks for all processes (with [`Scope::Minimal`]: name and pid only).
    pub fn enumerate_processes(&self) -> (call: EnumerateProcessesCall)
        ensures
            call.device == self@.device_ptr,
            call.scope == Scope::Minimal.number(),
            call.scope == 0,
    {
        self.enumerate_processes_with_options(Scope::Minimal)
    }

    /// Asks for all processes, controlling how much metadata each one carries.
    pub fn enumerate_processes_with_options(&self, scope: Scope) -> (call: EnumerateProcessesCall)
        ensures
            call.device == self@.device_ptr,
            call.scope == scope.number(),
            call.scope == match scope {
                Scope::Minimal => 0i32,
                Scope::Metadata => 1i32,
                Scope::Full => 2i32,
            },
    {
        EnumerateProcessesCall { device: self.device_ptr, scope: i32::from(scope) }
    }

    /// Attaches the device to a process.
    pub fn attach<L: PidLike>(&self, pid: L) -> (call: AttachCall)
        ensures
            call.device == self@.device_ptr,
            call.pid == pid.as_pid(),
    {
        let pid: u32 = pid.into_u32();
        AttachCall { device: self.device_ptr, pid }
    }

    /// Spawn a process on the device
    ///
    /// On spawn, the process will be halted, and [`Device::resume`] will need to
    /// be called to continue execution.
    pub fn spawn(&mut self, program: &str, options: &SpawnOptions) -> (call: SpawnCall)
        requires
            !program@.contains('\0'),
        ensures
            final(self)@ == old(self)@,
            call.device == old(self)@.device_ptr,
            call.program@ == crate::text::c_string(program@),
            call.program@ == vstd::utf8::encode_utf8(program@).push(0),
            crate::text::c_string_bytes(call.program@) == vstd::utf8::encode_utf8(program@),
            call.options_ptr == options.options_ptr,
            call.spawn_stdio == options.spawn_stdio,
    {
        proof {
            crate::text::lemma_nul_bytes(program@);
            crate::text::lemma_c_string_bytes(vstd::utf8::encode_utf8(program@));
        }
        SpawnCall {
            device: self.device_ptr,
            program: to_c_string(program),
            options_ptr: options.options_ptr,
            spawn_stdio: options.spawn_stdio,
        }
    }

    /// Resumes the process with given pid.
    pub fn resume<L: PidLike>(&self, pid: L) -> (call: ResumeCall)
        ensures
            call.device == self@.device_ptr,
            call.pid == pid.as_pid(),
    {
        let pid: u32 = pid.into_u32();
        ResumeCall { device: self.device_ptr, pid }
    }

    /// Kill a process on the device
    pub fn kill(&mut self, pid: u32) -> (call: KillCall)
        ensures
            final(self)@ == old(self)@,
            call.device == old(self)@.device_ptr,
            call.pid == pid,
    {
        KillCall { device: self.device_ptr, pid }
    }

    /// Registers a callback for the output of the processes that are spawned on
    /// the device. It is stored with `no_context` in the place of a context.
    pub fn on_output<C, X>(
        &mut self,
        handlers: &mut OutputHandlers<C, X>,
        callback: C,
        no_context: X,
    ) -> (call: ConnectCall)
        requires
            crate::handlers::next_key(old(handlers)@.dom()) <= usize::MAX,
        ensures
            final(self)@ == old(self)@,
            call.device == old(self)@.device_ptr,
            call.signal@ == "output"@,
            call.key == crate::handlers::next_key(old(handlers)@.dom()),
            !old(handlers)@.contains_key(call.key),
            forall|k: usize| #[trigger] old(handlers)@.contains_key(k) ==> k < call.key,
            call.key > 0 ==> old(handlers)@.contains_key((call.key - 1) as usize),
            final(handlers)@ == crate::handlers::registered(
                old(handlers)@,
                UserData { callback, context: no_context },
            ),
            final(handlers)@ == old(handlers)@.insert(
                call.key,
                UserData { callback, context: no_context },
            ),
    {
        self.on_output_with_context(handlers, callback, no_context)
    }

    /// Registers a callback for the output of the processes that are spawned on
    /// the device, together with a context that it is called with.
    pub fn on_output_with_context<C, X>(
        &mut self,
        handlers: &mut OutputHandlers<C, X>,
        callback: C,
        context: X,
    ) -> (call: ConnectCall)
        requires
            crate::handlers::next_key(old(handlers)@.dom()) <= usize::MAX,
        ensures
            final(self)@ == old(self)@,
            call.device == old(self)@.device_ptr,
            call.signal@ == "output"@,
            call.key == crate::handlers::next_key(old(handlers)@.dom()),
            !old(handlers)@.contains_key(call.key),
            forall|k: usize| #[trigger] old(handlers)@.contains_key(k) ==> k < call.key,
            call.key > 0 ==> old(handlers)@.contains_key((call.key - 1) as usize),
            final(handlers)@ == crate::handlers::registered(
                old(handlers)@,
                UserData { callback, context },
            ),
            final(handlers)@ == old(handlers)@.insert(call.key, UserData { callback, context }),
    {
        let key: usize = handlers.register(UserData { callback, context });
        ConnectCall { device: self.device_ptr, signal: "output", key }
    }

    /// Notes the id that the native library gave a connection.
    pub fn output_connected(&mut self, call: ConnectCall, handler_id: u64)
        ensures
            final(self)@ == old(self)@.connected(handler_id, call.key),
            final(self)@.device_ptr == old(self)@.device_ptr,
            final(self)@.mappings == old(self)@.mappings.insert(handler_id, call.key),
    {
        self.on_output_handler_mappings.insert(handler_id, call.key);
    }

    /// Sends input to a process that was spawned with piped stdio. Any other
    /// process is refused.
    pub fn input<'d>(&self, pid: SpawnedPid, data: &'d [u8]) -> (call: Result<
        InputCall<'d>,
        Error,
    >)
        ensures
            crate::error::outcome(call) == input_call(self@.device_ptr, pid, data),
            match (pid, call) {
                (SpawnedPid::PipedStdio(n), Ok(c)) => c.device == self@.device_ptr && c.pid == n
                    && c.data == data,
                (
                    SpawnedPid::InheritedStdio(n),
                    Err(Error::DeviceInputFailed { pid: p, code, message }),
                ) => p == n && code is None && message@
                    == "process must be spawned with piped stdio"@,
                (
                    SpawnedPid::Unknown(n),
                    Err(Error::DeviceInputFailed { pid: p, code, message }),
                ) => p == n && code is None && message@
                    == "process must be spawned with piped stdio"@,
                _ => false,
            },
    {
        let pid: u32 = match pid {
            SpawnedPid::InheritedStdio(pid) | SpawnedPid::Unknown(pid) => {
                return Err(
                    Error::DeviceInputFailed {
                        pid,
                        code: None,
                        message: "process must be spawned with piped stdio".to_owned(),
                    },
                );
            },
            SpawnedPid::PipedStdio(pid) => pid,
        };
        Ok(InputCall { device: self.device_ptr, pid, data })
    }

    /// Lets go of all handlers of the device: they are no longer stored, and the
    /// connections that are returned are to be cut.
    pub fn release<C, X>(&mut self, handlers: &mut OutputHandlers<C, X>) -> (handler_ids: Vec<
        u64,
    >)
        ensures
            handler_ids@.no_duplicates(),
            handler_ids@.to_set() == old(self)@.mappings.dom(),
            final(handlers)@ == crate::handlers::released(old(handlers)@, old(self)@.keys()),
            forall|k: usize| #[trigger]
                final(handlers)@.contains_key(k) <==> old(handlers)@.contains_key(k) && forall|
                    id: u64,
                | #[trigger]
                    old(self)@.mappings.contains_key(id) ==> old(self)@.mappings[id] != k,
            forall|k: usize| #[trigger]
                final(handlers)@.contains_key(k) ==> final(handlers)@[k] == old(handlers)@[k],
            final(self)@ == DeviceView::opened(old(self)@.device_ptr),
            final(self)@.device_ptr == old(self)@.device_ptr,
            final(self)@.mappings == Map::<u64, usize>::empty(),
    {
        let mut handler_ids: Vec<u64> = Vec::new();
        let ghost mappings = self.on_output_handler_mappings@;
        let ghost pairs = vstd::std_specs::iter::IteratorSpec::remaining(
            &self.on_output_handler_mappings.iter(),
        );
        for (handler_id, state_key) in it: self.on_output_handler_mappings.iter()
            invariant
                it.seq() == pairs,
                handler_ids@.len() == it.index(),
                forall|i: int| 0 <= i < it.index() ==> handler_ids@[i] == *(#[trigger] pairs[i]).0,
                forall|k: usize| #[trigger]
                    handlers@.contains_key(k) <==> old(handlers)@.contains_key(k) && forall|i: int|
                        0 <= i < it.index() ==> *(#[trigger] pairs[i]).1 != k,
                forall|k: usize| #[trigger]
                    handlers@.contains_key(k) ==> handlers@[k] == old(handlers)@[k],
        {
            handlers.unregister(*state_key);
            handler_ids.push(*handler_id);
        }
        proof {
            assert(pairs.no_duplicates());
            assert forall|i: int, j: int| 0 <= i < j < handler_ids@.len() implies handler_ids@[i]
                != handler_ids@[j] by {
                assert(mappings.contains_key(*pairs[i].0));
                assert(mappings.contains_key(*pairs[j].0));
            }
            assert forall|id: u64| handler_ids@.contains(id) <==> mappings.contains_key(id) by {
                if mappings.contains_key(id) {
                    assert(pairs.contains((&id, &mappings[id])));
                    let i = pairs.index_of((&id, &mappings[id]));
                    assert(handler_ids@[i] == id);
                }
                if handler_ids@.contains(id) {
                    let i = handler_ids@.index_of(id);
                    assert(mappings.contains_key(*pairs[i].0));
                }
            }
            assert forall|k: usize| #[trigger] mappings.values().contains(k) <==> exists|i: int|
                0 <= i < pairs.len() && *(#[trigger] pairs[i]).1 == k by {
                if mappings.values().contains(k) {
                    let id = choose|id: u64| mappings.contains_key(id) && mappings[id] == k;
                    assert(pairs.contains((&id, &mappings[id])));
                    let i = pairs.index_of((&id, &mappings[id]));
                    assert(*pairs[i].1 == k);
                }
                if exists|i: int| 0 <= i < pairs.len() && *(#[trigger] pairs[i]).1 == k {
                    let i = choose|i: int| 0 <= i < pairs.len() && *(#[trigger] pairs[i]).1 == k;
                    assert(mappings.contains_key(*pairs[i].0));
                    assert(mappings[*pairs[i].0] == k);
                }
            }
        }
        self.on_output_handler_mappings.clear();
        handler_ids
    }
}

} // verus!
