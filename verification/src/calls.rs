//! Calls into the native library.
//!
//! An operation on a device is in two halves. The first decides which call is
//! to be made and what is handed over in it: that is a value of one of these
//! types. The second, `complete`, takes what came back of the call, and makes
//! the result of the operation of it.

use crate::error::{Error, ErrorView, NativeError};
use crate::parameters::SystemParameters;
use crate::pid::SpawnedPid;
use crate::process::{ProcessListing, Session};
use crate::spawn::SpawnStdio;
use vstd::prelude::*;

verus! {

/// `frida_device_attach_sync`
#[derive(Debug, PartialEq, Eq, Structural)]
pub struct AttachCall {
    pub device: usize,
    pub pid: u32,
}

/// The result of attaching to a process, where the call returned the address
/// `session_ptr` and `failed` is whether it reported an error.
pub open spec fn attach_outcome(session_ptr: usize, failed: bool) -> Result<Session, ErrorView> {
    if failed {
        Err(ErrorView::DeviceAttachError)
    } else {
        Ok(Session { session_ptr })
    }
}

impl AttachCall {
    /// `session_ptr` is the address that the call returned, `failed` whether it
    /// reported an error.
    pub fn complete(self, session_ptr: usize, failed: bool) -> (result: Result<Session, Error>)
        ensures
            crate::error::outcome(result) == attach_outcome(session_ptr, failed),
            match result {
                Ok(session) => !failed && session.session_ptr == session_ptr,
                Err(error) => failed && error == Error::DeviceAttachError,
            },
    {
        if !failed {
            Ok(Session::from_raw(session_ptr))
        } else {
            Err(Error::DeviceAttachError)
        }
    }
}

/// `frida_device_spawn_sync`
#[derive(Debug, PartialEq, Eq)]
pub struct SpawnCall {
    pub device: usize,
    /// The program, as a C string.
    pub program: Vec<u8>,
    pub options_ptr: usize,
    /// Not handed over: how the result is to be marked.
    pub spawn_stdio: SpawnStdio,
}

/// The result of spawning a process with this stdio routing, where the call
/// returned `pid` and reported `error`.
pub open spec fn spawn_outcome(
    stdio: SpawnStdio,
    pid: u32,
    error: Option<NativeError>,
) -> Result<SpawnedPid, ErrorView> {
    match error {
        Some(e) => Err(
            e.reported_as(
                ErrorView::SpawnFailed { code: e.code, message: e.text() },
            ),
        ),
        None => Ok(
            match stdio {
                SpawnStdio::Inherit => SpawnedPid::InheritedStdio(pid),
                SpawnStdio::Pipe => SpawnedPid::PipedStdio(pid),
            },
        ),
    }
}

impl SpawnCall {
    /// `pid` is what the call returned, `error` what it reported.
    pub fn complete(self, pid: u32, error: Option<NativeError>) -> (result: Result<
        SpawnedPid,
        Error,
    >)
        ensures
            crate::error::outcome(result) == spawn_outcome(self.spawn_stdio, pid, error),
            match (result, error) {
                (Ok(SpawnedPid::PipedStdio(n)), None) => self.spawn_stdio == SpawnStdio::Pipe && n
                    == pid,
                (Ok(SpawnedPid::InheritedStdio(n)), None) => self.spawn_stdio
                    == SpawnStdio::Inherit && n == pid,
                (Err(Error::SpawnFailed { code, message }), Some(e)) => code == e.code
                    && vstd::utf8::encode_utf8(message@) == e.message@,
                (Err(Error::CStringFailed), Some(e)) => !vstd::utf8::valid_utf8(e.message@),
                _ => false,
            },
    {
        if let Some(error) = error {
            return match error.message_text() {
                Ok(message) => Err(Error::SpawnFailed { code: error.code, message }),
                Err(unreadable) => Err(unreadable),
            };
        }
        Ok(
            match self.spawn_stdio {
                SpawnStdio::Inherit => SpawnedPid::InheritedStdio(pid),
                SpawnStdio::Pipe => SpawnedPid::PipedStdio(pid),
            },
        )
    }
}

/// `frida_device_resume_sync`
#[derive(Debug, PartialEq, Eq, Structural)]
pub struct ResumeCall {
    pub device: usize,
    pub pid: u32,
}

/// The result of resuming a process, where the call reported `error`.
pub open spec fn resume_outcome(error: Option<NativeError>) -> Result<(), ErrorView> {
    match error {
        Some(e) => Err(
            e.reported_as(ErrorView::ResumeFailed { code: e.code, message: e.text() }),
        ),
        None => Ok(()),
    }
}

impl ResumeCall {
    /// `error` is what the call reported.
    pub fn complete(self, error: Option<NativeError>) -> (result: Result<(), Error>)
        ensures
            crate::error::outcome(result) == resume_outcome(error),
            match (result, error) {
                (Ok(()), None) => true,
                (Err(Error::ResumeFailed { code, message }), Some(e)) => code == e.code
                    && vstd::utf8::encode_utf8(message@) == e.message@,
                (Err(Error::CStringFailed), Some(e)) => !vstd::utf8::valid_utf8(e.message@),
                _ => false,
            },
    {
        if let Some(error) = error {
            return match error.message_text() {
                Ok(message) => Err(Error::ResumeFailed { code: error.code, message }),
                Err(unreadable) => Err(unreadable),
            };
        }
        Ok(())
    }
}

/// `frida_device_kill_sync`
#[derive(Debug, PartialEq, Eq, Structural)]
pub struct KillCall {
    pub device: usize,
    pub pid: u32,
}

/// The result of killing a process, where the call reported `error`.
pub open spec fn kill_outcome(error: Option<NativeError>) -> Result<(), ErrorView> {
    match error {
        Some(e) => Err(
            e.reported_as(ErrorView::KillFailed { code: e.code, message: e.text() }),
        ),
        None => Ok(()),
    }
}

impl KillCall {
    /// `error` is what the call reported.
    pub fn complete(self, error: Option<NativeError>) -> (result: Result<(), Error>)
        ensures
            crate::error::outcome(result) == kill_outcome(error),
            match (result, error) {
                (Ok(()), None) => true,
                (Err(Error::KillFailed { code, message }), Some(e)) => code == e.code
                    && vstd::utf8::encode_utf8(message@) == e.message@,
                (Err(Error::CStringFailed), Some(e)) => !vstd::utf8::valid_utf8(e.message@),
                _ => false,
            },
    {
        if let Some(error) = error {
            return match error.message_text() {
                Ok(message) => Err(Error::KillFailed { code: error.code, message }),
                Err(unreadable) => Err(unreadable),
            };
        }
        Ok(())
    }
}

/// `frida_device_input_sync`
#[derive(Debug, PartialEq, Eq)]
pub struct InputCall<'d> {
    pub device: usize,
    pub pid: u32,
    pub data: &'d [u8],
}

/// The result of sending input to the process `pid`, where the call reported
/// `error`.
pub open spec fn input_outcome(pid: u32, error: Option<NativeError>) -> Result<(), ErrorView> {
    match error {
        Some(e) => Err(
            e.reported_as(
                ErrorView::DeviceInputFailed { pid, code: Some(e.code), message: e.text() },
            ),
        ),
        None => Ok(()),
    }
}

impl<'d> InputCall<'d> {
    /// `error` is what the call reported.
    pub fn complete(self, error: Option<NativeError>) -> (result: Result<(), Error>)
        ensures
            crate::error::outcome(result) == input_outcome(self.pid, error),
            match (result, error) {
                (Ok(()), None) => true,
                (Err(Error::DeviceInputFailed { pid, code, message }), Some(e)) => pid == self.pid
                    && code == Some(e.code) && vstd::utf8::encode_utf8(message@) == e.message@,
                (Err(Error::CStringFailed), Some(e)) => !vstd::utf8::valid_utf8(e.message@),
                _ => false,
            },
    {
        if let Some(error) = error {
            return match error.message_text() {
                Ok(message) => Err(
                    Error::DeviceInputFailed { pid: self.pid, code: Some(error.code), message },
                ),
                Err(unreadable) => Err(unreadable),
            };
        }
        Ok(())
    }
}

/// `frida_device_query_system_parameters_sync`
#[derive(Debug, PartialEq, Eq, Structural)]
pub struct QuerySystemParametersCall {
    pub device: usize,
}

/// What a caller is told where the call for the system parameters reported
/// `error`.
pub open spec fn query_failure(error: NativeError) -> ErrorView {
    error.reported_as(
        ErrorView::DeviceQuerySystemParametersFailed { code: error.code, message: error.text() },
    )
}

impl QuerySystemParametersCall {
    /// `error` is what the call reported, `size` the size of the hash table that
    /// it returned. Every entry of the table is to be handed to
    /// [`SystemParameters::accept`].
    pub fn complete<V>(self, size: u32, error: Option<NativeError>) -> (result: Result<
        SystemParameters<V>,
        Error,
    >)
        ensures
            match (result, error) {
                (Ok(parameters), None) => parameters.wf() && parameters@ == Map::<
                    Seq<char>,
                    V,
                >::empty(),
                (Err(failure), Some(e)) => failure@ == query_failure(e),
                _ => false,
            },
            match (result, error) {
                (Ok(_), None) => true,
                (Err(Error::DeviceQuerySystemParametersFailed { code, message }), Some(e)) => code == e.code
                    && vstd::utf8::encode_utf8(message@) == e.message@,
                (Err(Error::CStringFailed), Some(e)) => !vstd::utf8::valid_utf8(e.message@),
                _ => false,
            },
    {
        if let Some(error) = error {
            return match error.message_text() {
                Ok(message) => Err(
                    Error::DeviceQuerySystemParametersFailed { code: error.code, message },
                ),
                Err(unreadable) => Err(unreadable),
            };
        }
        Ok(SystemParameters::with_capacity(size as usize))
    }
}

/// `frida_device_enumerate_processes_sync`
#[derive(Debug, PartialEq, Eq, Structural)]
pub struct EnumerateProcessesCall {
    pub device: usize,
    /// The scope to set in the query options.
    pub scope: i32,
}

impl EnumerateProcessesCall {
    /// `failed` is whether the call reported an error, `size` the size of the
    /// process list that it returned. Where the call failed there are no
    /// processes, whatever the list holds.
    pub fn complete(self, size: i32, failed: bool) -> (listing: ProcessListing)
        requires
            !failed ==> size >= 0,
        ensures
            listing.wf(),
            listing.size() == if failed {
                0
            } else {
                size as int
            },
            listing.fetched() == Seq::<crate::process::Process>::empty(),
    {
        if !failed {
            ProcessListing::new(size)
        } else {
            ProcessListing::new(0)
        }
    }
}

/// `g_signal_connect_data`. The id that the call returns is to be handed to
/// [`crate::device::Device::output_connected`].
#[derive(Debug, PartialEq, Eq)]
pub struct ConnectCall {
    pub device: usize,
    /// The name of the signal.
    pub signal: &'static str,
    /// The key of the handler, which comes back with every signal.
    pub key: usize,
}

} // verus!
