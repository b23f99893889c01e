//! Process ids.

use crate::private::Sealed;
use vstd::prelude::*;

verus! {

/// PID of a process spawned by calling [`crate::device::Device::spawn`].
///
/// Primarily exists to ensure that [`crate::device::Device::input`] only targets
/// processes spawned with stdio routing set to
/// [`crate::spawn::SpawnStdio::Pipe`].
#[derive(Debug, Clone, Copy)]
pub enum SpawnedPid {
    /// This process inherited its parent's stdio handles
    InheritedStdio(u32),
    /// This process is using pipes for stdio
    PipedStdio(u32),
    /// It's unknown how this process' stdio is being handled
    Unknown(u32),
}

impl SpawnedPid {
    /// The plain process id.
    pub open spec fn pid(self) -> u32 {
        match self {
            SpawnedPid::InheritedStdio(pid) => pid,
            SpawnedPid::PipedStdio(pid) => pid,
            SpawnedPid::Unknown(pid) => pid,
        }
    }
}

impl core::ops::Deref for SpawnedPid {
    type Target = u32;

    fn deref(&self) -> (pid: &u32)
        ensures
            *pid == self.pid(),
            match *self {
                SpawnedPid::InheritedStdio(n) => *pid == n,
                SpawnedPid::PipedStdio(n) => *pid == n,
                SpawnedPid::Unknown(n) => *pid == n,
            },
    {
        match self {
            SpawnedPid::InheritedStdio(pid) => pid,
            SpawnedPid::PipedStdio(pid) => pid,
            SpawnedPid::Unknown(pid) => pid,
        }
    }
}

impl From<SpawnedPid> for u32 {
    fn from(value: SpawnedPid) -> (pid: u32) {
        *value
    }
}

impl vstd::std_specs::convert::FromSpecImpl<SpawnedPid> for u32 {
    open spec fn obeys_from_spec() -> bool {
        true
    }

    open spec fn from_spec(value: SpawnedPid) -> u32 {
        value.pid()
    }
}

impl PartialEq for SpawnedPid {
    fn eq(&self, other: &SpawnedPid) -> (equal: bool) {
        match (*self, *other) {
            (SpawnedPid::InheritedStdio(a), SpawnedPid::InheritedStdio(b)) => a == b,
            (SpawnedPid::PipedStdio(a), SpawnedPid::PipedStdio(b)) => a == b,
            (SpawnedPid::Unknown(a), SpawnedPid::Unknown(b)) => a == b,
            _ => false,
        }
    }
}

impl vstd::std_specs::cmp::PartialEqSpecImpl for SpawnedPid {
    open spec fn obeys_eq_spec() -> bool {
        true
    }

    open spec fn eq_spec(&self, other: &SpawnedPid) -> bool {
        *self == *other
    }
}

impl Eq for SpawnedPid {

}

impl PartialEq<u32> for SpawnedPid {
    fn eq(&self, other: &u32) -> (equal: bool) {
        **self == *other
    }
}

impl vstd::std_specs::cmp::PartialEqSpecImpl<u32> for SpawnedPid {
    open spec fn obeys_eq_spec() -> bool {
        true
    }

    open spec fn eq_spec(&self, other: &u32) -> bool {
        self.pid() == *other
    }
}

/// Convenience trait to allow accepting _only_ plain [`u32`]s or [`SpawnedPid`]s.
pub trait PidLike: Sealed + Sized {
    /// The plain process id.
    spec fn as_pid(self) -> u32;

    /// Gives the plain process id.
    fn into_u32(self) -> (pid: u32)
        ensures
            pid == self.as_pid(),
    ;
}

impl Sealed for u32 {

}

impl PidLike for u32 {
    open spec fn as_pid(self) -> u32 {
        self
    }

    fn into_u32(self) -> (pid: u32) {
        self
    }
}

impl Sealed for SpawnedPid {

}

impl PidLike for SpawnedPid {
    open spec fn as_pid(self) -> u32 {
        self.pid()
    }

    fn into_u32(self) -> (pid: u32) {
        *self
    }
}

} // verus!
