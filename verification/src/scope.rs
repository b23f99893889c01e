//! How much is told of a process.

use vstd::prelude::*;

verus! {

/// How much metadata frida-core should attach to enumerated processes.
///
/// Maps to `FridaScope` in frida-core. `Minimal` is the default and only fills
/// name and pid; `Full` additionally fills the parameters.
#[derive(Debug, Clone, Copy, PartialEq, Eq, Structural)]
pub enum Scope {
    /// Name + pid only (frida-core default).
    Minimal,
    /// Lightweight extras where the host platform supplies them cheaply.
    Metadata,
    /// Includes parameters (ppid, path, user, started, ...).
    Full,
}

impl Scope {
    /// The number that the native library has for this scope.
    pub open spec fn number(self) -> i32 {
        match self {
            Scope::Minimal => 0,
            Scope::Metadata => 1,
            Scope::Full => 2,
        }
    }
}

impl From<Scope> for i32 {
    fn from(value: Scope) -> (number: i32) {
        match value {
            Scope::Minimal => 0,
            Scope::Metadata => 1,
            Scope::Full => 2,
        }
    }
}

impl vstd::std_specs::convert::FromSpecImpl<Scope> for i32 {
    open spec fn obeys_from_spec() -> bool {
        true
    }

    open spec fn from_spec(value: Scope) -> i32 {
        value.number()
    }
}

} // verus!
