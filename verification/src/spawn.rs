//! How a process is spawned.

use vstd::prelude::*;

verus! {

/// Where the stdio of a spawned process goes.
#[derive(Debug, Clone, Copy, PartialEq, Eq, Structural)]
pub enum SpawnStdio {
    /// To where the stdio of the parent goes
    Inherit,
    /// Through pipes, to the device
    Pipe,
}

/// What a device has to know of the options that a process is spawned with.
#[derive(Debug, Clone, Copy, PartialEq, Eq, Structural)]
pub struct SpawnOptions {
    /// The address of the native options.
    pub options_ptr: usize,
    /// The stdio routing that was set in them.
    pub spawn_stdio: SpawnStdio,
}

} // verus!
