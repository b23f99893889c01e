//! Frida devices: what is asked of the native library, what is made of its
//! answers, and which handler the output of a process goes to.
//!
//! The library holds no native pointers and makes no native calls. An operation
//! on a [`Device`] yields the call to make, as a value (see [`calls`]); what came
//! back of the call is handed to that value's `complete`. Addresses of native
//! objects are plain numbers here.

pub mod call_laws;
pub mod calls;
pub mod device;
pub mod device_type;
pub mod error;
pub mod handler_laws;
pub mod handlers;
pub mod laws;
pub mod parameters;
pub mod pid;
mod private;
pub mod process;
pub mod scope;
pub mod spawn;
pub mod text;

pub use device::Device;
pub use device_type::DeviceType;
pub use error::{Error, NativeError};
pub use handlers::{OutputHandlers, UserData};
pub use parameters::SystemParameters;
pub use pid::{PidLike, SpawnedPid};
pub use process::{Process, ProcessListing, Session};
pub use scope::Scope;
pub use spawn::{SpawnOptions, SpawnStdio};
