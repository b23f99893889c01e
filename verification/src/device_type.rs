//! How a device is connected.

use vstd::prelude::*;

verus! {

/// `FRIDA_DEVICE_TYPE_LOCAL`
pub const DEVICE_TYPE_LOCAL: u32 = 0;

/// `FRIDA_DEVICE_TYPE_REMOTE`
pub const DEVICE_TYPE_REMOTE: u32 = 1;

/// `FRIDA_DEVICE_TYPE_USB`
pub const DEVICE_TYPE_USB: u32 = 2;

/// Frida device type.
///
/// Represents different connection types
#[non_exhaustive]
#[derive(Debug, Clone, Copy, Hash, PartialEq, Eq, Structural)]
pub enum DeviceType {
    /// Local Frida device.
    Local,
    /// Remote Frida device, connected via network
    Remote,
    /// Device connected via USB
    USB,
}

impl DeviceType {
    /// The number that the native library has for this type.
    pub open spec fn number(self) -> u32 {
        match self {
            DeviceType::Local => DEVICE_TYPE_LOCAL,
            DeviceType::Remote => DEVICE_TYPE_REMOTE,
            DeviceType::USB => DEVICE_TYPE_USB,
        }
    }

    /// Some type has this number.
    pub open spec fn is_number(value: u32) -> bool {
        exists|t: DeviceType| t.number() == value
    }

    /// Whether some type has this number.
    pub fn known(value: u32) -> (known: bool)
        ensures
            known == DeviceType::is_number(value),
            known == (value <= 2),
    {
        assert(DeviceType::Local.number() == DEVICE_TYPE_LOCAL);
        assert(DeviceType::Remote.number() == DEVICE_TYPE_REMOTE);
        assert(DeviceType::USB.number() == DEVICE_TYPE_USB);
        value == DEVICE_TYPE_LOCAL || value == DEVICE_TYPE_REMOTE || value == DEVICE_TYPE_USB
    }

    /// The type with this number.
    pub fn from(value: u32) -> (device_type: DeviceType)
        requires
            DeviceType::is_number(value),
        ensures
            device_type.number() == value,
            value == match device_type {
                DeviceType::Local => 0u32,
                DeviceType::Remote => 1u32,
                DeviceType::USB => 2u32,
            },
    {
        if value == DEVICE_TYPE_LOCAL {
            DeviceType::Local
        } else if value == DEVICE_TYPE_REMOTE {
            DeviceType::Remote
        } else {
            DeviceType::USB
        }
    }

    /// The type's name.
    pub open spec fn name(self) -> Seq<char> {
        match self {
            DeviceType::Local => "Local"@,
            DeviceType::Remote => "Remote"@,
            DeviceType::USB => "USB"@,
        }
    }

    /// The type's name.
    pub fn to_string(&self) -> (name: String)
        ensures
            name@ == self.name(),
            name@ == match *self {
                DeviceType::Local => "Local"@,
                DeviceType::Remote => "Remote"@,
                DeviceType::USB => "USB"@,
            },
    {
        match self {
            DeviceType::Local => "Local".to_owned(),
            DeviceType::Remote => "Remote".to_owned(),
            DeviceType::USB => "USB".to_owned(),
        }
    }
}

impl From<DeviceType> for u32 {
    fn from(value: DeviceType) -> (number: u32) {
        match value {
            DeviceType::Local => DEVICE_TYPE_LOCAL,
            DeviceType::Remote => DEVICE_TYPE_REMOTE,
            DeviceType::USB => DEVICE_TYPE_USB,
        }
    }
}

impl vstd::std_specs::convert::FromSpecImpl<DeviceType> for u32 {
    open spec fn obeys_from_spec() -> bool {
        true
    }

    open spec fn from_spec(value: DeviceType) -> u32 {
        value.number()
    }
}

} // verus!
