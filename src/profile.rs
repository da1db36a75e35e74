//! The devices that an owner can pick from.

use vstd::prelude::*;
use crate::gatt::BluetoothGattDevice;

verus! {

/// The name shown for the broadcast transport's device.
pub const GENERIC_DEVICE_NAME: &'static str = "Generic Device";

/// A device the owner can select: the broadcast target, or a device found
/// over GATT.
pub enum DeviceProfile {
    GenericDevice,
    GattDevice(BluetoothGattDevice),
}

impl DeviceProfile {
    /// The name to show: the fixed name of the broadcast target, or a GATT
    /// device's advertised name, or else its address.
    pub fn get_name(&self) -> (r: String)
        ensures
            r@ == match self {
                DeviceProfile::GenericDevice => GENERIC_DEVICE_NAME@,
                DeviceProfile::GattDevice(d) => match d.device_name {
                    Some(n) => n@,
                    None => d.device_address@,
                },
            },
    {
        match self {
            DeviceProfile::GenericDevice => GENERIC_DEVICE_NAME.to_owned(),
            DeviceProfile::GattDevice(device) => match &device.device_name {
                Some(n) => n.clone(),
                None => device.device_address.clone(),
            },
        }
    }
}

} // verus!
