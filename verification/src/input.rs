//! The input devices that can be handed to the instances.

use vstd::prelude::*;

verus! {

/// The kinds of input device.
#[derive(Clone, Copy, Debug, PartialEq, Eq, Structural)]
pub enum DeviceType {
    Gamepad,
    Keyboard,
    Mouse,
}

/// One input device: its device node, its kind and whether it is in use.
#[derive(Clone, Debug)]
pub struct DeviceInfo {
    pub path: String,
    pub device_type: DeviceType,
    pub enabled: bool,
}

impl DeviceInfo {
    /// Both describe the same device.
    pub open spec fn same_content(self, other: DeviceInfo) -> bool {
        &&& self.path@ == other.path@
        &&& self.device_type == other.device_type
        &&& self.enabled == other.enabled
    }
}

/// Both lists describe the same devices in the same order.
pub open spec fn same_devices(list: Seq<DeviceInfo>, other: Seq<DeviceInfo>) -> bool {
    &&& list.len() == other.len()
    &&& forall|i: int| 0 <= i < list.len() ==> (#[trigger] list[i]).same_content(other[i])
}

} // verus!
