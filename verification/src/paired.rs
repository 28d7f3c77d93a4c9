//! What a receiver tells about the devices that are paired with it, whatever
//! the kind of the receiver.

use vstd::prelude::*;
use vstd::std_specs::convert::FromSpecImpl;
use crate::receiver::bolt::BoltDeviceConnection;
use crate::receiver::bolt::BoltDeviceKind;

verus! {

/// Represents a device that is paired with a receiver.
#[derive(Clone, Copy, PartialEq, Eq, Structural, Hash, Debug)]
pub struct PairedDevice {
    /// The slot of the device, which is the index used to communicate with it.
    pub slot: u8,
    /// The kind of the device.
    pub kind: PairedDeviceKind,
    /// Whether the device is online/reachable.
    pub online: bool,
    /// The wireless product ID of the device.
    pub wpid: u16,
}

/// Represents the kind of a device that is paired with a receiver.
#[derive(Clone, Copy, PartialEq, Eq, Structural, Hash, Debug)]
pub enum PairedDeviceKind {
    Unknown,
    Keyboard,
    Mouse,
    Numpad,
    Presenter,
    Remote,
    Trackball,
    Touchpad,
    Tablet,
    Gamepad,
    Joystick,
    Headset,
}

impl PairedDeviceKind {
    /// The kind that a kind of the Bolt receiver stands for: the kind of the
    /// same name.
    pub open spec fn spec_from_bolt(value: BoltDeviceKind) -> PairedDeviceKind {
        match value {
            BoltDeviceKind::Unknown => PairedDeviceKind::Unknown,
            BoltDeviceKind::Keyboard => PairedDeviceKind::Keyboard,
            BoltDeviceKind::Mouse => PairedDeviceKind::Mouse,
            BoltDeviceKind::Numpad => PairedDeviceKind::Numpad,
            BoltDeviceKind::Presenter => PairedDeviceKind::Presenter,
            BoltDeviceKind::Remote => PairedDeviceKind::Remote,
            BoltDeviceKind::Trackball => PairedDeviceKind::Trackball,
            BoltDeviceKind::Touchpad => PairedDeviceKind::Touchpad,
            BoltDeviceKind::Tablet => PairedDeviceKind::Tablet,
            BoltDeviceKind::Gamepad => PairedDeviceKind::Gamepad,
            BoltDeviceKind::Joystick => PairedDeviceKind::Joystick,
            BoltDeviceKind::Headset => PairedDeviceKind::Headset,
        }
    }
}

impl From<BoltDeviceKind> for PairedDeviceKind {
    fn from(value: BoltDeviceKind) -> (r: PairedDeviceKind) {
        match value {
            BoltDeviceKind::Unknown => PairedDeviceKind::Unknown,
            BoltDeviceKind::Keyboard => PairedDeviceKind::Keyboard,
            BoltDeviceKind::Mouse => PairedDeviceKind::Mouse,
            BoltDeviceKind::Numpad => PairedDeviceKind::Numpad,
            BoltDeviceKind::Presenter => PairedDeviceKind::Presenter,
            BoltDeviceKind::Remote => PairedDeviceKind::Remote,
            BoltDeviceKind::Trackball => PairedDeviceKind::Trackball,
            BoltDeviceKind::Touchpad => PairedDeviceKind::Touchpad,
            BoltDeviceKind::Tablet => PairedDeviceKind::Tablet,
            BoltDeviceKind::Gamepad => PairedDeviceKind::Gamepad,
            BoltDeviceKind::Joystick => PairedDeviceKind::Joystick,
            BoltDeviceKind::Headset => PairedDeviceKind::Headset,
        }
    }
}

impl FromSpecImpl<BoltDeviceKind> for PairedDeviceKind {
    open spec fn obeys_from_spec() -> bool {
        true
    }

    open spec fn from_spec(value: BoltDeviceKind) -> PairedDeviceKind {
        PairedDeviceKind::spec_from_bolt(value)
    }
}

impl PairedDevice {
    /// The paired device that a device connection of the Bolt receiver tells
    /// of: its index is the slot.
    pub open spec fn spec_from_bolt(value: BoltDeviceConnection) -> PairedDevice {
        PairedDevice {
            slot: value.index,
            kind: PairedDeviceKind::spec_from_bolt(value.kind),
            online: value.online,
            wpid: value.wpid,
        }
    }
}

impl From<BoltDeviceConnection> for PairedDevice {
    fn from(value: BoltDeviceConnection) -> (r: PairedDevice) {
        PairedDevice {
            slot: value.index,
            kind: PairedDeviceKind::from(value.kind),
            online: value.online,
            wpid: value.wpid,
        }
    }
}

impl FromSpecImpl<BoltDeviceConnection> for PairedDevice {
    open spec fn obeys_from_spec() -> bool {
        true
    }

    open spec fn from_spec(value: BoltDeviceConnection) -> PairedDevice {
        PairedDevice::spec_from_bolt(value)
    }
}

/// Turns the device connections that a Bolt receiver told of into paired
/// devices, one for each connection, in their order.
pub fn paired_devices(connections: &Vec<BoltDeviceConnection>) -> (r: Vec<PairedDevice>)
    ensures
        r@ == connections@.map_values(|c: BoltDeviceConnection| PairedDevice::spec_from_bolt(c)),
{
    let mut devices: Vec<PairedDevice> = Vec::new();
    let n = connections.len();
    let mut i: usize = 0;
    while i < n
        invariant
            i <= n,
            n == connections@.len(),
            devices@ == connections@.take(i as int).map_values(
                |c: BoltDeviceConnection| PairedDevice::spec_from_bolt(c),
            ),
        decreases n - i,
    {
        devices.push(PairedDevice::from(connections[i]));
        i += 1;
        assert(devices@ =~= connections@.take(i as int).map_values(
            |c: BoltDeviceConnection| PairedDevice::spec_from_bolt(c),
        ));
    }
    assert(connections@.take(n as int) =~= connections@);
    devices
}

} // verus!
