//! Implements the Logi Bolt receiver.
//!
//! Bolt can be seen as a successor to the Unifying receiver. Both of them
//! support up to 6 paired devices, but Bolt uses BTLE technology and introduces
//! so-called passkeys for authenticating devices before pairing them.
//!
//! There is little to no public documentation about what registers Bolt
//! supports (and they seem to differ quite substantially from registers
//! supported by Unifying and other receivers), so this implementation is based
//! largely on information gathered by looking at other codebases (primarily
//! Solaar) and searching registers by fuzzing them.

use vstd::prelude::*;
use vstd::std_specs::convert::FromSpecImpl;
use vstd::std_specs::convert::TryFromSpecImpl;
use vstd::utf8::decode_utf8;
use vstd::utf8::valid_utf8;
use crate::channel::ChannelError;
use crate::channel::ChannelState;
use crate::channel::HidppChannel;
use crate::channel::HidppMessage;
use crate::channel::ResponsePredicate;
use crate::primitive::TryFromPrimitiveError;
use crate::primitive::copy_range;
use crate::primitive::spec_u16_from_bytes;
use crate::primitive::string_from_utf8;
use crate::primitive::u16_from_le_bytes;
use crate::protocol::v10;
use crate::protocol::v10::Hidpp10Error;
use crate::receiver::RECEIVER_DEVICE_INDEX;
use crate::receiver::ReceiverError;

verus! {

/// The USB vendor ID of Bolt receivers.
pub const BOLT_VENDOR_ID: u16 = 0x046d;

/// The USB product ID of Bolt receivers.
pub const BOLT_PRODUCT_ID: u16 = 0xc548;

/// Whether a USB vendor and product ID pair is one of the known pairs that
/// represent Bolt receivers.
pub open spec fn spec_is_bolt(vendor_id: u16, product_id: u16) -> bool {
    vendor_id == BOLT_VENDOR_ID && product_id == BOLT_PRODUCT_ID
}

/// Checks whether a USB vendor and product ID pair represents a Bolt receiver.
pub fn is_bolt(vendor_id: u16, product_id: u16) -> (r: bool)
    ensures
        r == spec_is_bolt(vendor_id, product_id),
{
    vendor_id == BOLT_VENDOR_ID && product_id == BOLT_PRODUCT_ID
}

/// Represents the known registers of the Bolt receiver.
#[derive(Clone, Copy, PartialEq, Eq, Structural, Hash, Debug)]
#[non_exhaustive]
pub enum BoltRegister {
    /// Provides information about the amount of currently paired devices.
    ///
    /// This count is exposed by [`BoltReceiver::count_pairings`].
    Connections,
    /// Provides information about the receiver and paired devices. It uses
    /// sub-registers, as defined in [`BoltInfoSubRegister`], to differentiate
    /// between different kinds of information.
    ReceiverInfo,
    /// Provides support for discovering devices that are ready to pair.
    DeviceDiscovery,
    /// Provides pairing and unpairing support.
    Pairing,
    /// Provides the unique ID of the receiver.
    ///
    /// Exposed by [`BoltReceiver::get_unique_id`].
    UniqueId,
}

impl BoltRegister {
    /// The address of the register.
    pub open spec fn code(self) -> u8 {
        match self {
            BoltRegister::Connections => 0x02,
            BoltRegister::ReceiverInfo => 0xb5,
            BoltRegister::DeviceDiscovery => 0xc0,
            BoltRegister::Pairing => 0xc1,
            BoltRegister::UniqueId => 0xfb,
        }
    }

    /// The register at an address, if it is a known one.
    pub open spec fn from_code(value: u8) -> Option<Self> {
        match value {
            0x02 => Some(BoltRegister::Connections),
            0xb5 => Some(BoltRegister::ReceiverInfo),
            0xc0 => Some(BoltRegister::DeviceDiscovery),
            0xc1 => Some(BoltRegister::Pairing),
            0xfb => Some(BoltRegister::UniqueId),
            _ => None,
        }
    }
}

impl From<BoltRegister> for u8 {
    fn from(value: BoltRegister) -> (r: u8) {
        match value {
            BoltRegister::Connections => 0x02,
            BoltRegister::ReceiverInfo => 0xb5,
            BoltRegister::DeviceDiscovery => 0xc0,
            BoltRegister::Pairing => 0xc1,
            BoltRegister::UniqueId => 0xfb,
        }
    }
}

impl FromSpecImpl<BoltRegister> for u8 {
    open spec fn obeys_from_spec() -> bool {
        true
    }

    open spec fn from_spec(value: BoltRegister) -> u8 {
        value.code()
    }
}

impl TryFrom<u8> for BoltRegister {
    type Error = TryFromPrimitiveError;

    fn try_from(value: u8) -> (r: Result<Self, TryFromPrimitiveError>) {
        match value {
            0x02 => Ok(BoltRegister::Connections),
            0xb5 => Ok(BoltRegister::ReceiverInfo),
            0xc0 => Ok(BoltRegister::DeviceDiscovery),
            0xc1 => Ok(BoltRegister::Pairing),
            0xfb => Ok(BoltRegister::UniqueId),
            _ => Err(TryFromPrimitiveError { number: value }),
        }
    }
}

impl TryFromSpecImpl<u8> for BoltRegister {
    open spec fn obeys_try_from_spec() -> bool {
        true
    }

    open spec fn try_from_spec(value: u8) -> Result<Self, TryFromPrimitiveError> {
        match Self::from_code(value) {
            Some(v) => Ok(v),
            None => Err(TryFromPrimitiveError { number: value }),
        }
    }
}

/// Represents the known sub-registers of the [`BoltRegister::ReceiverInfo`]
/// register.
#[derive(Clone, Copy, PartialEq, Eq, Structural, Hash, Debug)]
#[non_exhaustive]
pub enum BoltInfoSubRegister {
    /// Provides information about a specific paired device: `0x5N` with N =
    /// device index.
    ///
    /// Exposed by [`BoltReceiver::get_device_pairing_information`].
    DevicePairingInformation,
    /// Provides the name of a paired device: `0x6N` with N = device index.
    ///
    /// Exposed by [`BoltReceiver::get_device_codename`].
    DeviceCodename,
}

impl BoltInfoSubRegister {
    /// The number of the sub-register for the device index `0`.
    pub open spec fn code(self) -> u8 {
        match self {
            BoltInfoSubRegister::DevicePairingInformation => 0x50,
            BoltInfoSubRegister::DeviceCodename => 0x60,
        }
    }

    /// The sub-register with a number, if it is a known one.
    pub open spec fn from_code(value: u8) -> Option<Self> {
        match value {
            0x50 => Some(BoltInfoSubRegister::DevicePairingInformation),
            0x60 => Some(BoltInfoSubRegister::DeviceCodename),
            _ => None,
        }
    }
}

impl From<BoltInfoSubRegister> for u8 {
    fn from(value: BoltInfoSubRegister) -> (r: u8) {
        match value {
            BoltInfoSubRegister::DevicePairingInformation => 0x50,
            BoltInfoSubRegister::DeviceCodename => 0x60,
        }
    }
}

impl FromSpecImpl<BoltInfoSubRegister> for u8 {
    open spec fn obeys_from_spec() -> bool {
        true
    }

    open spec fn from_spec(value: BoltInfoSubRegister) -> u8 {
        value.code()
    }
}

impl TryFrom<u8> for BoltInfoSubRegister {
    type Error = TryFromPrimitiveError;

    fn try_from(value: u8) -> (r: Result<Self, TryFromPrimitiveError>) {
        match value {
            0x50 => Ok(BoltInfoSubRegister::DevicePairingInformation),
            0x60 => Ok(BoltInfoSubRegister::DeviceCodename),
            _ => Err(TryFromPrimitiveError { number: value }),
        }
    }
}

impl TryFromSpecImpl<u8> for BoltInfoSubRegister {
    open spec fn obeys_try_from_spec() -> bool {
        true
    }

    open spec fn try_from_spec(value: u8) -> Result<Self, TryFromPrimitiveError> {
        match Self::from_code(value) {
            Some(v) => Ok(v),
            None => Err(TryFromPrimitiveError { number: value }),
        }
    }
}

/// Represents some information about a specific device pairing as returned by
/// [`BoltReceiver::get_device_pairing_information`].
#[derive(Clone, Copy, PartialEq, Eq, Hash, Debug)]
pub struct BoltDevicePairingInformation {
    /// The wireless product ID of the device.
    pub wpid: u16,
    /// The kind of the device.
    pub kind: BoltDeviceKind,
    /// Whether the link to the device is encrypted.
    pub encrypted: bool,
    /// Whether the device is online/reachable.
    pub online: bool,
    /// The unit ID of the device.
    pub unit_id: [u8; 4],
}

/// Represents the kind of a device paired with a Bolt receiver.
#[derive(Clone, Copy, PartialEq, Eq, Structural, Hash, Debug)]
#[non_exhaustive]
pub enum BoltDeviceKind {
    Unknown,
    Keyboard,
    Mouse,
    Numpad,
    Presenter,
    Remote,
    Trackball,
    Touchpad,
    Tablet,
    Gamepad,
    Joystick,
    Headset,
}

impl BoltDeviceKind {
    /// The number that stands for the kind on the wire.
    pub open spec fn code(self) -> u8 {
        match self {
            BoltDeviceKind::Unknown => 0x00,
            BoltDeviceKind::Keyboard => 0x01,
            BoltDeviceKind::Mouse => 0x02,
            BoltDeviceKind::Numpad => 0x03,
            BoltDeviceKind::Presenter => 0x04,
            BoltDeviceKind::Remote => 0x07,
            BoltDeviceKind::Trackball => 0x08,
            BoltDeviceKind::Touchpad => 0x09,
            BoltDeviceKind::Tablet => 0x0a,
            BoltDeviceKind::Gamepad => 0x0b,
            BoltDeviceKind::Joystick => 0x0c,
            BoltDeviceKind::Headset => 0x0d,
        }
    }

    /// The kind that a number stands for, if any.
    pub open spec fn from_code(value: u8) -> Option<Self> {
        match value {
            0x00 => Some(BoltDeviceKind::Unknown),
            0x01 => Some(BoltDeviceKind::Keyboard),
            0x02 => Some(BoltDeviceKind::Mouse),
            0x03 => Some(BoltDeviceKind::Numpad),
            0x04 => Some(BoltDeviceKind::Presenter),
            0x07 => Some(BoltDeviceKind::Remote),
            0x08 => Some(BoltDeviceKind::Trackball),
            0x09 => Some(BoltDeviceKind::Touchpad),
            0x0a => Some(BoltDeviceKind::Tablet),
            0x0b => Some(BoltDeviceKind::Gamepad),
            0x0c => Some(BoltDeviceKind::Joystick),
            0x0d => Some(BoltDeviceKind::Headset),
            _ => None,
        }
    }
}

impl From<BoltDeviceKind> for u8 {
    fn from(value: BoltDeviceKind) -> (r: u8) {
        match value {
            BoltDeviceKind::Unknown => 0x00,
            BoltDeviceKind::Keyboard => 0x01,
            BoltDeviceKind::Mouse => 0x02,
            BoltDeviceKind::Numpad => 0x03,
            BoltDeviceKind::Presenter => 0x04,
            BoltDeviceKind::Remote => 0x07,
            BoltDeviceKind::Trackball => 0x08,
            BoltDeviceKind::Touchpad => 0x09,
            BoltDeviceKind::Tablet => 0x0a,
            BoltDeviceKind::Gamepad => 0x0b,
            BoltDeviceKind::Joystick => 0x0c,
            BoltDeviceKind::Headset => 0x0d,
        }
    }
}

impl FromSpecImpl<BoltDeviceKind> for u8 {
    open spec fn obeys_from_spec() -> bool {
        true
    }

    open spec fn from_spec(value: BoltDeviceKind) -> u8 {
        value.code()
    }
}

impl TryFrom<u8> for BoltDeviceKind {
    type Error = TryFromPrimitiveError;

    fn try_from(value: u8) -> (r: Result<Self, TryFromPrimitiveError>) {
        match value {
            0x00 => Ok(BoltDeviceKind::Unknown),
            0x01 => Ok(BoltDeviceKind::Keyboard),
            0x02 => Ok(BoltDeviceKind::Mouse),
            0x03 => Ok(BoltDeviceKind::Numpad),
            0x04 => Ok(BoltDeviceKind::Presenter),
            0x07 => Ok(BoltDeviceKind::Remote),
            0x08 => Ok(BoltDeviceKind::Trackball),
            0x09 => Ok(BoltDeviceKind::Touchpad),
            0x0a => Ok(BoltDeviceKind::Tablet),
            0x0b => Ok(BoltDeviceKind::Gamepad),
            0x0c => Ok(BoltDeviceKind::Joystick),
            0x0d => Ok(BoltDeviceKind::Headset),
            _ => Err(TryFromPrimitiveError { number: value }),
        }
    }
}

impl TryFromSpecImpl<u8> for BoltDeviceKind {
    open spec fn obeys_try_from_spec() -> bool {
        true
    }

    open spec fn try_from_spec(value: u8) -> Result<Self, TryFromPrimitiveError> {
        match Self::from_code(value) {
            Some(v) => Ok(v),
            None => Err(TryFromPrimitiveError { number: value }),
        }
    }
}

/// Represents an event emitted by a Bolt receiver.
#[derive(Clone, PartialEq, Eq, Hash, Debug)]
#[non_exhaustive]
pub enum BoltEvent {
    /// Is emitted whenever a device connects to or disconnects from the
    /// receiver.
    ///
    /// Can be triggered for all paired devices using
    /// [`BoltReceiver::trigger_device_arrival`] to allow easy device
    /// enumeration.
    DeviceConnection(BoltDeviceConnection),
    /// Is emitted whenever the device discovery status changes.
    DeviceDiscoveryStatus(BoltDeviceDiscoveryStatus),
    /// Is emitted many times for every device discovered using
    /// [`BoltReceiver::discover_devices`].
    ///
    /// This event contains device details, including its address required to
    /// start pairing. The [`BoltEvent::DeviceDiscoveryDeviceName`] event will
    /// also be emitted and contains the device name.
    DeviceDiscoveryDeviceDetails(BoltDeviceDiscoveryDeviceDetails),
    /// Is emitted many times for every device discovered using
    /// [`BoltReceiver::discover_devices`].
    ///
    /// This event only contains the device name. Device details will be
    /// provided using the [`BoltEvent::DeviceDiscoveryDeviceDetails`] event.
    DeviceDiscoveryDeviceName(BoltDeviceDiscoveryDeviceName),
    /// Is emitted whenever the status of a pairing process changes.
    PairingStatus(BoltPairingStatus),
    /// Is emitted once the receiver requests a passkey to be entered on a
    /// device that should be paired to it.
    PairingPasskeyRequest(BoltPairingPasskeyRequest),
    /// Is emitted for every keypress a user performs while entering a pairing
    /// passkey.
    PairingPasskeyPressed(BoltPairingPasskeyPressed),
}

/// Represents the data of the [`BoltEvent::DeviceConnection`] event.
#[derive(Clone, Copy, PartialEq, Eq, Structural, Hash, Debug)]
pub struct BoltDeviceConnection {
    /// The index of the device used to communicate with it.
    pub index: u8,
    /// The kind of the device.
    pub kind: BoltDeviceKind,
    /// Whether the link to the device is encrypted.
    pub encrypted: bool,
    /// Whether the device is online/reachable.
    pub online: bool,
    /// The wireless product ID of the device.
    pub wpid: u16,
}

/// Represents the data of the [`BoltEvent::DeviceDiscoveryStatus`] event.
#[derive(Clone, Copy, PartialEq, Eq, Structural, Hash, Debug)]
pub struct BoltDeviceDiscoveryStatus {
    /// Whether device discovery is enabled.
    pub discovery_enabled: bool,
}

/// Represents the data of the [`BoltEvent::DeviceDiscoveryDeviceDetails`]
/// event.
#[derive(Clone, Copy, PartialEq, Eq, Hash, Debug)]
pub struct BoltDeviceDiscoveryDeviceDetails {
    /// The incrementing event counter. This can be used to map
    /// [`BoltEvent::DeviceDiscoveryDeviceDetails`] and
    /// [`BoltEvent::DeviceDiscoveryDeviceName`] events.
    pub counter: u16,
    /// The kind of the discovered device.
    pub kind: BoltDeviceKind,
    /// The wireless product ID of the device.
    pub wpid: u16,
    /// The address of the device required to pair it using
    /// [`BoltReceiver::pair_device`].
    ///
    /// This can also be used as the unique device identifier when collecting
    /// discovered devices.
    pub address: [u8; 6],
    /// The authentication type(s) the device supports. Unfortunately, there is
    /// not much information about this value and whether it is a single value
    /// or a bitfield.
    pub authentication: u8,
}

/// Represents the data of the [`BoltEvent::DeviceDiscoveryDeviceName`] event.
#[derive(Clone, PartialEq, Eq, Hash, Debug)]
pub struct BoltDeviceDiscoveryDeviceName {
    /// The incrementing event counter. This can be used to map
    /// [`BoltEvent::DeviceDiscoveryDeviceDetails`] and
    /// [`BoltEvent::DeviceDiscoveryDeviceName`] events.
    pub counter: u16,
    /// The name of the discovered device.
    pub name: String,
}

/// Represents the data of the [`BoltEvent::PairingStatus`] event.
#[derive(Clone, Copy, PartialEq, Eq, Hash, Debug)]
pub struct BoltPairingStatus {
    /// The address of the device,
    pub device_address: [u8; 6],
    /// The error that occurred while trying to pair the device.
    pub pairing_error: Option<BoltPairingError>,
    /// The slot of the newly paired device.
    pub slot: Option<u8>,
}

/// Represents an error that occurred while pairing a device.
#[derive(Clone, Copy, PartialEq, Eq, Structural, Hash, Debug)]
#[non_exhaustive]
pub enum BoltPairingError {
    DeviceTimeout,
    Failed,
}

impl BoltPairingError {
    /// The byte that stands for the error on the wire.
    pub open spec fn code(self) -> u8 {
        match self {
            BoltPairingError::DeviceTimeout => 0x01,
            BoltPairingError::Failed => 0x02,
        }
    }

    /// The error that a byte stands for, if any.
    pub open spec fn from_code(value: u8) -> Option<Self> {
        match value {
            0x01 => Some(BoltPairingError::DeviceTimeout),
            0x02 => Some(BoltPairingError::Failed),
            _ => None,
        }
    }
}

impl From<BoltPairingError> for u8 {
    fn from(value: BoltPairingError) -> (r: u8) {
        match value {
            BoltPairingError::DeviceTimeout => 0x01,
            BoltPairingError::Failed => 0x02,
        }
    }
}

impl FromSpecImpl<BoltPairingError> for u8 {
    open spec fn obeys_from_spec() -> bool {
        true
    }

    open spec fn from_spec(value: BoltPairingError) -> u8 {
        value.code()
    }
}

impl TryFrom<u8> for BoltPairingError {
    type Error = TryFromPrimitiveError;

    fn try_from(value: u8) -> (r: Result<Self, TryFromPrimitiveError>) {
        match value {
            0x01 => Ok(BoltPairingError::DeviceTimeout),
            0x02 => Ok(BoltPairingError::Failed),
            _ => Err(TryFromPrimitiveError { number: value }),
        }
    }
}

impl TryFromSpecImpl<u8> for BoltPairingError {
    open spec fn obeys_try_from_spec() -> bool {
        true
    }

    open spec fn try_from_spec(value: u8) -> Result<Self, TryFromPrimitiveError> {
        match Self::from_code(value) {
            Some(v) => Ok(v),
            None => Err(TryFromPrimitiveError { number: value }),
        }
    }
}

/// Represents the data of the [`BoltEvent::PairingPasskeyRequest`] event.
#[derive(Clone, PartialEq, Eq, Hash, Debug)]
pub struct BoltPairingPasskeyRequest {
    /// The address of the device.
    pub device_address: [u8; 6],
    /// The passkey the user has to enter in order to pair the device.
    ///
    /// Depending on the device and authentication type, this value has
    /// different implications.
    ///
    /// For mice, this value will be a valid 6-digit number. After parsing this
    /// into an integer, the (least significant) bits represent the sequence
    /// of mouse presses (`0` = left, `1` = right) the user has to perform,
    /// with an additional press of both mouse buttons simultaneously.\
    /// The amount of bits significant to this equals to the `entropy` passed to
    /// [`BoltReceiver::pair_device`].
    pub passkey: String,
}

/// Represents the data of the [`BoltEvent::PairingPasskeyPressed`] event.
#[derive(Clone, Copy, PartialEq, Eq, Hash, Debug)]
pub struct BoltPairingPasskeyPressed {
    /// The address of the device.
    pub device_address: [u8; 6],
    /// The type of the keypress the user performed.
    ///
    /// Every passkey sequence starts with an event where this value is set to
    /// [`BoltPairingPasskeyPressType::Initialization`]. Each time the user
    /// presses a key, an event with a press type of
    /// [`BoltPairingPasskeyPressType::Keypress`] is emitted. Once the user
    /// submits their passkey, this value will be
    /// [`BoltPairingPasskeyPressType::Submit`].
    pub press_type: BoltPairingPasskeyPressType,
}

/// The type of a passkey keypress as included in the
/// [`BoltPairingPasskeyPressed`] event data.
#[derive(Clone, Copy, PartialEq, Eq, Structural, Hash, Debug)]
#[non_exhaustive]
pub enum BoltPairingPasskeyPressType {
    Initialization,
    Keypress,
    Submit,
}

impl BoltPairingPasskeyPressType {
    /// The byte that stands for the press type on the wire.
    pub open spec fn code(self) -> u8 {
        match self {
            BoltPairingPasskeyPressType::Initialization => 0x00,
            BoltPairingPasskeyPressType::Keypress => 0x01,
            BoltPairingPasskeyPressType::Submit => 0x04,
        }
    }

    /// The press type that a byte stands for, if any.
    pub open spec fn from_code(value: u8) -> Option<Self> {
        match value {
            0x00 => Some(BoltPairingPasskeyPressType::Initialization),
            0x01 => Some(BoltPairingPasskeyPressType::Keypress),
            0x04 => Some(BoltPairingPasskeyPressType::Submit),
            _ => None,
        }
    }
}

impl From<BoltPairingPasskeyPressType> for u8 {
    fn from(value: BoltPairingPasskeyPressType) -> (r: u8) {
        match value {
            BoltPairingPasskeyPressType::Initialization => 0x00,
            BoltPairingPasskeyPressType::Keypress => 0x01,
            BoltPairingPasskeyPressType::Submit => 0x04,
        }
    }
}

impl FromSpecImpl<BoltPairingPasskeyPressType> for u8 {
    open spec fn obeys_from_spec() -> bool {
        true
    }

    open spec fn from_spec(value: BoltPairingPasskeyPressType) -> u8 {
        value.code()
    }
}

impl TryFrom<u8> for BoltPairingPasskeyPressType {
    type Error = TryFromPrimitiveError;

    fn try_from(value: u8) -> (r: Result<Self, TryFromPrimitiveError>) {
        match value {
            0x00 => Ok(BoltPairingPasskeyPressType::Initialization),
            0x01 => Ok(BoltPairingPasskeyPressType::Keypress),
            0x04 => Ok(BoltPairingPasskeyPressType::Submit),
            _ => Err(TryFromPrimitiveError { number: value }),
        }
    }
}

impl TryFromSpecImpl<u8> for BoltPairingPasskeyPressType {
    open spec fn obeys_try_from_spec() -> bool {
        true
    }

    open spec fn try_from_spec(value: u8) -> Result<Self, TryFromPrimitiveError> {
        match Self::from_code(value) {
            Some(v) => Ok(v),
            None => Err(TryFromPrimitiveError { number: value }),
        }
    }
}

/// Implements the Bolt wireless receiver.
#[derive(Clone, Copy, PartialEq, Eq, Structural, Hash, Debug)]
pub struct BoltReceiver {
    /// The handle assigned to the message listener that was registered with
    /// the channel. This is used to remove the listener when the receiver is
    /// released.
    pub msg_listener_hdl: u32,
}

/// What enqueuing an access to a register of the receiver does: where the
/// channel supports the size of the message, the request waits at the end of
/// the queue for the reply to the access, and the frame of the message is
/// handed out. Else the channel stays as it is.
pub open spec fn spec_register_accessed<S>(
    before: ChannelState<S>,
    after: ChannelState<S>,
    msg: HidppMessage,
    msg_type: v10::MessageType,
    address: u8,
    sender: S,
    r: Result<Vec<u8>, ReceiverError>,
) -> bool {
    if before.supports_msg(msg) {
        &&& r is Ok
        &&& r->Ok_0@ == msg.frame()
        &&& after == before.with_pending(
            ResponsePredicate::RegisterAccess { device: RECEIVER_DEVICE_INDEX, msg_type, address },
            sender,
        )
    } else {
        &&& r == Err::<Vec<u8>, ReceiverError>(
            ReceiverError::Protocol(Hidpp10Error::Channel(ChannelError::MessageTypeNotSupported)),
        )
        &&& after == before
    }
}

/// The connection that a device connection notification from the device
/// `index` tells of: the kind in the low half, the encryption in bit 5 and
/// the absence of the link in bit 6 of the second byte, then the wireless
/// product ID, the less significant byte first.
pub open spec fn spec_device_connection(index: u8, payload: [u8; 17]) -> Option<
    BoltDeviceConnection,
> {
    match BoltDeviceKind::from_code(payload[1] & 0x0f) {
        Some(kind) => Some(
            BoltDeviceConnection {
                index,
                kind,
                encrypted: payload[1] & 0x20 != 0,
                online: payload[1] & 0x40 == 0,
                wpid: spec_u16_from_bytes(payload[3], payload[2]),
            },
        ),
        None => None,
    }
}

/// The details that a device discovery notification tells of.
pub open spec fn spec_discovery_details(payload: [u8; 17]) -> Option<
    BoltDeviceDiscoveryDeviceDetails,
> {
    match BoltDeviceKind::from_code(payload[4] & 0x0f) {
        Some(kind) => Some(
            BoltDeviceDiscoveryDeviceDetails {
                counter: spec_u16_from_bytes(payload[1], payload[0]),
                kind,
                wpid: spec_u16_from_bytes(payload[6], payload[5]),
                address: [payload[7], payload[8], payload[9], payload[10], payload[11], payload[12]],
                authentication: payload[15],
            },
        ),
        None => None,
    }
}

/// The pairing status that a pairing status notification tells of. The
/// second byte is `0` where there is no error.
pub open spec fn spec_pairing_status(payload: [u8; 17]) -> Option<BoltPairingStatus> {
    if payload[1] != 0 && BoltPairingError::from_code(payload[1]) is None {
        None
    } else {
        Some(
            BoltPairingStatus {
                device_address: [payload[2], payload[3], payload[4], payload[5], payload[6], payload[7]],
                pairing_error: BoltPairingError::from_code(payload[1]),
                slot: if payload[8] == 0 {
                    None
                } else {
                    Some(payload[8])
                },
            },
        )
    }
}

/// The keypress that a passkey keypress notification tells of.
pub open spec fn spec_passkey_pressed(payload: [u8; 17]) -> Option<BoltPairingPasskeyPressed> {
    match BoltPairingPasskeyPressType::from_code(payload[0]) {
        Some(press_type) => Some(
            BoltPairingPasskeyPressed { device_address: [payload[1], payload[2], payload[3], payload[4], payload[5], payload[6]], press_type },
        ),
        None => None,
    }
}

/// The bytes of the name in a device name notification, if the length that
/// the notification announces fits into it.
pub open spec fn spec_discovery_name_bytes(payload: [u8; 17]) -> Option<Seq<u8>> {
    if 4 + payload[3] <= 17 {
        Some(payload@.subrange(4, 4 + payload[3]))
    } else {
        None
    }
}

/// Whether `event` is what the receiver emits for an incoming message.
///
/// A message that answered a request is no notification. Of the others, the
/// receiver reads those that come from the receiver itself, and device
/// connection notifications, whichever device they come from. The sub ID says
/// what a notification tells:
///
/// - `0x41`: a device connection;
/// - `0x4f`: a discovered device, of which it tells the details where its
///   third byte is `0`, and the name where it is `1`;
/// - `0x53`: the status of the discovery, which is enabled where the first
///   byte is `0`;
/// - `0x54`: the status of a pairing;
/// - `0x4d`: a request for a passkey, which it carries in 6 bytes, followed
///   by the address of the device;
/// - `0x4e`: a keypress during the entry of a passkey.
///
/// A notification with a byte that stands for nothing known, or with text
/// that is no valid UTF-8, is no event.
pub open spec fn spec_is_event_of(event: Option<BoltEvent>, raw: HidppMessage, matched: bool) -> bool {
    let msg = v10::Message::spec_from_hidpp(raw);
    let header = msg.spec_header();
    let payload = msg.spec_extend_payload();
    if matched || (header.device_index != RECEIVER_DEVICE_INDEX && header.sub_id != 0x41) {
        event is None
    } else if header.sub_id == 0x41 {
        event == match spec_device_connection(header.device_index, payload) {
            Some(connection) => Some(BoltEvent::DeviceConnection(connection)),
            None => None,
        }
    } else if header.sub_id == 0x4f && payload[2] == 0 {
        event == match spec_discovery_details(payload) {
            Some(details) => Some(BoltEvent::DeviceDiscoveryDeviceDetails(details)),
            None => None,
        }
    } else if header.sub_id == 0x4f && payload[2] == 1 {
        match spec_discovery_name_bytes(payload) {
            Some(bytes) => if valid_utf8(bytes) {
                event matches Some(BoltEvent::DeviceDiscoveryDeviceName(name)) && name.counter
                    == spec_u16_from_bytes(payload[1], payload[0]) && name.name@ == decode_utf8(
                    bytes,
                )
            } else {
                event is None
            },
            None => event is None,
        }
    } else if header.sub_id == 0x53 {
        event == Some(
            BoltEvent::DeviceDiscoveryStatus(
                BoltDeviceDiscoveryStatus { discovery_enabled: payload[0] == 0x00 },
            ),
        )
    } else if header.sub_id == 0x54 {
        event == match spec_pairing_status(payload) {
            Some(status) => Some(BoltEvent::PairingStatus(status)),
            None => None,
        }
    } else if header.sub_id == 0x4d {
        if valid_utf8(payload@.subrange(1, 7)) {
            event matches Some(BoltEvent::PairingPasskeyRequest(request))
                && request.device_address == [payload[7], payload[8], payload[9], payload[10], payload[11], payload[12]] && request.passkey@ == decode_utf8(
                payload@.subrange(1, 7),
            )
        } else {
            event is None
        }
    } else if header.sub_id == 0x4e {
        event == match spec_passkey_pressed(payload) {
            Some(pressed) => Some(BoltEvent::PairingPasskeyPressed(pressed)),
            None => None,
        }
    } else {
        event is None
    }
}

/// Reads the connection that a device connection notification tells of.
fn device_connection(index: u8, payload: &[u8; 17]) -> (r: Option<BoltDeviceConnection>)
    ensures
        r == spec_device_connection(index, *payload),
{
    match BoltDeviceKind::try_from(payload[1] & 0x0f) {
        Ok(kind) => Some(
            BoltDeviceConnection {
                index,
                kind,
                encrypted: payload[1] & 0x20 != 0,
                online: payload[1] & 0x40 == 0,
                wpid: u16_from_le_bytes(payload[2], payload[3]),
            },
        ),
        Err(_) => None,
    }
}

/// Reads the details that a device discovery notification tells of.
fn discovery_details(payload: &[u8; 17]) -> (r: Option<BoltDeviceDiscoveryDeviceDetails>)
    ensures
        r == spec_discovery_details(*payload),
{
    match BoltDeviceKind::try_from(payload[4] & 0x0f) {
        Ok(kind) => Some(
            BoltDeviceDiscoveryDeviceDetails {
                counter: u16_from_le_bytes(payload[0], payload[1]),
                kind,
                wpid: u16_from_le_bytes(payload[5], payload[6]),
                address: [payload[7], payload[8], payload[9], payload[10], payload[11], payload[12]],
                authentication: payload[15],
            },
        ),
        Err(_) => None,
    }
}

/// Reads the pairing status that a pairing status notification tells of.
fn pairing_status(payload: &[u8; 17]) -> (r: Option<BoltPairingStatus>)
    ensures
        r == spec_pairing_status(*payload),
{
    let pairing_error = if payload[1] == 0x00 {
        None
    } else {
        match BoltPairingError::try_from(payload[1]) {
            Ok(parsed) => Some(parsed),
            Err(_) => {
                return None;
            },
        }
    };
    Some(
        BoltPairingStatus {
            device_address: [payload[2], payload[3], payload[4], payload[5], payload[6], payload[7]],
            pairing_error,
            slot: if payload[8] == 0x00 {
                None
            } else {
                Some(payload[8])
            },
        },
    )
}

/// Reads the keypress that a passkey keypress notification tells of.
fn passkey_pressed(payload: &[u8; 17]) -> (r: Option<BoltPairingPasskeyPressed>)
    ensures
        r == spec_passkey_pressed(*payload),
{
    match BoltPairingPasskeyPressType::try_from(payload[0]) {
        Ok(press_type) => Some(
            BoltPairingPasskeyPressed { device_address: [payload[1], payload[2], payload[3], payload[4], payload[5], payload[6]], press_type },
        ),
        Err(_) => None,
    }
}

impl BoltReceiver {
    /// Tries to initialize a new [`BoltReceiver`] for a HID++ channel, and
    /// registers its message listener with the channel.
    ///
    /// If the vendor and product IDs of the channel don't match the ones of
    /// any known Bolt receiver, this function will return
    /// [`ReceiverError::UnknownReceiver`], and registers nothing.
    pub fn new<S>(chan: &mut HidppChannel<S>) -> (r: Result<Self, ReceiverError>)
        requires
            old(chan).wf(),
            old(chan)@.message_listeners.len() <= u32::MAX,
        ensures
            final(chan).wf(),
            spec_is_bolt(old(chan)@.vendor_id, old(chan)@.product_id) ==> {
                &&& r is Ok
                &&& !old(chan)@.message_listeners.contains(r->Ok_0.msg_listener_hdl)
                &&& final(chan)@ == old(chan)@.with_listener(r->Ok_0.msg_listener_hdl)
            },
            !spec_is_bolt(old(chan)@.vendor_id, old(chan)@.product_id) ==> r == Err::<
                Self,
                ReceiverError,
            >(ReceiverError::UnknownReceiver) && final(chan)@ == old(chan)@,
    {
        if !is_bolt(chan.vendor_id(), chan.product_id()) {
            return Err(ReceiverError::UnknownReceiver);
        }
        let hdl = chan.add_msg_listener();

        Ok(BoltReceiver { msg_listener_hdl: hdl })
    }

    /// Releases the receiver: removes its message listener from the channel,
    /// and changes nothing else.
    ///
    /// Returns whether the listener was still registered.
    pub fn release<S>(&self, chan: &mut HidppChannel<S>) -> (r: bool)
        ensures
            r == old(chan)@.message_listeners.contains(self.msg_listener_hdl),
            final(chan)@ == old(chan)@.without_listener(self.msg_listener_hdl),
            old(chan).wf() ==> final(chan).wf() && !final(chan)@.message_listeners.contains(
                self.msg_listener_hdl,
            ),
    {
        chan.remove_msg_listener(self.msg_listener_hdl)
    }

    /// Turns an incoming message, of which the message listener of the
    /// receiver is told, into the event that the receiver emits for it.
    /// `matched` tells whether the message answered a request.
    pub fn decode_event(raw: HidppMessage, matched: bool) -> (r: Option<BoltEvent>)
        ensures
            spec_is_event_of(r, raw, matched),
    {
        if matched {
            return None;
        }
        let parsed = v10::Message::from(raw);
        let header = parsed.header();
        let payload = parsed.extend_payload();

        if header.device_index != RECEIVER_DEVICE_INDEX && header.sub_id != 0x41 {
            return None;
        }
        match header.sub_id {
            // Device connection
            0x41 => match device_connection(header.device_index, &payload) {
                Some(connection) => Some(BoltEvent::DeviceConnection(connection)),
                None => None,
            },
            // Device discovery
            0x4f => match payload[2] {
                // Device data
                0 => match discovery_details(&payload) {
                    Some(details) => Some(BoltEvent::DeviceDiscoveryDeviceDetails(details)),
                    None => None,
                },
                // Device name
                1 => {
                    let length: usize = payload[3] as usize;
                    if 4 + length > 17 {
                        return None;
                    }
                    match string_from_utf8(copy_range(&payload, 4, 4 + length)) {
                        Some(name) => Some(
                            BoltEvent::DeviceDiscoveryDeviceName(
                                BoltDeviceDiscoveryDeviceName {
                                    counter: u16_from_le_bytes(payload[0], payload[1]),
                                    name,
                                },
                            ),
                        ),
                        None => None,
                    }
                },
                _ => None,
            },
            // Device discovery status
            0x53 => Some(
                BoltEvent::DeviceDiscoveryStatus(
                    BoltDeviceDiscoveryStatus { discovery_enabled: payload[0] == 0x00 },
                ),
            ),
            // Pairing status
            0x54 => match pairing_status(&payload) {
                Some(status) => Some(BoltEvent::PairingStatus(status)),
                None => None,
            },
            // Passkey request
            0x4d => match string_from_utf8(copy_range(&payload, 1, 7)) {
                Some(passkey) => Some(
                    BoltEvent::PairingPasskeyRequest(
                        BoltPairingPasskeyRequest { device_address: [payload[7], payload[8], payload[9], payload[10], payload[11], payload[12]], passkey },
                    ),
                ),
                None => None,
            },
            // Passkey pressed
            0x4e => match passkey_pressed(&payload) {
                Some(pressed) => Some(BoltEvent::PairingPasskeyPressed(pressed)),
                None => None,
            },
            _ => None,
        }
    }

    /// Starts to count the amount of devices currently paired to this receiver.
    /// The devices don't have to be online to be included here as pairings are
    /// persistent. [`Self::count_pairings_reply`] reads the response.
    pub fn count_pairings<S>(&self, chan: &mut HidppChannel<S>, sender: S) -> (r: Result<
        Vec<u8>,
        ReceiverError,
    >)
        ensures
            spec_register_accessed(
                old(chan)@,
                final(chan)@,
                v10::spec_register_request(v10::MessageType::GetRegister, RECEIVER_DEVICE_INDEX, 0x02, [0x00, 0x00, 0x00]),
                v10::MessageType::GetRegister,
                0x02,
                sender,
                r,
            ),
    {
        match chan.read_register(RECEIVER_DEVICE_INDEX, 0x02, [0x00, 0x00, 0x00], sender) {
            Ok(frame) => Ok(frame),
            Err(e) => Err(ReceiverError::Protocol(e)),
        }
    }

    /// Reads the response to [`Self::count_pairings`]: the count, in the second
    /// byte of the register.
    pub fn count_pairings_reply(response: HidppMessage) -> (r: Result<u8, ReceiverError>)
        ensures
            r == match v10::spec_register_reply(response) {
                Ok(payload) => Ok::<u8, ReceiverError>(payload[2]),
                Err(e) => Err(ReceiverError::Protocol(e)),
            },
    {
        match v10::read_register_reply(response) {
            Ok(register) => Ok(register[1]),
            Err(e) => Err(ReceiverError::Protocol(e)),
        }
    }

    /// Starts to trigger device arrival notifications for all devices currently
    /// connected to the receiver. This is useful for device enumeration.
    /// [`Self::trigger_device_arrival_reply`] reads the response.
    pub fn trigger_device_arrival<S>(&self, chan: &mut HidppChannel<S>, sender: S) -> (r: Result<
        Vec<u8>,
        ReceiverError,
    >)
        ensures
            spec_register_accessed(
                old(chan)@,
                final(chan)@,
                v10::spec_register_request(v10::MessageType::SetRegister, RECEIVER_DEVICE_INDEX, 0x02, [0x02, 0x00, 0x00]),
                v10::MessageType::SetRegister,
                0x02,
                sender,
                r,
            ),
    {
        match chan.write_register(RECEIVER_DEVICE_INDEX, 0x02, [0x02, 0x00, 0x00], sender) {
            Ok(frame) => Ok(frame),
            Err(e) => Err(ReceiverError::Protocol(e)),
        }
    }

    /// Reads the response to [`Self::trigger_device_arrival`]: nothing, or the error that the
    /// receiver reported.
    pub fn trigger_device_arrival_reply(response: HidppMessage) -> (r: Result<(), ReceiverError>)
        ensures
            r == match v10::spec_register_reply(response) {
                Ok(_) => Ok::<(), ReceiverError>(()),
                Err(e) => Err(ReceiverError::Protocol(e)),
            },
    {
        match v10::write_register_reply(response) {
            Ok(_) => Ok(()),
            Err(e) => Err(ReceiverError::Protocol(e)),
        }
    }

    /// Starts to collect information about all paired devices: triggers device
    /// arrival notifications, as [`Self::trigger_device_arrival`] does.
    ///
    /// The receiver sends one device connection notification for each paired
    /// device before it confirms the write. So the caller starts a
    /// [`PairedDeviceCollector`] before it writes the frame, shows it every
    /// event that the receiver emits until the response to the write is there,
    /// and then takes what it has collected.
    pub fn collect_paired_devices<S>(&self, chan: &mut HidppChannel<S>, sender: S) -> (r: Result<
        Vec<u8>,
        ReceiverError,
    >)
        ensures
            spec_register_accessed(
                old(chan)@,
                final(chan)@,
                v10::spec_register_request(v10::MessageType::SetRegister, RECEIVER_DEVICE_INDEX, 0x02, [0x02, 0x00, 0x00]),
                v10::MessageType::SetRegister,
                0x02,
                sender,
                r,
            ),
    {
        match chan.write_register(RECEIVER_DEVICE_INDEX, 0x02, [0x02, 0x00, 0x00], sender) {
            Ok(frame) => Ok(frame),
            Err(e) => Err(ReceiverError::Protocol(e)),
        }
    }

    /// Starts to retrieve the unique ID of the receiver.
    /// [`Self::get_unique_id_reply`] reads the response.
    pub fn get_unique_id<S>(&self, chan: &mut HidppChannel<S>, sender: S) -> (r: Result<
        Vec<u8>,
        ReceiverError,
    >)
        ensures
            spec_register_accessed(
                old(chan)@,
                final(chan)@,
                v10::spec_register_request(v10::MessageType::GetLongRegister, RECEIVER_DEVICE_INDEX, 0xfb, [0x00, 0x00, 0x00]),
                v10::MessageType::GetLongRegister,
                0xfb,
                sender,
                r,
            ),
    {
        match chan.read_long_register(RECEIVER_DEVICE_INDEX, 0xfb, [0x00, 0x00, 0x00], sender) {
            Ok(frame) => Ok(frame),
            Err(e) => Err(ReceiverError::Protocol(e)),
        }
    }

    /// Reads the response to [`Self::get_unique_id`]: the text that the 16
    /// bytes of the register encode.
    ///
    /// Fails with the error that the receiver reported, and with
    /// [`Hidpp10Error::UnsupportedResponse`] exactly when the response is no
    /// error message and the bytes are no valid UTF-8.
    pub fn get_unique_id_reply(response: HidppMessage) -> (r: Result<String, ReceiverError>)
        ensures
            match v10::spec_register_reply(response) {
                Ok(payload) => if valid_utf8(payload@.subrange(1, 17)) {
                    r is Ok && r->Ok_0@ == decode_utf8(payload@.subrange(1, 17))
                } else {
                    r == Err::<String, ReceiverError>(
                        ReceiverError::Protocol(Hidpp10Error::UnsupportedResponse),
                    )
                },
                Err(e) => r == Err::<String, ReceiverError>(ReceiverError::Protocol(e)),
            },
    {
        match v10::read_long_register_reply(response) {
            Ok(register) => {
                assert(register@.subrange(0, 16) =~= v10::spec_register_reply(
                    response,
                )->Ok_0@.subrange(1, 17));
                match string_from_utf8(copy_range(&register, 0, 16)) {
                    Some(unique_id) => Ok(unique_id),
                    None => Err(ReceiverError::Protocol(Hidpp10Error::UnsupportedResponse)),
                }
            },
            Err(e) => Err(ReceiverError::Protocol(e)),
        }
    }

    /// Starts to retrieve the pairing information of a specific paired device.
    /// [`Self::get_device_pairing_information_reply`] reads the response.
    pub fn get_device_pairing_information<S>(&self, chan: &mut HidppChannel<S>, device_index: u8, sender: S) -> (r: Result<
        Vec<u8>,
        ReceiverError,
    >)
        ensures
            spec_register_accessed(
                old(chan)@,
                final(chan)@,
                v10::spec_register_request(v10::MessageType::GetLongRegister, RECEIVER_DEVICE_INDEX, 0xb5, [(0x50 + (device_index & 0x0f)) as u8, 0x00, 0x00]),
                v10::MessageType::GetLongRegister,
                0xb5,
                sender,
                r,
            ),
    {
        let slot = device_index & 0x0f;
        assert(slot < 16) by (bit_vector)
            requires
                slot == device_index & 0x0f,
        ;
        let sub_register: u8 = u8::from(BoltInfoSubRegister::DevicePairingInformation) + slot;
        match chan.read_long_register(RECEIVER_DEVICE_INDEX, 0xb5, [sub_register, 0x00, 0x00], sender) {
            Ok(frame) => Ok(frame),
            Err(e) => Err(ReceiverError::Protocol(e)),
        }
    }

    /// Reads the response to [`Self::get_device_pairing_information`].
    ///
    /// Fails with the error that the receiver reported, and with
    /// [`Hidpp10Error::UnsupportedResponse`] exactly when the response is no
    /// error message and tells of no known kind of device.
    pub fn get_device_pairing_information_reply(response: HidppMessage) -> (r: Result<
        BoltDevicePairingInformation,
        ReceiverError,
    >)
        ensures
            r == match v10::spec_register_reply(response) {
                Ok(payload) => match BoltDeviceKind::from_code(payload[2] & 0x0f) {
                    Some(kind) => Ok::<BoltDevicePairingInformation, ReceiverError>(
                        BoltDevicePairingInformation {
                            wpid: spec_u16_from_bytes(payload[4], payload[3]),
                            kind,
                            encrypted: payload[2] & 0x20 != 0,
                            online: payload[2] & 0x40 == 0,
                            unit_id: [payload[5], payload[6], payload[7], payload[8]],
                        },
                    ),
                    None => Err(ReceiverError::Protocol(Hidpp10Error::UnsupportedResponse)),
                },
                Err(e) => Err(ReceiverError::Protocol(e)),
            },
    {
        let register = match v10::read_long_register_reply(response) {
            Ok(register) => register,
            Err(e) => {
                return Err(ReceiverError::Protocol(e));
            },
        };
        match BoltDeviceKind::try_from(register[1] & 0x0f) {
            Ok(kind) => Ok(
                BoltDevicePairingInformation {
                    wpid: u16_from_le_bytes(register[2], register[3]),
                    kind,
                    encrypted: register[1] & 0x20 != 0,
                    online: register[1] & 0x40 == 0,
                    unit_id: [register[4], register[5], register[6], register[7]],
                },
            ),
            Err(_) => Err(ReceiverError::Protocol(Hidpp10Error::UnsupportedResponse)),
        }
    }

    /// Starts to retrieve the codename of a specific paired device.
    /// [`Self::get_device_codename_reply`] reads the response.
    pub fn get_device_codename<S>(&self, chan: &mut HidppChannel<S>, device_index: u8, sender: S) -> (r: Result<
        Vec<u8>,
        ReceiverError,
    >)
        ensures
            spec_register_accessed(
                old(chan)@,
                final(chan)@,
                v10::spec_register_request(v10::MessageType::GetLongRegister, RECEIVER_DEVICE_INDEX, 0xb5, [(0x60 + (device_index & 0x0f)) as u8, 0x01, 0x00]),
                v10::MessageType::GetLongRegister,
                0xb5,
                sender,
                r,
            ),
    {
        let slot = device_index & 0x0f;
        assert(slot < 16) by (bit_vector)
            requires
                slot == device_index & 0x0f,
        ;
        let sub_register: u8 = u8::from(BoltInfoSubRegister::DeviceCodename) + slot;
        match chan.read_long_register(RECEIVER_DEVICE_INDEX, 0xb5, [sub_register, 0x01, 0x00], sender) {
            Ok(frame) => Ok(frame),
            Err(e) => Err(ReceiverError::Protocol(e)),
        }
    }

    /// Reads the response to [`Self::get_device_codename`]: the text whose
    /// length the third byte of the register tells, and whose bytes follow it.
    ///
    /// Fails with the error that the receiver reported, and with
    /// [`Hidpp10Error::UnsupportedResponse`] exactly when the response is no
    /// error message and the text does not fit into the register or is no
    /// valid UTF-8.
    pub fn get_device_codename_reply(response: HidppMessage) -> (r: Result<String, ReceiverError>)
        ensures
            match v10::spec_register_reply(response) {
                Ok(payload) => if 3 + payload[3] <= 16 && valid_utf8(
                    payload@.subrange(4, 4 + payload[3]),
                ) {
                    r is Ok && r->Ok_0@ == decode_utf8(payload@.subrange(4, 4 + payload[3]))
                } else {
                    r == Err::<String, ReceiverError>(
                        ReceiverError::Protocol(Hidpp10Error::UnsupportedResponse),
                    )
                },
                Err(e) => r == Err::<String, ReceiverError>(ReceiverError::Protocol(e)),
            },
    {
        let register = match v10::read_long_register_reply(response) {
            Ok(register) => register,
            Err(e) => {
                return Err(ReceiverError::Protocol(e));
            },
        };
        let length: usize = register[2] as usize;
        let end_idx: usize = 3 + length;
        if end_idx > 16 {
            return Err(ReceiverError::Protocol(Hidpp10Error::UnsupportedResponse));
        }
        assert(register@.subrange(3, end_idx as int) =~= v10::spec_register_reply(
            response,
        )->Ok_0@.subrange(4, 4 + length));
        match string_from_utf8(copy_range(&register, 3, end_idx)) {
            Some(codename) => Ok(codename),
            None => Err(ReceiverError::Protocol(Hidpp10Error::UnsupportedResponse)),
        }
    }

    /// Starts to unpair a device from the receiver by its index.
    /// [`Self::unpair_device_reply`] reads the response.
    pub fn unpair_device<S>(&self, chan: &mut HidppChannel<S>, device_index: u8, sender: S) -> (r: Result<
        Vec<u8>,
        ReceiverError,
    >)
        ensures
            spec_register_accessed(
                old(chan)@,
                final(chan)@,
                v10::spec_long_register_request(RECEIVER_DEVICE_INDEX, 0xc1, [0x03, device_index, 0, 0, 0, 0, 0, 0, 0, 0, 0, 0, 0, 0, 0, 0]),
                v10::MessageType::SetLongRegister,
                0xc1,
                sender,
                r,
            ),
    {
        match chan.write_long_register(RECEIVER_DEVICE_INDEX, 0xc1, [0x03, device_index, 0, 0, 0, 0, 0, 0, 0, 0, 0, 0, 0, 0, 0, 0], sender) {
            Ok(frame) => Ok(frame),
            Err(e) => Err(ReceiverError::Protocol(e)),
        }
    }

    /// Reads the response to [`Self::unpair_device`]: nothing, or the error that the
    /// receiver reported.
    pub fn unpair_device_reply(response: HidppMessage) -> (r: Result<(), ReceiverError>)
        ensures
            r == match v10::spec_register_reply(response) {
                Ok(_) => Ok::<(), ReceiverError>(()),
                Err(e) => Err(ReceiverError::Protocol(e)),
            },
    {
        match v10::write_long_register_reply(response) {
            Ok(_) => Ok(()),
            Err(e) => Err(ReceiverError::Protocol(e)),
        }
    }

    /// Starts the pairing process for a new device.
    /// [`Self::pair_device_reply`] reads the response.
    ///
    /// The required `address` and `authentication` values are usually
    /// discovered from the [`BoltEvent::DeviceDiscoveryDeviceDetails`]
    /// event which is emitted regularly when actively discovering available
    /// devices ([`Self::discover_devices`]).
    ///
    /// `entropy` specifies how complex the authentication passkey should be.
    /// For mice this defines the amount of keypresses (left or right) the user
    /// has to perform. Not all values seem to be supported.
    pub fn pair_device<S>(&self, chan: &mut HidppChannel<S>, slot: u8, address: [u8; 6], authentication: u8, entropy: u8, sender: S) -> (r: Result<
        Vec<u8>,
        ReceiverError,
    >)
        ensures
            spec_register_accessed(
                old(chan)@,
                final(chan)@,
                v10::spec_long_register_request(RECEIVER_DEVICE_INDEX, 0xc1, [
                0x01,
                slot,
                address[0], address[1], address[2], address[3], address[4], address[5],
                authentication,
                entropy,
                0,
                0,
                0,
                0,
                0,
                0,
            ]),
                v10::MessageType::SetLongRegister,
                0xc1,
                sender,
                r,
            ),
    {
        match chan.write_long_register(RECEIVER_DEVICE_INDEX, 0xc1, [
                0x01,
                slot,
                address[0], address[1], address[2], address[3], address[4], address[5],
                authentication,
                entropy,
                0,
                0,
                0,
                0,
                0,
                0,
            ], sender) {
            Ok(frame) => Ok(frame),
            Err(e) => Err(ReceiverError::Protocol(e)),
        }
    }

    /// Reads the response to [`Self::pair_device`]: nothing, or the error that the
    /// receiver reported.
    pub fn pair_device_reply(response: HidppMessage) -> (r: Result<(), ReceiverError>)
        ensures
            r == match v10::spec_register_reply(response) {
                Ok(_) => Ok::<(), ReceiverError>(()),
                Err(e) => Err(ReceiverError::Protocol(e)),
            },
    {
        match v10::write_long_register_reply(response) {
            Ok(_) => Ok(()),
            Err(e) => Err(ReceiverError::Protocol(e)),
        }
    }

    /// Starts device discovery for `timeout` ([`None`] = default, seems to be
    /// 30s) seconds. The maximum supported value is 60s.
    /// [`Self::discover_devices_reply`] reads the response.
    ///
    /// While device discovery is enabled,
    /// [`BoltEvent::DeviceDiscoveryDeviceDetails`] and
    /// [`BoltEvent::DeviceDiscoveryDeviceName`] events are emitted for every
    /// discovered device.
    pub fn discover_devices<S>(&self, chan: &mut HidppChannel<S>, timeout: Option<u8>, sender: S) -> (r: Result<
        Vec<u8>,
        ReceiverError,
    >)
        ensures
            spec_register_accessed(
                old(chan)@,
                final(chan)@,
                v10::spec_register_request(v10::MessageType::SetRegister, RECEIVER_DEVICE_INDEX, 0xc0, [
                    match timeout {
                        Some(seconds) => seconds,
                        None => 0x00,
                    },
                    0x01,
                    0x00,
                ]),
                v10::MessageType::SetRegister,
                0xc0,
                sender,
                r,
            ),
    {
        let seconds: u8 = match timeout {
            Some(seconds) => seconds,
            None => 0x00,
        };
        match chan.write_register(RECEIVER_DEVICE_INDEX, 0xc0, [seconds, 0x01, 0x00], sender) {
            Ok(frame) => Ok(frame),
            Err(e) => Err(ReceiverError::Protocol(e)),
        }
    }

    /// Reads the response to [`Self::discover_devices`]: nothing, or the error that the
    /// receiver reported.
    pub fn discover_devices_reply(response: HidppMessage) -> (r: Result<(), ReceiverError>)
        ensures
            r == match v10::spec_register_reply(response) {
                Ok(_) => Ok::<(), ReceiverError>(()),
                Err(e) => Err(ReceiverError::Protocol(e)),
            },
    {
        match v10::write_register_reply(response) {
            Ok(_) => Ok(()),
            Err(e) => Err(ReceiverError::Protocol(e)),
        }
    }

    /// Starts to cancel the device discovery process.
    /// [`Self::cancel_device_discovery_reply`] reads the response.
    pub fn cancel_device_discovery<S>(&self, chan: &mut HidppChannel<S>, sender: S) -> (r: Result<
        Vec<u8>,
        ReceiverError,
    >)
        ensures
            spec_register_accessed(
                old(chan)@,
                final(chan)@,
                v10::spec_register_request(v10::MessageType::SetRegister, RECEIVER_DEVICE_INDEX, 0xc0, [0x00, 0x02, 0x00]),
                v10::MessageType::SetRegister,
                0xc0,
                sender,
                r,
            ),
    {
        match chan.write_register(RECEIVER_DEVICE_INDEX, 0xc0, [0x00, 0x02, 0x00], sender) {
            Ok(frame) => Ok(frame),
            Err(e) => Err(ReceiverError::Protocol(e)),
        }
    }

    /// Reads the response to [`Self::cancel_device_discovery`]: nothing, or the error that the
    /// receiver reported.
    pub fn cancel_device_discovery_reply(response: HidppMessage) -> (r: Result<(), ReceiverError>)
        ensures
            r == match v10::spec_register_reply(response) {
                Ok(_) => Ok::<(), ReceiverError>(()),
                Err(e) => Err(ReceiverError::Protocol(e)),
            },
    {
        match v10::write_register_reply(response) {
            Ok(_) => Ok(()),
            Err(e) => Err(ReceiverError::Protocol(e)),
        }
    }
}

/// The device connections among the events, in their order.
pub open spec fn spec_connections(events: Seq<BoltEvent>) -> Seq<BoltDeviceConnection>
    decreases events.len(),
{
    if events.len() == 0 {
        Seq::empty()
    } else {
        match events.last() {
            BoltEvent::DeviceConnection(connection) => spec_connections(events.drop_last()).push(
                connection,
            ),
            _ => spec_connections(events.drop_last()),
        }
    }
}

/// Collects the paired devices of which the receiver tells while device
/// arrival notifications are triggered.
#[derive(Clone, PartialEq, Eq, Hash, Debug)]
pub struct PairedDeviceCollector {
    /// The connections that were collected so far.
    devices: Vec<BoltDeviceConnection>,
}

impl PairedDeviceCollector {
    /// The connections that were collected so far.
    pub closed spec fn devices(&self) -> Seq<BoltDeviceConnection> {
        self.devices@
    }

    /// Starts a collection.
    pub fn new() -> (r: Self)
        ensures
            r.devices() == Seq::<BoltDeviceConnection>::empty(),
    {
        Self { devices: Vec::new() }
    }

    /// Shows the collector an event of the receiver: a device connection is
    /// collected, and any other event is passed over.
    pub fn observe(&mut self, event: &BoltEvent)
        ensures
            final(self).devices() == match *event {
                BoltEvent::DeviceConnection(connection) => old(self).devices().push(connection),
                _ => old(self).devices(),
            },
    {
        match event {
            BoltEvent::DeviceConnection(connection) => {
                self.devices.push(*connection);
            },
            _ => {},
        }
    }

    /// Ends the collection once the write that triggered the notifications
    /// has ended. Whatever the write ended with, the devices that were
    /// collected are handed out.
    pub fn finish(self, write: Result<(), ReceiverError>) -> (r: Result<
        Vec<BoltDeviceConnection>,
        ReceiverError,
    >)
        ensures
            r is Ok,
            r->Ok_0@ == self.devices(),
    {
        Ok(self.devices)
    }
}

/// A collector that was shown the events `events` one after the other has
/// collected the device connections among them, in their order.
pub proof fn lemma_collected(events: Seq<BoltEvent>)
    ensures
        spec_connections(events).len() <= events.len(),
        forall|connection: BoltDeviceConnection| #[trigger]
            spec_connections(events).contains(connection) <==> events.contains(
                BoltEvent::DeviceConnection(connection),
            ),
    decreases events.len(),
{
    if events.len() > 0 {
        let rest = events.drop_last();
        lemma_collected(rest);
        assert forall|connection: BoltDeviceConnection| #[trigger]
            spec_connections(events).contains(connection) <==> events.contains(
                BoltEvent::DeviceConnection(connection),
            ) by {
            let found = spec_connections(events);
            let before = spec_connections(rest);
            let wanted = BoltEvent::DeviceConnection(connection);
            if found.contains(connection) {
                let i = choose|i: int| 0 <= i < found.len() && found[i] == connection;
                if i < before.len() {
                    assert(before[i] == connection);
                    assert(before.contains(connection));
                    let j = choose|j: int| 0 <= j < rest.len() && rest[j] == wanted;
                    assert(events[j] == wanted);
                } else {
                    assert(events[events.len() - 1] == wanted);
                }
            }
            if events.contains(wanted) {
                let j = choose|j: int| 0 <= j < events.len() && events[j] == wanted;
                if j < rest.len() {
                    assert(rest[j] == wanted);
                    assert(before.contains(connection));
                    let i = choose|i: int| 0 <= i < before.len() && before[i] == connection;
                    assert(found[i] == connection);
                } else {
                    assert(found[found.len() - 1] == connection);
                }
            }
        }
    }
}

} // verus!
