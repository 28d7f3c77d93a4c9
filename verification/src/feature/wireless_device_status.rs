//! Implements the `WirelessDeviceStatus` feature (ID `0x1d4b`) that notifies
//! the host about device reconnections.

use vstd::prelude::*;
use vstd::std_specs::convert::FromSpecImpl;
use vstd::std_specs::convert::TryFromSpecImpl;
use crate::channel::HidppChannel;
use crate::channel::HidppMessage;
use crate::feature::CreatableFeature;
use crate::feature::Feature;
use crate::primitive::TryFromPrimitiveError;
use crate::protocol::v20;
use crate::feature::EmittingFeature;

verus! {

/// Implements the `WirelessDeviceStatus` / `0x1d4b` feature.
#[derive(Clone, Copy, PartialEq, Eq, Structural, Hash, Debug)]
pub struct WirelessDeviceStatusFeature {
    /// The index of the device to implement the feature for.
    pub device_index: u8,
    /// The index of the feature in the feature table.
    pub feature_index: u8,
    /// The handle assigned to the message listener that was registered with
    /// the channel. This is used to remove the listener when the feature is
    /// released.
    pub msg_listener_hdl: u32,
}

impl Feature for WirelessDeviceStatusFeature {

}

impl CreatableFeature for WirelessDeviceStatusFeature {
    const ID: u16 = 0x1d4b;

    const STARTING_VERSION: u8 = 0;

    open spec fn spec_listener(&self) -> Option<u32> {
        Some(self.msg_listener_hdl)
    }

    fn new<S>(chan: &mut HidppChannel<S>, device_index: u8, feature_index: u8) -> (r: Self)
        ensures
            r.device_index == device_index,
            r.feature_index == feature_index,
    {
        let hdl = chan.add_msg_listener();
        Self { device_index, feature_index, msg_listener_hdl: hdl }
    }
}

impl WirelessDeviceStatusFeature {
    /// Releases the feature: removes its message listener from the channel,
    /// and changes nothing else.
    ///
    /// Returns whether the listener was still registered.
    pub fn release<S>(&self, chan: &mut HidppChannel<S>) -> (r: bool)
        ensures
            r == old(chan)@.message_listeners.contains(self.msg_listener_hdl),
            final(chan)@ == old(chan)@.without_listener(self.msg_listener_hdl),
            old(chan).wf() ==> final(chan).wf() && !final(chan)@.message_listeners.contains(
                self.msg_listener_hdl,
            ),
    {
        chan.remove_msg_listener(self.msg_listener_hdl)
    }
}

/// Represents an event emitted by the [`WirelessDeviceStatusFeature`]
/// feature.
#[derive(Clone, Copy, PartialEq, Eq, Structural, Hash, Debug)]
#[non_exhaustive]
pub enum WirelessDeviceStatusEvent {
    /// Is emitted whenever a device (re)connects to the host.
    ///
    /// This event is always enabled.
    StatusBroadcast(WirelessDeviceStatusBroadcast),
}

/// Represents the data of the [`WirelessDeviceStatusEvent::StatusBroadcast`]
/// event.
#[derive(Clone, Copy, PartialEq, Eq, Structural, Hash, Debug)]
pub struct WirelessDeviceStatusBroadcast {
    /// The status the device reports to be in.
    pub status: WirelessDeviceStatus,
    /// The request the devices expresses towards the host.
    pub request: WirelessDeviceStatusRequest,
    /// The reason for the status broadcast.
    pub reason: WirelessDeviceStatusReason,
}

/// Represents a device status as reported in
/// [`WirelessDeviceStatusBroadcast::status`].
#[derive(Clone, Copy, PartialEq, Eq, Structural, Hash, Debug)]
#[non_exhaustive]
pub enum WirelessDeviceStatus {
    Unknown,
    Reconnection,
}

impl WirelessDeviceStatus {
    /// The byte that stands for the status on the wire.
    pub open spec fn code(self) -> u8 {
        match self {
            WirelessDeviceStatus::Unknown => 0x00,
            WirelessDeviceStatus::Reconnection => 0x01,
        }
    }

    /// The status that a byte stands for, if any.
    pub open spec fn from_code(value: u8) -> Option<Self> {
        match value {
            0x00 => Some(WirelessDeviceStatus::Unknown),
            0x01 => Some(WirelessDeviceStatus::Reconnection),
            _ => None,
        }
    }
}

impl From<WirelessDeviceStatus> for u8 {
    fn from(value: WirelessDeviceStatus) -> (r: u8) {
        match value {
            WirelessDeviceStatus::Unknown => 0x00,
            WirelessDeviceStatus::Reconnection => 0x01,
        }
    }
}

impl FromSpecImpl<WirelessDeviceStatus> for u8 {
    open spec fn obeys_from_spec() -> bool {
        true
    }

    open spec fn from_spec(value: WirelessDeviceStatus) -> u8 {
        value.code()
    }
}

impl TryFrom<u8> for WirelessDeviceStatus {
    type Error = TryFromPrimitiveError;

    fn try_from(value: u8) -> (r: Result<Self, TryFromPrimitiveError>) {
        match value {
            0x00 => Ok(WirelessDeviceStatus::Unknown),
            0x01 => Ok(WirelessDeviceStatus::Reconnection),
            _ => Err(TryFromPrimitiveError { number: value }),
        }
    }
}

impl TryFromSpecImpl<u8> for WirelessDeviceStatus {
    open spec fn obeys_try_from_spec() -> bool {
        true
    }

    open spec fn try_from_spec(value: u8) -> Result<Self, TryFromPrimitiveError> {
        match Self::from_code(value) {
            Some(v) => Ok(v),
            None => Err(TryFromPrimitiveError { number: value }),
        }
    }
}

/// Represents a request as reported in
/// [`WirelessDeviceStatusBroadcast::request`].
#[derive(Clone, Copy, PartialEq, Eq, Structural, Hash, Debug)]
#[non_exhaustive]
pub enum WirelessDeviceStatusRequest {
    NoRequest,
    SoftwareReconfigurationNeeded,
}

impl WirelessDeviceStatusRequest {
    /// The byte that stands for the request on the wire.
    pub open spec fn code(self) -> u8 {
        match self {
            WirelessDeviceStatusRequest::NoRequest => 0x00,
            WirelessDeviceStatusRequest::SoftwareReconfigurationNeeded => 0x01,
        }
    }

    /// The request that a byte stands for, if any.
    pub open spec fn from_code(value: u8) -> Option<Self> {
        match value {
            0x00 => Some(WirelessDeviceStatusRequest::NoRequest),
            0x01 => Some(WirelessDeviceStatusRequest::SoftwareReconfigurationNeeded),
            _ => None,
        }
    }
}

impl From<WirelessDeviceStatusRequest> for u8 {
    fn from(value: WirelessDeviceStatusRequest) -> (r: u8) {
        match value {
            WirelessDeviceStatusRequest::NoRequest => 0x00,
            WirelessDeviceStatusRequest::SoftwareReconfigurationNeeded => 0x01,
        }
    }
}

impl FromSpecImpl<WirelessDeviceStatusRequest> for u8 {
    open spec fn obeys_from_spec() -> bool {
        true
    }

    open spec fn from_spec(value: WirelessDeviceStatusRequest) -> u8 {
        value.code()
    }
}

impl TryFrom<u8> for WirelessDeviceStatusRequest {
    type Error = TryFromPrimitiveError;

    fn try_from(value: u8) -> (r: Result<Self, TryFromPrimitiveError>) {
        match value {
            0x00 => Ok(WirelessDeviceStatusRequest::NoRequest),
            0x01 => Ok(WirelessDeviceStatusRequest::SoftwareReconfigurationNeeded),
            _ => Err(TryFromPrimitiveError { number: value }),
        }
    }
}

impl TryFromSpecImpl<u8> for WirelessDeviceStatusRequest {
    open spec fn obeys_try_from_spec() -> bool {
        true
    }

    open spec fn try_from_spec(value: u8) -> Result<Self, TryFromPrimitiveError> {
        match Self::from_code(value) {
            Some(v) => Ok(v),
            None => Err(TryFromPrimitiveError { number: value }),
        }
    }
}

/// Represents a broadcast reason as reported in
/// [`WirelessDeviceStatusBroadcast::reason`].
#[derive(Clone, Copy, PartialEq, Eq, Structural, Hash, Debug)]
#[non_exhaustive]
pub enum WirelessDeviceStatusReason {
    Unknown,
    PowerSwitchActivated,
}

impl WirelessDeviceStatusReason {
    /// The byte that stands for the reason on the wire.
    pub open spec fn code(self) -> u8 {
        match self {
            WirelessDeviceStatusReason::Unknown => 0x00,
            WirelessDeviceStatusReason::PowerSwitchActivated => 0x01,
        }
    }

    /// The reason that a byte stands for, if any.
    pub open spec fn from_code(value: u8) -> Option<Self> {
        match value {
            0x00 => Some(WirelessDeviceStatusReason::Unknown),
            0x01 => Some(WirelessDeviceStatusReason::PowerSwitchActivated),
            _ => None,
        }
    }
}

impl From<WirelessDeviceStatusReason> for u8 {
    fn from(value: WirelessDeviceStatusReason) -> (r: u8) {
        match value {
            WirelessDeviceStatusReason::Unknown => 0x00,
            WirelessDeviceStatusReason::PowerSwitchActivated => 0x01,
        }
    }
}

impl FromSpecImpl<WirelessDeviceStatusReason> for u8 {
    open spec fn obeys_from_spec() -> bool {
        true
    }

    open spec fn from_spec(value: WirelessDeviceStatusReason) -> u8 {
        value.code()
    }
}

impl TryFrom<u8> for WirelessDeviceStatusReason {
    type Error = TryFromPrimitiveError;

    fn try_from(value: u8) -> (r: Result<Self, TryFromPrimitiveError>) {
        match value {
            0x00 => Ok(WirelessDeviceStatusReason::Unknown),
            0x01 => Ok(WirelessDeviceStatusReason::PowerSwitchActivated),
            _ => Err(TryFromPrimitiveError { number: value }),
        }
    }
}

impl TryFromSpecImpl<u8> for WirelessDeviceStatusReason {
    open spec fn obeys_try_from_spec() -> bool {
        true
    }

    open spec fn try_from_spec(value: u8) -> Result<Self, TryFromPrimitiveError> {
        match Self::from_code(value) {
            Some(v) => Ok(v),
            None => Err(TryFromPrimitiveError { number: value }),
        }
    }
}

impl WirelessDeviceStatusFeature {
    /// The event that an incoming message stands for.
    ///
    /// A notification of this feature is a message that answered no request,
    /// comes from the device and the feature of this instance and has the
    /// function ID `0` and the software ID `0`.
    /// Its first three bytes stand for the status, the request and the
    /// reason. A byte that stands for none makes the message no event.
    pub open spec fn spec_decode_event(&self, raw: HidppMessage, matched: bool) -> Option<
        WirelessDeviceStatusEvent,
    > {
        let msg = v20::Message::spec_from_hidpp(raw);
        let header = msg.spec_header();
        let payload = msg.spec_extend_payload();
        if matched || header.device_index != self.device_index || header.feature_index
            != self.feature_index || header.software_id.value() != 0
            || header.function_id.value() != 0 {
            None
        } else {
            match (
                WirelessDeviceStatus::from_code(payload[0]),
                WirelessDeviceStatusRequest::from_code(payload[1]),
                WirelessDeviceStatusReason::from_code(payload[2]),
            ) {
                (Some(status), Some(request), Some(reason)) => Some(
                    WirelessDeviceStatusEvent::StatusBroadcast(
                        WirelessDeviceStatusBroadcast { status, request, reason },
                    ),
                ),
                _ => None,
            }
        }
    }
}

impl EmittingFeature<WirelessDeviceStatusEvent> for WirelessDeviceStatusFeature {
    fn msg_listener_hdl(&self) -> (r: u32)
        ensures
            r == self.msg_listener_hdl,
    {
        self.msg_listener_hdl
    }

    fn decode_event(&self, raw: HidppMessage, matched: bool) -> (r: Option<WirelessDeviceStatusEvent>)
        ensures
            r == self.spec_decode_event(raw, matched),
    {
        if matched {
            return None;
        }
        let msg = v20::Message::from(raw);

        let header = msg.header();
        if header.device_index != self.device_index || header.feature_index != self.feature_index
            || header.software_id.to_lo() != 0 || header.function_id.to_lo() != 0 {
            return None;
        }
        let payload = msg.extend_payload();

        let status = match WirelessDeviceStatus::try_from(payload[0]) {
            Ok(status) => status,
            Err(_) => {
                return None;
            },
        };
        let request = match WirelessDeviceStatusRequest::try_from(payload[1]) {
            Ok(request) => request,
            Err(_) => {
                return None;
            },
        };
        let reason = match WirelessDeviceStatusReason::try_from(payload[2]) {
            Ok(reason) => reason,
            Err(_) => {
                return None;
            },
        };
        Some(
            WirelessDeviceStatusEvent::StatusBroadcast(
                WirelessDeviceStatusBroadcast { status, request, reason },
            ),
        )
    }
}

} // verus!
