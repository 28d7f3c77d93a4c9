//! Implements the `Thumbwheel` feature (ID `0x2150`) that controls the
//! thumbwheel of a mouse.

use vstd::prelude::*;
use vstd::std_specs::convert::FromSpecImpl;
use vstd::std_specs::convert::TryFromSpecImpl;
use crate::channel::HidppChannel;
use crate::channel::HidppMessage;
use crate::feature::CreatableFeature;
use crate::feature::Feature;
use crate::primitive::TryFromPrimitiveError;
use crate::protocol::v20;
use crate::protocol::v20::Hidpp20Error;
use crate::feature::EmittingFeature;
use crate::primitive::i16_from_be_bytes;
use crate::primitive::spec_i16_from_bytes;
use crate::primitive::spec_u16_from_bytes;
use crate::primitive::u16_from_be_bytes;

verus! {

/// Implements the `Thumbwheel` / `0x2150` feature.
///
/// The first version supported by this feature is v0.
#[derive(Clone, Copy, PartialEq, Eq, Structural, Hash, Debug)]
pub struct ThumbwheelFeatureV0 {
    /// The index of the device to implement the feature for.
    pub device_index: u8,
    /// The index of the feature in the feature table.
    pub feature_index: u8,
    /// The handle assigned to the message listener that was registered with
    /// the channel. This is used to remove the listener when the feature is
    /// released.
    pub msg_listener_hdl: u32,
}

impl Feature for ThumbwheelFeatureV0 {

}

impl CreatableFeature for ThumbwheelFeatureV0 {
    const ID: u16 = 0x2150;

    const STARTING_VERSION: u8 = 0;

    open spec fn spec_listener(&self) -> Option<u32> {
        Some(self.msg_listener_hdl)
    }

    fn new<S>(chan: &mut HidppChannel<S>, device_index: u8, feature_index: u8) -> (r: Self)
        ensures
            r.device_index == device_index,
            r.feature_index == feature_index,
    {
        let hdl = chan.add_msg_listener();
        Self { device_index, feature_index, msg_listener_hdl: hdl }
    }
}

impl ThumbwheelFeatureV0 {
    /// Releases the feature: removes its message listener from the channel,
    /// and changes nothing else.
    ///
    /// Returns whether the listener was still registered.
    pub fn release<S>(&self, chan: &mut HidppChannel<S>) -> (r: bool)
        ensures
            r == old(chan)@.message_listeners.contains(self.msg_listener_hdl),
            final(chan)@ == old(chan)@.without_listener(self.msg_listener_hdl),
            old(chan).wf() ==> final(chan).wf() && !final(chan)@.message_listeners.contains(
                self.msg_listener_hdl,
            ),
    {
        chan.remove_msg_listener(self.msg_listener_hdl)
    }
}

/// Represents information about the thumbwheel as reported by
/// [`ThumbwheelFeatureV0::get_thumbwheel_info`].
#[derive(Clone, Copy, PartialEq, Eq, Structural, Hash, Debug)]
pub struct ThumbwheelInfo {
    /// The number of ratchets generated by revolution when in native (HID)
    /// mode.
    pub native_resolution: u16,
    /// The number of rotation increments generated by revolution when in
    /// diverted (HID++) mode
    pub diverted_resolution: u16,
    /// If [`ThumbwheelCapabilities::time_stamp`] is set, this is set to the
    /// timestamp unit used for [`ThumbwheelStatusUpdate::time_elapsed`] in
    /// microseconds. If the capability is not supported, this will always be
    /// `0`.
    pub time_unit: u16,
    /// The default rotation direction. This determines which rotation direction
    /// corresponds to which number range (positive or negative) for the
    /// [`ThumbwheelStatusUpdate::rotation`] value.
    pub default_direction: ThumbwheelDirection,
    /// The capabilites of the thumbwheel.
    pub capabilities: ThumbwheelCapabilities,
}

/// Determines which thumbwheel rotation corresponds to which number range
/// (positive or negative) for the [`ThumbwheelStatusUpdate::rotation`] value.
///
/// The direction descriptors (`LeftOrBack`, `RightOrFront`) are
/// specific to the device orientation.
#[derive(Clone, Copy, PartialEq, Eq, Structural, Hash, Debug)]
#[non_exhaustive]
pub enum ThumbwheelDirection {
    PositiveWhenLeftOrBack,
    PositiveWhenRightOrFront,
}

impl ThumbwheelDirection {
    /// The bit that stands for the direction on the wire.
    pub open spec fn code(self) -> u8 {
        match self {
            ThumbwheelDirection::PositiveWhenLeftOrBack => 0x00,
            ThumbwheelDirection::PositiveWhenRightOrFront => 0x01,
        }
    }

    /// The direction that a number stands for, if any.
    pub open spec fn from_code(value: u8) -> Option<Self> {
        match value {
            0x00 => Some(ThumbwheelDirection::PositiveWhenLeftOrBack),
            0x01 => Some(ThumbwheelDirection::PositiveWhenRightOrFront),
            _ => None,
        }
    }
}

impl From<ThumbwheelDirection> for u8 {
    fn from(value: ThumbwheelDirection) -> (r: u8) {
        match value {
            ThumbwheelDirection::PositiveWhenLeftOrBack => 0x00,
            ThumbwheelDirection::PositiveWhenRightOrFront => 0x01,
        }
    }
}

impl FromSpecImpl<ThumbwheelDirection> for u8 {
    open spec fn obeys_from_spec() -> bool {
        true
    }

    open spec fn from_spec(value: ThumbwheelDirection) -> u8 {
        value.code()
    }
}

impl TryFrom<u8> for ThumbwheelDirection {
    type Error = TryFromPrimitiveError;

    fn try_from(value: u8) -> (r: Result<Self, TryFromPrimitiveError>) {
        match value {
            0x00 => Ok(ThumbwheelDirection::PositiveWhenLeftOrBack),
            0x01 => Ok(ThumbwheelDirection::PositiveWhenRightOrFront),
            _ => Err(TryFromPrimitiveError { number: value }),
        }
    }
}

impl TryFromSpecImpl<u8> for ThumbwheelDirection {
    open spec fn obeys_try_from_spec() -> bool {
        true
    }

    open spec fn try_from_spec(value: u8) -> Result<Self, TryFromPrimitiveError> {
        match Self::from_code(value) {
            Some(v) => Ok(v),
            None => Err(TryFromPrimitiveError { number: value }),
        }
    }
}

/// Represents the capabilities the thumbwheel may support.
#[derive(Clone, Copy, PartialEq, Eq, Structural, Hash, Debug)]
pub struct ThumbwheelCapabilities {
    /// Whether the thumbwheel supports emitting the elapsed time between two
    /// events via [`ThumbwheelStatusUpdate::time_elapsed`].
    pub time_stamp: bool,
    /// Whether the thumbwheel is equipped with a touch sensor.
    ///
    /// If this capability is supported, [`ThumbwheelStatusUpdate::touch`] will
    /// be set to whether the user touches the thumbwheel.
    pub touch: bool,
    /// Whether the thumbwheel is equipped with a proximity sensor.
    ///
    /// If this capability is supported, [`ThumbwheelStatusUpdate::proxy`] will
    /// be set to whether the user is close to the thumbwheel.
    pub proxy: bool,
    /// Whether the thumbwheel supports detecting single taps.
    ///
    /// If this capability is supported, [`ThumbwheelStatusUpdate::single_tap`]
    /// will be set to whether the user tapped the thumbwheel.
    pub single_tap: bool,
}

impl ThumbwheelCapabilities {
    /// The capabilities that a byte stands for: one flag in each of its four
    /// lowest bits.
    pub open spec fn spec_from_bits(value: u8) -> ThumbwheelCapabilities {
        ThumbwheelCapabilities {
            time_stamp: value & 0x01 != 0,
            touch: value & 0x02 != 0,
            proxy: value & 0x04 != 0,
            single_tap: value & 0x08 != 0,
        }
    }
}

impl From<u8> for ThumbwheelCapabilities {
    fn from(value: u8) -> (r: ThumbwheelCapabilities) {
        ThumbwheelCapabilities {
            time_stamp: value & 0x01 != 0,
            touch: value & 0x02 != 0,
            proxy: value & 0x04 != 0,
            single_tap: value & 0x08 != 0,
        }
    }
}

impl FromSpecImpl<u8> for ThumbwheelCapabilities {
    open spec fn obeys_from_spec() -> bool {
        true
    }

    open spec fn from_spec(value: u8) -> ThumbwheelCapabilities {
        ThumbwheelCapabilities::spec_from_bits(value)
    }
}

/// Represents information about the thumbwheel status as reported by
/// [`ThumbwheelFeatureV0::get_thumbwheel_status`].
#[derive(Clone, Copy, PartialEq, Eq, Structural, Hash, Debug)]
pub struct ThumbwheelStatus {
    /// The mode how thumbwheel events are reported (native/HID or
    /// diverted/HID++).
    pub reporting_mode: ThumbwheelReportingMode,
    /// Whether the default direction as reported by
    /// [`ThumbwheelInfo::default_direction`] is inverted.
    pub direction_inverted: bool,
    /// Whether the user touches the thumbwheel.
    ///
    /// This is only set if the device supports touch detection as reported by
    /// [`ThumbwheelCapabilities::touch`].
    pub touch: bool,
    /// Whether the user is close to the thumbwheel.
    ///
    /// This is only set if the device supports proximity detection as reported
    /// by [`ThumbwheelCapabilities::proxy`].
    pub proxy: bool,
}

/// Represents the mode how the thumbwheel reports its events.
#[derive(Clone, Copy, PartialEq, Eq, Structural, Hash, Debug)]
#[non_exhaustive]
pub enum ThumbwheelReportingMode {
    /// Thumbwheel events are reported only to the native HID channel.
    Native,
    /// Thumbwheel events are reported only to the diverted HID++ channel.
    ///
    /// This mode is required for the feature to report any events.
    Diverted,
}

impl ThumbwheelReportingMode {
    /// The byte that stands for the mode on the wire.
    pub open spec fn code(self) -> u8 {
        match self {
            ThumbwheelReportingMode::Native => 0x00,
            ThumbwheelReportingMode::Diverted => 0x01,
        }
    }

    /// The mode that a byte stands for, if any.
    pub open spec fn from_code(value: u8) -> Option<Self> {
        match value {
            0x00 => Some(ThumbwheelReportingMode::Native),
            0x01 => Some(ThumbwheelReportingMode::Diverted),
            _ => None,
        }
    }
}

impl From<ThumbwheelReportingMode> for u8 {
    fn from(value: ThumbwheelReportingMode) -> (r: u8) {
        match value {
            ThumbwheelReportingMode::Native => 0x00,
            ThumbwheelReportingMode::Diverted => 0x01,
        }
    }
}

impl FromSpecImpl<ThumbwheelReportingMode> for u8 {
    open spec fn obeys_from_spec() -> bool {
        true
    }

    open spec fn from_spec(value: ThumbwheelReportingMode) -> u8 {
        value.code()
    }
}

impl TryFrom<u8> for ThumbwheelReportingMode {
    type Error = TryFromPrimitiveError;

    fn try_from(value: u8) -> (r: Result<Self, TryFromPrimitiveError>) {
        match value {
            0x00 => Ok(ThumbwheelReportingMode::Native),
            0x01 => Ok(ThumbwheelReportingMode::Diverted),
            _ => Err(TryFromPrimitiveError { number: value }),
        }
    }
}

impl TryFromSpecImpl<u8> for ThumbwheelReportingMode {
    open spec fn obeys_try_from_spec() -> bool {
        true
    }

    open spec fn try_from_spec(value: u8) -> Result<Self, TryFromPrimitiveError> {
        match Self::from_code(value) {
            Some(v) => Ok(v),
            None => Err(TryFromPrimitiveError { number: value }),
        }
    }
}

/// Represents an event emitted by the [`ThumbwheelFeatureV0`] feature.
#[derive(Clone, Copy, PartialEq, Eq, Structural, Hash, Debug)]
#[non_exhaustive]
pub enum ThumbwheelEvent {
    /// Is emitted whenever the thumbwheel status updates.
    ///
    /// Requires the thumbwheel to be in diverted reporting mode.
    StatusUpdate(ThumbwheelStatusUpdate),
}

/// Represents the data of the [`ThumbwheelEvent::StatusUpdate`] event.
#[derive(Clone, Copy, PartialEq, Eq, Structural, Hash, Debug)]
pub struct ThumbwheelStatusUpdate {
    /// The rotation in relation to [`ThumbwheelInfo::native_resolution`] or
    /// [`ThumbwheelInfo::diverted_resolution`].
    pub rotation: i16,
    /// The time elapsed since the last event.
    ///
    /// The unit of this value is reported in [`ThumbwheelInfo::time_unit`].
    ///
    /// If [`ThumbwheelCapabilities::time_stamp`] is not supported, this value
    /// will be `0`.
    pub time_elapsed: u16,
    /// The status of the current rotation.
    pub rotation_status: ThumbwheelRotationStatus,
    /// Whether the user touches the thumbwheel.
    ///
    /// This is only set if the device supports touch detection as reported by
    /// [`ThumbwheelCapabilities::touch`].
    pub touch: bool,
    /// Whether the user is close to the thumbwheel.
    ///
    /// This is only set if the device supports proximity detection as reported
    /// by [`ThumbwheelCapabilities::proxy`].
    pub proxy: bool,
    /// Whether the user single-tapped the thumbwheel.
    ///
    /// This is only set if the device supports single-tap detection as reported
    /// by [`ThumbwheelCapabilities::single_tap`].
    pub single_tap: bool,
}

/// Represents a thumbwheel rotation status as reported in
/// [`ThumbwheelStatusUpdate::rotation_status`].
#[derive(Clone, Copy, PartialEq, Eq, Structural, Hash, Debug)]
#[non_exhaustive]
pub enum ThumbwheelRotationStatus {
    /// The thumbwheel was not rotated.
    Inactive,
    /// The thumbwheel rotation was started.
    Start,
    /// The thumbwheel rotation is ongoing.
    Active,
    /// The thumbwheel was released.
    Stop,
}

impl ThumbwheelRotationStatus {
    /// The byte that stands for the status on the wire.
    pub open spec fn code(self) -> u8 {
        match self {
            ThumbwheelRotationStatus::Inactive => 0x00,
            ThumbwheelRotationStatus::Start => 0x01,
            ThumbwheelRotationStatus::Active => 0x02,
            ThumbwheelRotationStatus::Stop => 0x03,
        }
    }

    /// The status that a byte stands for, if any.
    pub open spec fn from_code(value: u8) -> Option<Self> {
        match value {
            0x00 => Some(ThumbwheelRotationStatus::Inactive),
            0x01 => Some(ThumbwheelRotationStatus::Start),
            0x02 => Some(ThumbwheelRotationStatus::Active),
            0x03 => Some(ThumbwheelRotationStatus::Stop),
            _ => None,
        }
    }
}

impl From<ThumbwheelRotationStatus> for u8 {
    fn from(value: ThumbwheelRotationStatus) -> (r: u8) {
        match value {
            ThumbwheelRotationStatus::Inactive => 0x00,
            ThumbwheelRotationStatus::Start => 0x01,
            ThumbwheelRotationStatus::Active => 0x02,
            ThumbwheelRotationStatus::Stop => 0x03,
        }
    }
}

impl FromSpecImpl<ThumbwheelRotationStatus> for u8 {
    open spec fn obeys_from_spec() -> bool {
        true
    }

    open spec fn from_spec(value: ThumbwheelRotationStatus) -> u8 {
        value.code()
    }
}

impl TryFrom<u8> for ThumbwheelRotationStatus {
    type Error = TryFromPrimitiveError;

    fn try_from(value: u8) -> (r: Result<Self, TryFromPrimitiveError>) {
        match value {
            0x00 => Ok(ThumbwheelRotationStatus::Inactive),
            0x01 => Ok(ThumbwheelRotationStatus::Start),
            0x02 => Ok(ThumbwheelRotationStatus::Active),
            0x03 => Ok(ThumbwheelRotationStatus::Stop),
            _ => Err(TryFromPrimitiveError { number: value }),
        }
    }
}

impl TryFromSpecImpl<u8> for ThumbwheelRotationStatus {
    open spec fn obeys_try_from_spec() -> bool {
        true
    }

    open spec fn try_from_spec(value: u8) -> Result<Self, TryFromPrimitiveError> {
        match Self::from_code(value) {
            Some(v) => Ok(v),
            None => Err(TryFromPrimitiveError { number: value }),
        }
    }
}

/// What the response to an info request tells: the native and the diverted
/// resolution, the direction in bit 0 of the fifth byte, the capabilities,
/// and the time unit.
pub open spec fn spec_get_thumbwheel_info_reply(response: HidppMessage) -> Result<ThumbwheelInfo, Hidpp20Error> {
    match v20::spec_reply_payload(response) {
        Ok(payload) => match ThumbwheelDirection::from_code(payload[4] & 0x01) {
            Some(default_direction) => Ok(
                ThumbwheelInfo {
                    native_resolution: spec_u16_from_bytes(payload[0], payload[1]),
                    diverted_resolution: spec_u16_from_bytes(payload[2], payload[3]),
                    time_unit: spec_u16_from_bytes(payload[6], payload[7]),
                    default_direction,
                    capabilities: ThumbwheelCapabilities::spec_from_bits(payload[5]),
                },
            ),
            None => Err(Hidpp20Error::UnsupportedResponse),
        },
        Err(e) => Err(e),
    }
}

/// What the response to a status request tells: the reporting mode, and three
/// flags in the second byte. A byte that stands for no reporting mode makes
/// the response unsupported.
pub open spec fn spec_get_thumbwheel_status_reply(response: HidppMessage) -> Result<ThumbwheelStatus, Hidpp20Error> {
    match v20::spec_reply_payload(response) {
        Ok(payload) => match ThumbwheelReportingMode::from_code(payload[0]) {
            Some(reporting_mode) => Ok(
                ThumbwheelStatus {
                    reporting_mode,
                    direction_inverted: payload[1] & 0x01 != 0,
                    touch: payload[1] & 0x02 != 0,
                    proxy: payload[1] & 0x04 != 0,
                },
            ),
            None => Err(Hidpp20Error::UnsupportedResponse),
        },
        Err(e) => Err(e),
    }
}

impl ThumbwheelFeatureV0 {
    /// The event that an incoming message stands for.
    ///
    /// A notification of this feature is a message that answered no request,
    /// comes from the device and the feature of this instance and has the
    /// function ID `0` and the software ID `0`.
    /// It carries the rotation as a signed number, the elapsed time, the
    /// rotation status and three flags. A byte that stands for no rotation
    /// status makes the message no event.
    pub open spec fn spec_decode_event(&self, raw: HidppMessage, matched: bool) -> Option<
        ThumbwheelEvent,
    > {
        let msg = v20::Message::spec_from_hidpp(raw);
        let header = msg.spec_header();
        let payload = msg.spec_extend_payload();
        if matched || header.device_index != self.device_index || header.feature_index
            != self.feature_index || header.software_id.value() != 0
            || header.function_id.value() != 0 {
            None
        } else {
            match ThumbwheelRotationStatus::from_code(payload[4]) {
                Some(rotation_status) => Some(
                    ThumbwheelEvent::StatusUpdate(
                        ThumbwheelStatusUpdate {
                            rotation: spec_i16_from_bytes(payload[0], payload[1]),
                            time_elapsed: spec_u16_from_bytes(payload[2], payload[3]),
                            rotation_status,
                            touch: payload[5] & 0x02 != 0,
                            proxy: payload[5] & 0x04 != 0,
                            single_tap: payload[5] & 0x08 != 0,
                        },
                    ),
                ),
                None => None,
            }
        }
    }

    /// Starts to retrieve some information about the thumbwheel.
    /// [`Self::get_thumbwheel_info_reply`] reads the response.
    pub fn get_thumbwheel_info<S>(&self, chan: &mut HidppChannel<S>, sender: S) -> (r: Result<
        Vec<u8>,
        Hidpp20Error,
    >)
        ensures
            v20::spec_function_called(
                old(chan)@,
                final(chan)@,
                v20::Message::Short(
                    v20::spec_request_header(self.device_index, self.feature_index, 0, old(chan)@.fresh_sw_id()),
                    [0x00, 0x00, 0x00],
                ),
                sender,
                r,
            ),
            old(chan).wf() ==> final(chan).wf(),
    {
        chan.call_short(self.device_index, self.feature_index, 0, [0x00, 0x00, 0x00], sender)
    }

    /// Reads the response to [`Self::get_thumbwheel_info`].
    pub fn get_thumbwheel_info_reply(response: HidppMessage) -> (r: Result<ThumbwheelInfo, Hidpp20Error>)
        ensures
            r == spec_get_thumbwheel_info_reply(response),
    {
        let payload = v20::reply_payload(response)?;
        let direction = payload[4];
        assert(direction & 0x01 <= 1) by (bit_vector);
        match ThumbwheelDirection::try_from(direction & 0x01) {
            Ok(default_direction) => Ok(
                ThumbwheelInfo {
                    native_resolution: u16_from_be_bytes(payload[0], payload[1]),
                    diverted_resolution: u16_from_be_bytes(payload[2], payload[3]),
                    time_unit: u16_from_be_bytes(payload[6], payload[7]),
                    default_direction,
                    capabilities: ThumbwheelCapabilities::from(payload[5]),
                },
            ),
            Err(_) => Err(Hidpp20Error::UnsupportedResponse),
        }
    }

    /// Starts to retrieve the custom status of the thumbwheel.
    /// [`Self::get_thumbwheel_status_reply`] reads the response.
    pub fn get_thumbwheel_status<S>(&self, chan: &mut HidppChannel<S>, sender: S) -> (r: Result<
        Vec<u8>,
        Hidpp20Error,
    >)
        ensures
            v20::spec_function_called(
                old(chan)@,
                final(chan)@,
                v20::Message::Short(
                    v20::spec_request_header(self.device_index, self.feature_index, 1, old(chan)@.fresh_sw_id()),
                    [0x00, 0x00, 0x00],
                ),
                sender,
                r,
            ),
            old(chan).wf() ==> final(chan).wf(),
    {
        chan.call_short(self.device_index, self.feature_index, 1, [0x00, 0x00, 0x00], sender)
    }

    /// Reads the response to [`Self::get_thumbwheel_status`].
    pub fn get_thumbwheel_status_reply(response: HidppMessage) -> (r: Result<ThumbwheelStatus, Hidpp20Error>)
        ensures
            r == spec_get_thumbwheel_status_reply(response),
    {
        let payload = v20::reply_payload(response)?;
        match ThumbwheelReportingMode::try_from(payload[0]) {
            Ok(reporting_mode) => Ok(
                ThumbwheelStatus {
                    reporting_mode,
                    direction_inverted: payload[1] & 0x01 != 0,
                    touch: payload[1] & 0x02 != 0,
                    proxy: payload[1] & 0x04 != 0,
                },
            ),
            Err(_) => Err(Hidpp20Error::UnsupportedResponse),
        }
    }

    /// Starts to set the reporting mode of the thumbwheel.
    /// [`Self::set_thumbwheel_reporting_reply`] reads the response.
    ///
    /// This can be used to divert the thumbwheel notifications to HID++.
    ///
    /// If `invert_direction` is set, the [`ThumbwheelStatusUpdate::rotation`]
    /// field will be the inverse of that would be expected if following
    /// [`ThumbwheelInfo::default_direction`].
    pub fn set_thumbwheel_reporting<S>(&self, chan: &mut HidppChannel<S>, mode: ThumbwheelReportingMode, invert_direction: bool, sender: S) -> (r: Result<
        Vec<u8>,
        Hidpp20Error,
    >)
        ensures
            v20::spec_function_called(
                old(chan)@,
                final(chan)@,
                v20::Message::Short(
                    v20::spec_request_header(self.device_index, self.feature_index, 2, old(chan)@.fresh_sw_id()),
                    [mode.code(), if invert_direction { 1u8 } else { 0u8 }, 0x00],
                ),
                sender,
                r,
            ),
            old(chan).wf() ==> final(chan).wf(),
    {
        let invert: u8 = if invert_direction {
            1
        } else {
            0
        };
        chan.call_short(self.device_index, self.feature_index, 2, [u8::from(mode), invert, 0x00], sender)
    }

    /// Reads the response to [`Self::set_thumbwheel_reporting`]: nothing, or
    /// the error of the response.
    pub fn set_thumbwheel_reporting_reply(response: HidppMessage) -> (r: Result<(), Hidpp20Error>)
        ensures
            r == match v20::spec_reply_payload(response) {
                Ok(_) => Ok::<(), Hidpp20Error>(()),
                Err(e) => Err(e),
            },
    {
        let _ = v20::reply_payload(response)?;
        Ok(())
    }
}

impl EmittingFeature<ThumbwheelEvent> for ThumbwheelFeatureV0 {
    fn msg_listener_hdl(&self) -> (r: u32)
        ensures
            r == self.msg_listener_hdl,
    {
        self.msg_listener_hdl
    }

    fn decode_event(&self, raw: HidppMessage, matched: bool) -> (r: Option<ThumbwheelEvent>)
        ensures
            r == self.spec_decode_event(raw, matched),
    {
        if matched {
            return None;
        }
        let msg = v20::Message::from(raw);

        let header = msg.header();
        if header.device_index != self.device_index || header.feature_index != self.feature_index
            || header.software_id.to_lo() != 0 || header.function_id.to_lo() != 0 {
            return None;
        }
        let payload = msg.extend_payload();

        match ThumbwheelRotationStatus::try_from(payload[4]) {
            Ok(rotation_status) => Some(
                ThumbwheelEvent::StatusUpdate(
                    ThumbwheelStatusUpdate {
                        rotation: i16_from_be_bytes(payload[0], payload[1]),
                        time_elapsed: u16_from_be_bytes(payload[2], payload[3]),
                        rotation_status,
                        touch: payload[5] & 0x02 != 0,
                        proxy: payload[5] & 0x04 != 0,
                        single_tap: payload[5] & 0x08 != 0,
                    },
                ),
            ),
            Err(_) => None,
        }
    }
}

} // verus!
