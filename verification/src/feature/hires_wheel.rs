//! Implements the `HiResWheel` feature (ID `0x2121`) that controls the
//! high-resolution scroll wheel.

use vstd::prelude::*;
use vstd::std_specs::convert::FromSpecImpl;
use vstd::std_specs::convert::TryFromSpecImpl;
use crate::channel::HidppChannel;
use crate::channel::HidppMessage;
use crate::feature::CreatableFeature;
use crate::feature::Feature;
use crate::primitive::TryFromPrimitiveError;
use crate::protocol::v20;
use crate::protocol::v20::Hidpp20Error;
use crate::feature::EmittingFeature;
use crate::nibble::U4;
use crate::primitive::i16_from_be_bytes;
use crate::primitive::spec_i16_from_bytes;

verus! {

/// Implements the `HiResWheel` / `0x2121` feature.
///
/// The first version supported by this feature is v0.
///
/// The analytics part of the feature is not implemented here as its data
/// structure lacks any documentation.
#[derive(Clone, Copy, PartialEq, Eq, Structural, Hash, Debug)]
pub struct HiResWheelFeatureV0 {
    /// The index of the device to implement the feature for.
    pub device_index: u8,
    /// The index of the feature in the feature table.
    pub feature_index: u8,
    /// The handle assigned to the message listener that was registered with
    /// the channel. This is used to remove the listener when the feature is
    /// released.
    pub msg_listener_hdl: u32,
}

impl Feature for HiResWheelFeatureV0 {

}

impl CreatableFeature for HiResWheelFeatureV0 {
    const ID: u16 = 0x2121;

    const STARTING_VERSION: u8 = 0;

    open spec fn spec_listener(&self) -> Option<u32> {
        Some(self.msg_listener_hdl)
    }

    fn new<S>(chan: &mut HidppChannel<S>, device_index: u8, feature_index: u8) -> (r: Self)
        ensures
            r.device_index == device_index,
            r.feature_index == feature_index,
    {
        let hdl = chan.add_msg_listener();
        Self { device_index, feature_index, msg_listener_hdl: hdl }
    }
}

impl HiResWheelFeatureV0 {
    /// Releases the feature: removes its message listener from the channel,
    /// and changes nothing else.
    ///
    /// Returns whether the listener was still registered.
    pub fn release<S>(&self, chan: &mut HidppChannel<S>) -> (r: bool)
        ensures
            r == old(chan)@.message_listeners.contains(self.msg_listener_hdl),
            final(chan)@ == old(chan)@.without_listener(self.msg_listener_hdl),
            old(chan).wf() ==> final(chan).wf() && !final(chan)@.message_listeners.contains(
                self.msg_listener_hdl,
            ),
    {
        chan.remove_msg_listener(self.msg_listener_hdl)
    }
}

/// Represents the capabilities of the hi-res wheel and this feature as reported
/// by [`HiResWheelFeatureV0::get_wheel_capabilities`].
#[derive(Clone, Copy, PartialEq, Eq, Structural, Hash, Debug)]
pub struct WheelCapabilities {
    /// The report multiplier for the high-resolution mode. A single ratchet
    /// distance will produce this amount of wheel movement reports in hi-res
    /// mode.
    pub multiplier: u8,
    /// Whether the device supports inverting the scrolling direction when in
    /// native HID reporting mode.
    ///
    /// Inverting is never supported in diverted HID++ mode.
    pub has_invert: bool,
    /// Whether the device has a switch to control the ratchet mode.
    pub has_switch: bool,
    /// The amount of ratches that would be generated by a whole rotation of the
    /// scroll wheel.
    pub ratches_per_rotation: u8,
    /// The nominal wheel diameter in millimeters.
    pub wheel_diameter: u8,
}

/// Represents the wheel mode as reported by
/// [`HiResWheelFeatureV0::get_wheel_mode`].
#[derive(Clone, Copy, PartialEq, Eq, Structural, Hash, Debug)]
pub struct WheelMode {
    /// Whether the scrolling direction is inverted.
    /// Only applies when in native HID mode.
    pub inverted: bool,
    /// The current scrolling resolution.
    pub resolution: WheelResolution,
    /// The target of wheel movement reports (native or diverted).
    pub target: WheelEventTarget,
}

/// Represents the resolution of the hi-res wheel.
#[derive(Clone, Copy, PartialEq, Eq, Structural, Hash, Debug)]
#[non_exhaustive]
pub enum WheelResolution {
    Low,
    High,
}

impl WheelResolution {
    /// The bit that stands for the resolution on the wire.
    pub open spec fn code(self) -> u8 {
        match self {
            WheelResolution::Low => 0x00,
            WheelResolution::High => 0x01,
        }
    }

    /// The resolution that a number stands for, if any.
    pub open spec fn from_code(value: u8) -> Option<Self> {
        match value {
            0x00 => Some(WheelResolution::Low),
            0x01 => Some(WheelResolution::High),
            _ => None,
        }
    }
}

impl From<WheelResolution> for u8 {
    fn from(value: WheelResolution) -> (r: u8) {
        match value {
            WheelResolution::Low => 0x00,
            WheelResolution::High => 0x01,
        }
    }
}

impl FromSpecImpl<WheelResolution> for u8 {
    open spec fn obeys_from_spec() -> bool {
        true
    }

    open spec fn from_spec(value: WheelResolution) -> u8 {
        value.code()
    }
}

impl TryFrom<u8> for WheelResolution {
    type Error = TryFromPrimitiveError;

    fn try_from(value: u8) -> (r: Result<Self, TryFromPrimitiveError>) {
        match value {
            0x00 => Ok(WheelResolution::Low),
            0x01 => Ok(WheelResolution::High),
            _ => Err(TryFromPrimitiveError { number: value }),
        }
    }
}

impl TryFromSpecImpl<u8> for WheelResolution {
    open spec fn obeys_try_from_spec() -> bool {
        true
    }

    open spec fn try_from_spec(value: u8) -> Result<Self, TryFromPrimitiveError> {
        match Self::from_code(value) {
            Some(v) => Ok(v),
            None => Err(TryFromPrimitiveError { number: value }),
        }
    }
}

/// Represents the target of wheel movement reports.
#[derive(Clone, Copy, PartialEq, Eq, Structural, Hash, Debug)]
#[non_exhaustive]
pub enum WheelEventTarget {
    Native,
    Diverted,
}

impl WheelEventTarget {
    /// The bit that stands for the target on the wire.
    pub open spec fn code(self) -> u8 {
        match self {
            WheelEventTarget::Native => 0x00,
            WheelEventTarget::Diverted => 0x01,
        }
    }

    /// The target that a number stands for, if any.
    pub open spec fn from_code(value: u8) -> Option<Self> {
        match value {
            0x00 => Some(WheelEventTarget::Native),
            0x01 => Some(WheelEventTarget::Diverted),
            _ => None,
        }
    }
}

impl From<WheelEventTarget> for u8 {
    fn from(value: WheelEventTarget) -> (r: u8) {
        match value {
            WheelEventTarget::Native => 0x00,
            WheelEventTarget::Diverted => 0x01,
        }
    }
}

impl FromSpecImpl<WheelEventTarget> for u8 {
    open spec fn obeys_from_spec() -> bool {
        true
    }

    open spec fn from_spec(value: WheelEventTarget) -> u8 {
        value.code()
    }
}

impl TryFrom<u8> for WheelEventTarget {
    type Error = TryFromPrimitiveError;

    fn try_from(value: u8) -> (r: Result<Self, TryFromPrimitiveError>) {
        match value {
            0x00 => Ok(WheelEventTarget::Native),
            0x01 => Ok(WheelEventTarget::Diverted),
            _ => Err(TryFromPrimitiveError { number: value }),
        }
    }
}

impl TryFromSpecImpl<u8> for WheelEventTarget {
    open spec fn obeys_try_from_spec() -> bool {
        true
    }

    open spec fn try_from_spec(value: u8) -> Result<Self, TryFromPrimitiveError> {
        match Self::from_code(value) {
            Some(v) => Ok(v),
            None => Err(TryFromPrimitiveError { number: value }),
        }
    }
}

/// Represents the state of the wheel ratchet.
#[derive(Clone, Copy, PartialEq, Eq, Structural, Hash, Debug)]
#[non_exhaustive]
pub enum WheelRatchetState {
    Freespin,
    Ratchet,
}

impl WheelRatchetState {
    /// The bit that stands for the state on the wire.
    pub open spec fn code(self) -> u8 {
        match self {
            WheelRatchetState::Freespin => 0x00,
            WheelRatchetState::Ratchet => 0x01,
        }
    }

    /// The state that a number stands for, if any.
    pub open spec fn from_code(value: u8) -> Option<Self> {
        match value {
            0x00 => Some(WheelRatchetState::Freespin),
            0x01 => Some(WheelRatchetState::Ratchet),
            _ => None,
        }
    }
}

impl From<WheelRatchetState> for u8 {
    fn from(value: WheelRatchetState) -> (r: u8) {
        match value {
            WheelRatchetState::Freespin => 0x00,
            WheelRatchetState::Ratchet => 0x01,
        }
    }
}

impl FromSpecImpl<WheelRatchetState> for u8 {
    open spec fn obeys_from_spec() -> bool {
        true
    }

    open spec fn from_spec(value: WheelRatchetState) -> u8 {
        value.code()
    }
}

impl TryFrom<u8> for WheelRatchetState {
    type Error = TryFromPrimitiveError;

    fn try_from(value: u8) -> (r: Result<Self, TryFromPrimitiveError>) {
        match value {
            0x00 => Ok(WheelRatchetState::Freespin),
            0x01 => Ok(WheelRatchetState::Ratchet),
            _ => Err(TryFromPrimitiveError { number: value }),
        }
    }
}

impl TryFromSpecImpl<u8> for WheelRatchetState {
    open spec fn obeys_try_from_spec() -> bool {
        true
    }

    open spec fn try_from_spec(value: u8) -> Result<Self, TryFromPrimitiveError> {
        match Self::from_code(value) {
            Some(v) => Ok(v),
            None => Err(TryFromPrimitiveError { number: value }),
        }
    }
}

/// Represents an event emitted by the [`HiResWheelFeatureV0`] feature.
#[derive(Clone, Copy, PartialEq, Eq, Structural, Hash, Debug)]
#[non_exhaustive]
pub enum HiResWheelEvent {
    /// Is emitted whenever the scroll wheel is moved in diverted HID++ mode.
    WheelMovement(WheelMovementData),
    /// Is emitted whenever the wheel ratchet mode is changed.
    ///
    /// This event is always enabled.
    RatchetSwitch(WheelRatchetState),
}

/// Represents the data of the [`HiResWheelEvent::WheelMovement`] event.
#[derive(Clone, Copy, PartialEq, Eq, Structural, Hash, Debug)]
pub struct WheelMovementData {
    /// The current resolution of the wheel.
    pub resolution: WheelResolution,
    /// The amount of sampling periods for this event. Maxes at 15.
    pub periods: U4,
    /// The vertical movement delta. Moving away from the user produces positive
    /// values.
    pub delta_vertical: i16,
}

/// The wheel mode that a mode byte stands for: the inversion in bit 2, the
/// resolution in bit 1 and the target in bit 0.
pub open spec fn spec_wheel_mode(raw: u8) -> Option<WheelMode> {
    match (WheelResolution::from_code((raw & 0x02) >> 1), WheelEventTarget::from_code(raw & 0x01)) {
        (Some(resolution), Some(target)) => Some(
            WheelMode { inverted: raw & 0x04 != 0, resolution, target },
        ),
        _ => None,
    }
}

/// The mode byte that stands for a wheel mode.
pub open spec fn spec_wheel_mode_byte(
    target: WheelEventTarget,
    resolution: WheelResolution,
    inverted: bool,
) -> u8 {
    ((if inverted { 4int } else { 0 }) + resolution.code() * 2 + target.code()) as u8
}

/// Reads a wheel mode from a mode byte.
fn wheel_mode(raw: u8) -> (r: Result<WheelMode, Hidpp20Error>)
    ensures
        r == match spec_wheel_mode(raw) {
            Some(mode) => Ok::<WheelMode, Hidpp20Error>(mode),
            None => Err(Hidpp20Error::UnsupportedResponse),
        },
        r is Ok,
{
    assert((raw & 0x02) >> 1 <= 1 && raw & 0x01 <= 1) by (bit_vector);
    match WheelResolution::try_from((raw & 0x02) >> 1) {
        Ok(resolution) => match WheelEventTarget::try_from(raw & 0x01) {
            Ok(target) => Ok(WheelMode { inverted: raw & 0x04 != 0, resolution, target }),
            Err(_) => Err(Hidpp20Error::UnsupportedResponse),
        },
        Err(_) => Err(Hidpp20Error::UnsupportedResponse),
    }
}

/// A mode byte stands for the wheel mode that it was made of.
pub proof fn lemma_wheel_mode_round_trip(
    target: WheelEventTarget,
    resolution: WheelResolution,
    inverted: bool,
)
    ensures
        spec_wheel_mode(spec_wheel_mode_byte(target, resolution, inverted)) == Some(
            WheelMode { inverted, resolution, target },
        ),
{
    let raw = spec_wheel_mode_byte(target, resolution, inverted);
    assert(raw < 8 ==> (raw & 0x02) >> 1 == (raw / 2) % 2 && raw & 0x01 == raw % 2 && ((raw & 0x04
        != 0) <==> raw >= 4)) by (bit_vector);
}

/// What the response to a capabilities request tells.
pub open spec fn spec_get_wheel_capabilities_reply(response: HidppMessage) -> Result<WheelCapabilities, Hidpp20Error> {
    match v20::spec_reply_payload(response) {
        Ok(payload) => Ok(
            WheelCapabilities {
                multiplier: payload[0],
                has_invert: payload[1] & 0x08 != 0,
                has_switch: payload[1] & 0x04 != 0,
                ratches_per_rotation: payload[2],
                wheel_diameter: payload[3],
            },
        ),
        Err(e) => Err(e),
    }
}

/// What the response to a mode request or to a change of the mode tells: the
/// wheel mode that the first byte stands for.
pub open spec fn spec_wheel_mode_reply(response: HidppMessage) -> Result<WheelMode, Hidpp20Error> {
    match v20::spec_reply_payload(response) {
        Ok(payload) => match spec_wheel_mode(payload[0]) {
            Some(mode) => Ok(mode),
            None => Err(Hidpp20Error::UnsupportedResponse),
        },
        Err(e) => Err(e),
    }
}

/// What the response to a ratchet request tells: the state in bit 0 of the
/// first byte.
pub open spec fn spec_get_ratchet_switch_state_reply(response: HidppMessage) -> Result<WheelRatchetState, Hidpp20Error> {
    match v20::spec_reply_payload(response) {
        Ok(payload) => match WheelRatchetState::from_code(payload[0] & 0x01) {
            Some(state) => Ok(state),
            None => Err(Hidpp20Error::UnsupportedResponse),
        },
        Err(e) => Err(e),
    }
}

impl HiResWheelFeatureV0 {
    /// The event that an incoming message stands for.
    ///
    /// A notification of this feature is a message that answered no request,
    /// comes from the device and the feature of this instance and has the
    /// software ID `0`. The function `0` reports a wheel movement: the
    /// resolution in bit 4 and the sampling periods in the low half of the
    /// first byte, then the vertical delta as a signed number. The function
    /// `1` reports the ratchet state in bit 0 of the first byte.
    pub open spec fn spec_decode_event(&self, raw: HidppMessage, matched: bool) -> Option<
        HiResWheelEvent,
    > {
        let msg = v20::Message::spec_from_hidpp(raw);
        let header = msg.spec_header();
        let payload = msg.spec_extend_payload();
        if matched || header.device_index != self.device_index || header.feature_index
            != self.feature_index || header.software_id.value() != 0 {
            None
        } else if header.function_id.value() == 0 {
            match WheelResolution::from_code((payload[0] & 0x10) >> 4) {
                Some(resolution) => Some(
                    HiResWheelEvent::WheelMovement(
                        WheelMovementData {
                            resolution,
                            periods: U4::spec_from_lo(payload[0]),
                            delta_vertical: spec_i16_from_bytes(payload[1], payload[2]),
                        },
                    ),
                ),
                None => None,
            }
        } else if header.function_id.value() == 1 {
            match WheelRatchetState::from_code(payload[0] & 0x01) {
                Some(state) => Some(HiResWheelEvent::RatchetSwitch(state)),
                None => None,
            }
        } else {
            None
        }
    }

    /// Starts to retrieve the capabilities of the hi-res wheel and this feature.
    /// [`Self::get_wheel_capabilities_reply`] reads the response.
    pub fn get_wheel_capabilities<S>(&self, chan: &mut HidppChannel<S>, sender: S) -> (r: Result<
        Vec<u8>,
        Hidpp20Error,
    >)
        ensures
            v20::spec_function_called(
                old(chan)@,
                final(chan)@,
                v20::Message::Short(
                    v20::spec_request_header(self.device_index, self.feature_index, 0, old(chan)@.fresh_sw_id()),
                    [0x00, 0x00, 0x00],
                ),
                sender,
                r,
            ),
            old(chan).wf() ==> final(chan).wf(),
    {
        chan.call_short(self.device_index, self.feature_index, 0, [0x00, 0x00, 0x00], sender)
    }

    /// Reads the response to [`Self::get_wheel_capabilities`].
    pub fn get_wheel_capabilities_reply(response: HidppMessage) -> (r: Result<WheelCapabilities, Hidpp20Error>)
        ensures
            r == spec_get_wheel_capabilities_reply(response),
    {
        let payload = v20::reply_payload(response)?;
        Ok(
            WheelCapabilities {
                multiplier: payload[0],
                has_invert: payload[1] & 0x08 != 0,
                has_switch: payload[1] & 0x04 != 0,
                ratches_per_rotation: payload[2],
                wheel_diameter: payload[3],
            },
        )
    }

    /// Starts to retrieve the current mode of the hi-res wheel.
    /// [`Self::get_wheel_mode_reply`] reads the response.
    pub fn get_wheel_mode<S>(&self, chan: &mut HidppChannel<S>, sender: S) -> (r: Result<
        Vec<u8>,
        Hidpp20Error,
    >)
        ensures
            v20::spec_function_called(
                old(chan)@,
                final(chan)@,
                v20::Message::Short(
                    v20::spec_request_header(self.device_index, self.feature_index, 1, old(chan)@.fresh_sw_id()),
                    [0x00, 0x00, 0x00],
                ),
                sender,
                r,
            ),
            old(chan).wf() ==> final(chan).wf(),
    {
        chan.call_short(self.device_index, self.feature_index, 1, [0x00, 0x00, 0x00], sender)
    }

    /// Reads the response to [`Self::get_wheel_mode`].
    pub fn get_wheel_mode_reply(response: HidppMessage) -> (r: Result<WheelMode, Hidpp20Error>)
        ensures
            r == spec_wheel_mode_reply(response),
    {
        let payload = v20::reply_payload(response)?;
        wheel_mode(payload[0])
    }

    /// Starts to set the mode of the hi-res wheel.
    /// [`Self::set_wheel_mode_reply`] reads the response.
    ///
    /// Setting the bit to control analytics collection is not supported in this
    /// feature implementation as the analytics data structure is completely
    /// undocumented.
    pub fn set_wheel_mode<S>(&self, chan: &mut HidppChannel<S>, target: WheelEventTarget, resolution: WheelResolution, inverted: bool, sender: S) -> (r: Result<
        Vec<u8>,
        Hidpp20Error,
    >)
        ensures
            v20::spec_function_called(
                old(chan)@,
                final(chan)@,
                v20::Message::Short(
                    v20::spec_request_header(self.device_index, self.feature_index, 2, old(chan)@.fresh_sw_id()),
                    [spec_wheel_mode_byte(target, resolution, inverted), 0x00, 0x00],
                ),
                sender,
                r,
            ),
            old(chan).wf() ==> final(chan).wf(),
    {
        let mut mode_byte: u8 = 0;
        if inverted {
            mode_byte += 4;
        }
        mode_byte += u8::from(resolution) * 2;
        mode_byte += u8::from(target);
        chan.call_short(self.device_index, self.feature_index, 2, [mode_byte, 0x00, 0x00], sender)
    }

    /// Reads the response to [`Self::set_wheel_mode`]: the mode that the wheel
    /// has now.
    pub fn set_wheel_mode_reply(response: HidppMessage) -> (r: Result<WheelMode, Hidpp20Error>)
        ensures
            r == spec_wheel_mode_reply(response),
    {
        let payload = v20::reply_payload(response)?;
        wheel_mode(payload[0])
    }

    /// Starts to retrieve the current state of the ratchet switch.
    /// [`Self::get_ratchet_switch_state_reply`] reads the response.
    pub fn get_ratchet_switch_state<S>(&self, chan: &mut HidppChannel<S>, sender: S) -> (r: Result<
        Vec<u8>,
        Hidpp20Error,
    >)
        ensures
            v20::spec_function_called(
                old(chan)@,
                final(chan)@,
                v20::Message::Short(
                    v20::spec_request_header(self.device_index, self.feature_index, 3, old(chan)@.fresh_sw_id()),
                    [0x00, 0x00, 0x00],
                ),
                sender,
                r,
            ),
            old(chan).wf() ==> final(chan).wf(),
    {
        chan.call_short(self.device_index, self.feature_index, 3, [0x00, 0x00, 0x00], sender)
    }

    /// Reads the response to [`Self::get_ratchet_switch_state`].
    pub fn get_ratchet_switch_state_reply(response: HidppMessage) -> (r: Result<WheelRatchetState, Hidpp20Error>)
        ensures
            r == spec_get_ratchet_switch_state_reply(response),
    {
        let payload = v20::reply_payload(response)?;
        match WheelRatchetState::try_from(payload[0] & 0x01) {
            Ok(state) => Ok(state),
            Err(_) => Err(Hidpp20Error::UnsupportedResponse),
        }
    }
}

impl EmittingFeature<HiResWheelEvent> for HiResWheelFeatureV0 {
    fn msg_listener_hdl(&self) -> (r: u32)
        ensures
            r == self.msg_listener_hdl,
    {
        self.msg_listener_hdl
    }

    fn decode_event(&self, raw: HidppMessage, matched: bool) -> (r: Option<HiResWheelEvent>)
        ensures
            r == self.spec_decode_event(raw, matched),
    {
        if matched {
            return None;
        }
        let msg = v20::Message::from(raw);

        let header = msg.header();
        if header.device_index != self.device_index || header.feature_index != self.feature_index
            || header.software_id.to_lo() != 0 {
            return None;
        }
        let payload = msg.extend_payload();

        match header.function_id.to_lo() {
            0 => match WheelResolution::try_from((payload[0] & 0x10) >> 4) {
                Ok(resolution) => Some(
                    HiResWheelEvent::WheelMovement(
                        WheelMovementData {
                            resolution,
                            periods: U4::from_lo(payload[0]),
                            delta_vertical: i16_from_be_bytes(payload[1], payload[2]),
                        },
                    ),
                ),
                Err(_) => None,
            },
            1 => match WheelRatchetState::try_from(payload[0] & 0x01) {
                Ok(state) => Some(HiResWheelEvent::RatchetSwitch(state)),
                Err(_) => None,
            },
            _ => None,
        }
    }
}

} // verus!
