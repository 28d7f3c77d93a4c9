//! Implements the `SmartShift` feature (ID `0x2110`) that controls the
//! ratchet of the scroll wheel.

use vstd::prelude::*;
use vstd::std_specs::convert::FromSpecImpl;
use vstd::std_specs::convert::TryFromSpecImpl;
use crate::channel::HidppChannel;
use crate::channel::HidppMessage;
use crate::feature::CreatableFeature;
use crate::feature::Feature;
use crate::primitive::TryFromPrimitiveError;
use crate::protocol::v20;
use crate::protocol::v20::Hidpp20Error;

verus! {

/// Implements the `SmartShift` / `0x2110` feature.
///
/// The first version supported by this feature is v0.
#[derive(Clone, Copy, PartialEq, Eq, Structural, Hash, Debug)]
pub struct SmartShiftFeatureV0 {
    /// The index of the device to implement the feature for.
    pub device_index: u8,
    /// The index of the feature in the feature table.
    pub feature_index: u8,
}

impl Feature for SmartShiftFeatureV0 {

}

impl CreatableFeature for SmartShiftFeatureV0 {
    const ID: u16 = 0x2110;

    const STARTING_VERSION: u8 = 0;

    open spec fn spec_listener(&self) -> Option<u32> {
        None
    }

    fn new<S>(chan: &mut HidppChannel<S>, device_index: u8, feature_index: u8) -> (r: Self)
        ensures
            r.device_index == device_index,
            r.feature_index == feature_index,
    {
        Self { device_index, feature_index }
    }
}

/// Represents the ratchet control mode of the mouse wheel.
#[derive(Clone, Copy, PartialEq, Eq, Structural, Hash, Debug)]
pub struct RatchetControlMode {
    /// The mode the wheel is currently set to.
    ///
    /// This does not reflect the automatic disengage state.
    pub wheel_mode: WheelMode,
    /// The amount of quarter-turns per second it takes for the wheel to
    /// automatically disengage.
    ///
    /// If this value is `0xff`, the wheel will not disengage automatically.
    pub auto_disengage: u8,
    /// The default value of [`Self::auto_disengage`].
    pub auto_disengage_default: u8,
}

/// Represents the ratchet mode of the scroll wheel.
#[derive(Clone, Copy, PartialEq, Eq, Structural, Hash, Debug)]
#[non_exhaustive]
pub enum WheelMode {
    Freespin,
    Ratchet,
}

impl WheelMode {
    /// The byte that stands for the mode on the wire.
    pub open spec fn code(self) -> u8 {
        match self {
            WheelMode::Freespin => 0x01,
            WheelMode::Ratchet => 0x02,
        }
    }

    /// The mode that a byte stands for, if any.
    pub open spec fn from_code(value: u8) -> Option<Self> {
        match value {
            0x01 => Some(WheelMode::Freespin),
            0x02 => Some(WheelMode::Ratchet),
            _ => None,
        }
    }
}

impl From<WheelMode> for u8 {
    fn from(value: WheelMode) -> (r: u8) {
        match value {
            WheelMode::Freespin => 0x01,
            WheelMode::Ratchet => 0x02,
        }
    }
}

impl FromSpecImpl<WheelMode> for u8 {
    open spec fn obeys_from_spec() -> bool {
        true
    }

    open spec fn from_spec(value: WheelMode) -> u8 {
        value.code()
    }
}

impl TryFrom<u8> for WheelMode {
    type Error = TryFromPrimitiveError;

    fn try_from(value: u8) -> (r: Result<Self, TryFromPrimitiveError>) {
        match value {
            0x01 => Ok(WheelMode::Freespin),
            0x02 => Ok(WheelMode::Ratchet),
            _ => Err(TryFromPrimitiveError { number: value }),
        }
    }
}

impl TryFromSpecImpl<u8> for WheelMode {
    open spec fn obeys_try_from_spec() -> bool {
        true
    }

    open spec fn try_from_spec(value: u8) -> Result<Self, TryFromPrimitiveError> {
        match Self::from_code(value) {
            Some(v) => Ok(v),
            None => Err(TryFromPrimitiveError { number: value }),
        }
    }
}

/// What the response to a mode request tells: the wheel mode, the rate at
/// which the wheel disengages, and the default of that rate. A byte that
/// stands for no wheel mode makes the response unsupported.
pub open spec fn spec_get_ratchet_control_mode_reply(response: HidppMessage) -> Result<RatchetControlMode, Hidpp20Error> {
    match v20::spec_reply_payload(response) {
        Ok(payload) => match WheelMode::from_code(payload[0]) {
            Some(wheel_mode) => Ok(
                RatchetControlMode {
                    wheel_mode,
                    auto_disengage: payload[1],
                    auto_disengage_default: payload[2],
                },
            ),
            None => Err(Hidpp20Error::UnsupportedResponse),
        },
        Err(e) => Err(e),
    }
}

/// The byte that asks for a wheel mode, where `0` asks for no change.
pub open spec fn spec_wheel_mode_byte(wheel_mode: Option<WheelMode>) -> u8 {
    match wheel_mode {
        Some(mode) => mode.code(),
        None => 0,
    }
}

/// The given byte, or `0` where none is given.
pub open spec fn spec_or_zero(value: Option<u8>) -> u8 {
    match value {
        Some(v) => v,
        None => 0,
    }
}

impl SmartShiftFeatureV0 {
    /// Starts to retrieve the current ratchet control mode.
    /// [`Self::get_ratchet_control_mode_reply`] reads the response.
    ///
    /// [`RatchetControlMode::wheel_mode`] will only reflect the value set
    /// either by software or the wheel mode button. It will not provide
    /// information about whether the wheel is in auto-disengaged mode.
    pub fn get_ratchet_control_mode<S>(&self, chan: &mut HidppChannel<S>, sender: S) -> (r: Result<
        Vec<u8>,
        Hidpp20Error,
    >)
        ensures
            v20::spec_function_called(
                old(chan)@,
                final(chan)@,
                v20::Message::Short(
                    v20::spec_request_header(self.device_index, self.feature_index, 0, old(chan)@.fresh_sw_id()),
                    [0x00, 0x00, 0x00],
                ),
                sender,
                r,
            ),
            old(chan).wf() ==> final(chan).wf(),
    {
        chan.call_short(self.device_index, self.feature_index, 0, [0x00, 0x00, 0x00], sender)
    }

    /// Reads the response to [`Self::get_ratchet_control_mode`].
    pub fn get_ratchet_control_mode_reply(response: HidppMessage) -> (r: Result<RatchetControlMode, Hidpp20Error>)
        ensures
            r == spec_get_ratchet_control_mode_reply(response),
    {
        let payload = v20::reply_payload(response)?;
        match WheelMode::try_from(payload[0]) {
            Ok(wheel_mode) => Ok(
                RatchetControlMode {
                    wheel_mode,
                    auto_disengage: payload[1],
                    auto_disengage_default: payload[2],
                },
            ),
            Err(_) => Err(Hidpp20Error::UnsupportedResponse),
        }
    }

    /// Starts to set the ratchet control mode.
    /// [`Self::set_ratchet_control_mode_reply`] reads the response.
    ///
    /// For `auto_disengage` (and `auto_disengage_default` respectively), the
    /// values `0x01..=0xfe` correspond to the amount of quarter-turns the wheel
    /// has to make per second for the wheel to disengage.
    /// `0xff` enables permanent ratchet mode.
    ///
    /// All values are optional and will stay as they are if provided with
    /// [`None`].
    ///
    /// For `auto_disengage` and `auto_disengange_default`, `0` will have the
    /// same effect as [`None`].
    pub fn set_ratchet_control_mode<S>(&self, chan: &mut HidppChannel<S>, wheel_mode: Option<WheelMode>, auto_disengage: Option<u8>, auto_disengage_default: Option<u8>, sender: S) -> (r: Result<
        Vec<u8>,
        Hidpp20Error,
    >)
        ensures
            v20::spec_function_called(
                old(chan)@,
                final(chan)@,
                v20::Message::Short(
                    v20::spec_request_header(self.device_index, self.feature_index, 1, old(chan)@.fresh_sw_id()),
                    [
                        spec_wheel_mode_byte(wheel_mode),
                        spec_or_zero(auto_disengage),
                        spec_or_zero(auto_disengage_default),
                    ],
                ),
                sender,
                r,
            ),
            old(chan).wf() ==> final(chan).wf(),
    {
        let mode_byte: u8 = match wheel_mode {
            Some(mode) => u8::from(mode),
            None => 0,
        };
        let disengage: u8 = match auto_disengage {
            Some(v) => v,
            None => 0,
        };
        let disengage_default: u8 = match auto_disengage_default {
            Some(v) => v,
            None => 0,
        };
        chan.call_short(self.device_index, self.feature_index, 1, [mode_byte, disengage, disengage_default], sender)
    }

    /// Reads the response to [`Self::set_ratchet_control_mode`]: nothing, or the
    /// error of the response.
    pub fn set_ratchet_control_mode_reply(response: HidppMessage) -> (r: Result<(), Hidpp20Error>)
        ensures
            r == match v20::spec_reply_payload(response) {
                Ok(_) => Ok::<(), Hidpp20Error>(()),
                Err(e) => Err(e),
            },
    {
        let _ = v20::reply_payload(response)?;
        Ok(())
    }
}

} // verus!
