//! Implements the `UnifiedBattery` feature (ID `0x1004`) that provides
//! information about the battery status of the device.

use vstd::prelude::*;
use vstd::std_specs::convert::FromSpecImpl;
use vstd::std_specs::convert::TryFromSpecImpl;
use crate::channel::HidppChannel;
use crate::channel::HidppMessage;
use crate::feature::CreatableFeature;
use crate::feature::Feature;
use crate::primitive::TryFromPrimitiveError;
use crate::protocol::v20;
use crate::protocol::v20::Hidpp20Error;
use crate::feature::EmittingFeature;

verus! {

/// Implements the `UnifiedBattery` / `0x1004` feature.
#[derive(Clone, Copy, PartialEq, Eq, Structural, Hash, Debug)]
pub struct UnifiedBatteryFeature {
    /// The index of the device to implement the feature for.
    pub device_index: u8,
    /// The index of the feature in the feature table.
    pub feature_index: u8,
    /// The handle assigned to the message listener that was registered with
    /// the channel. This is used to remove the listener when the feature is
    /// released.
    pub msg_listener_hdl: u32,
}

impl Feature for UnifiedBatteryFeature {

}

impl CreatableFeature for UnifiedBatteryFeature {
    const ID: u16 = 0x1004;

    const STARTING_VERSION: u8 = 0;

    open spec fn spec_listener(&self) -> Option<u32> {
        Some(self.msg_listener_hdl)
    }

    fn new<S>(chan: &mut HidppChannel<S>, device_index: u8, feature_index: u8) -> (r: Self)
        ensures
            r.device_index == device_index,
            r.feature_index == feature_index,
    {
        let hdl = chan.add_msg_listener();
        Self { device_index, feature_index, msg_listener_hdl: hdl }
    }
}

impl UnifiedBatteryFeature {
    /// Releases the feature: removes its message listener from the channel,
    /// and changes nothing else.
    ///
    /// Returns whether the listener was still registered.
    pub fn release<S>(&self, chan: &mut HidppChannel<S>) -> (r: bool)
        ensures
            r == old(chan)@.message_listeners.contains(self.msg_listener_hdl),
            final(chan)@ == old(chan)@.without_listener(self.msg_listener_hdl),
            old(chan).wf() ==> final(chan).wf() && !final(chan)@.message_listeners.contains(
                self.msg_listener_hdl,
            ),
    {
        chan.remove_msg_listener(self.msg_listener_hdl)
    }
}

/// Represents the capabilites of this feature and the battery itself.
#[derive(Clone, PartialEq, Eq, Debug)]
pub struct BatteryCapabilities {
    /// All [`BatteryLevel`] variants the feature supports and reports, each of
    /// them once, from the lowest to the highest.
    pub reported_levels: Vec<BatteryLevel>,
    /// Whether the battery is rechargeable.
    pub rechargeable: bool,
    /// Whether the device supports reporting the current battery charge
    /// percentage in [`BatteryInfo::charging_percentage`].
    pub percentage: bool,
}

/// The levels whose bits are set in `raw`, from the lowest to the highest.
pub open spec fn spec_reported_levels(raw: u8) -> Seq<BatteryLevel> {
    (if raw & 0x01 != 0 { seq![BatteryLevel::Critical] } else { seq![] }) + (if raw & 0x02 != 0 {
        seq![BatteryLevel::Low]
    } else {
        seq![]
    }) + (if raw & 0x04 != 0 { seq![BatteryLevel::Good] } else { seq![] }) + (if raw & 0x08
        != 0 { seq![BatteryLevel::Full] } else { seq![] })
}

impl BatteryCapabilities {
    /// Whether these are the capabilities that the two bytes stand for: the
    /// reported levels in the four lowest bits of the first byte, and two
    /// flags in the second.
    pub open spec fn spec_is_from(&self, value: [u8; 2]) -> bool {
        &&& self.reported_levels@ == spec_reported_levels(value[0])
        &&& self.rechargeable == (value[1] & 0x01 != 0)
        &&& self.percentage == (value[1] & 0x02 != 0)
    }

    /// Reads the capabilities from the two bytes that stand for them.
    pub fn from_bytes(value: [u8; 2]) -> (r: Self)
        ensures
            r.spec_is_from(value),
            r.reported_levels@.no_duplicates(),
    {
        let mut reported_levels: Vec<BatteryLevel> = Vec::new();
        if value[0] & 0x01 != 0 {
            reported_levels.push(BatteryLevel::Critical);
        }
        if value[0] & 0x02 != 0 {
            reported_levels.push(BatteryLevel::Low);
        }
        if value[0] & 0x04 != 0 {
            reported_levels.push(BatteryLevel::Good);
        }
        if value[0] & 0x08 != 0 {
            reported_levels.push(BatteryLevel::Full);
        }
        assert(reported_levels@ =~= spec_reported_levels(value[0]));
        Self {
            reported_levels,
            rechargeable: value[1] & 0x01 != 0,
            percentage: value[1] & 0x02 != 0,
        }
    }

    /// Checks whether the feature reports the level.
    pub fn reports(&self, level: BatteryLevel) -> (r: bool)
        ensures
            r == self.reported_levels@.contains(level),
    {
        let n = self.reported_levels.len();
        let mut i: usize = 0;
        while i < n
            invariant
                i <= n,
                n == self.reported_levels@.len(),
                forall|j: int| 0 <= j < i ==> self.reported_levels@[j] != level,
            decreases n - i,
        {
            if self.reported_levels[i] == level {
                return true;
            }
            i += 1;
        }
        false
    }
}

impl From<[u8; 2]> for BatteryCapabilities {
    fn from(value: [u8; 2]) -> (r: BatteryCapabilities)
        ensures
            r.spec_is_from(value),
    {
        BatteryCapabilities::from_bytes(value)
    }
}

impl FromSpecImpl<[u8; 2]> for BatteryCapabilities {
    open spec fn obeys_from_spec() -> bool {
        false
    }

    open spec fn from_spec(value: [u8; 2]) -> BatteryCapabilities {
        arbitrary()
    }
}

/// Represents infirmation about the current battery charge.
#[derive(Clone, Copy, PartialEq, Eq, Structural, Hash, Debug)]
pub struct BatteryInfo {
    /// The current charge of the battery in percent.
    ///
    /// If [`BatteryCapabilities::percentage`] is set to `false`, this is always
    /// zero.
    pub charging_percentage: u8,
    /// The current (approximate) level of the battery.
    ///
    /// This can only reach values present in
    /// [`BatteryCapabilities::reported_levels`].
    pub level: BatteryLevel,
    /// The current charging status of the battery.
    pub status: BatteryStatus,
}

/// Represents an approximate level of the battery charge.
#[derive(Clone, Copy, PartialEq, Eq, Structural, Hash, Debug)]
#[non_exhaustive]
pub enum BatteryLevel {
    Critical,
    Low,
    Good,
    Full,
}

impl BatteryLevel {
    /// The byte that stands for the level on the wire: one bit for each level.
    pub open spec fn code(self) -> u8 {
        match self {
            BatteryLevel::Critical => 0x01,
            BatteryLevel::Low => 0x02,
            BatteryLevel::Good => 0x04,
            BatteryLevel::Full => 0x08,
        }
    }

    /// The level that a byte stands for, if any.
    pub open spec fn from_code(value: u8) -> Option<Self> {
        match value {
            0x01 => Some(BatteryLevel::Critical),
            0x02 => Some(BatteryLevel::Low),
            0x04 => Some(BatteryLevel::Good),
            0x08 => Some(BatteryLevel::Full),
            _ => None,
        }
    }
}

impl From<BatteryLevel> for u8 {
    fn from(value: BatteryLevel) -> (r: u8) {
        match value {
            BatteryLevel::Critical => 0x01,
            BatteryLevel::Low => 0x02,
            BatteryLevel::Good => 0x04,
            BatteryLevel::Full => 0x08,
        }
    }
}

impl FromSpecImpl<BatteryLevel> for u8 {
    open spec fn obeys_from_spec() -> bool {
        true
    }

    open spec fn from_spec(value: BatteryLevel) -> u8 {
        value.code()
    }
}

impl TryFrom<u8> for BatteryLevel {
    type Error = TryFromPrimitiveError;

    fn try_from(value: u8) -> (r: Result<Self, TryFromPrimitiveError>) {
        match value {
            0x01 => Ok(BatteryLevel::Critical),
            0x02 => Ok(BatteryLevel::Low),
            0x04 => Ok(BatteryLevel::Good),
            0x08 => Ok(BatteryLevel::Full),
            _ => Err(TryFromPrimitiveError { number: value }),
        }
    }
}

impl TryFromSpecImpl<u8> for BatteryLevel {
    open spec fn obeys_try_from_spec() -> bool {
        true
    }

    open spec fn try_from_spec(value: u8) -> Result<Self, TryFromPrimitiveError> {
        match Self::from_code(value) {
            Some(v) => Ok(v),
            None => Err(TryFromPrimitiveError { number: value }),
        }
    }
}

/// Represents the charging status of the battery.
#[derive(Clone, Copy, PartialEq, Eq, Structural, Hash, Debug)]
#[non_exhaustive]
pub enum BatteryStatus {
    Discharging,
    Charging,
    ChargingSlow,
    Full,
    Error,
}

impl BatteryStatus {
    /// The byte that stands for the status on the wire.
    pub open spec fn code(self) -> u8 {
        match self {
            BatteryStatus::Discharging => 0x00,
            BatteryStatus::Charging => 0x01,
            BatteryStatus::ChargingSlow => 0x02,
            BatteryStatus::Full => 0x03,
            BatteryStatus::Error => 0x04,
        }
    }

    /// The status that a byte stands for, if any.
    pub open spec fn from_code(value: u8) -> Option<Self> {
        match value {
            0x00 => Some(BatteryStatus::Discharging),
            0x01 => Some(BatteryStatus::Charging),
            0x02 => Some(BatteryStatus::ChargingSlow),
            0x03 => Some(BatteryStatus::Full),
            0x04 => Some(BatteryStatus::Error),
            _ => None,
        }
    }
}

impl From<BatteryStatus> for u8 {
    fn from(value: BatteryStatus) -> (r: u8) {
        match value {
            BatteryStatus::Discharging => 0x00,
            BatteryStatus::Charging => 0x01,
            BatteryStatus::ChargingSlow => 0x02,
            BatteryStatus::Full => 0x03,
            BatteryStatus::Error => 0x04,
        }
    }
}

impl FromSpecImpl<BatteryStatus> for u8 {
    open spec fn obeys_from_spec() -> bool {
        true
    }

    open spec fn from_spec(value: BatteryStatus) -> u8 {
        value.code()
    }
}

impl TryFrom<u8> for BatteryStatus {
    type Error = TryFromPrimitiveError;

    fn try_from(value: u8) -> (r: Result<Self, TryFromPrimitiveError>) {
        match value {
            0x00 => Ok(BatteryStatus::Discharging),
            0x01 => Ok(BatteryStatus::Charging),
            0x02 => Ok(BatteryStatus::ChargingSlow),
            0x03 => Ok(BatteryStatus::Full),
            0x04 => Ok(BatteryStatus::Error),
            _ => Err(TryFromPrimitiveError { number: value }),
        }
    }
}

impl TryFromSpecImpl<u8> for BatteryStatus {
    open spec fn obeys_try_from_spec() -> bool {
        true
    }

    open spec fn try_from_spec(value: u8) -> Result<Self, TryFromPrimitiveError> {
        match Self::from_code(value) {
            Some(v) => Ok(v),
            None => Err(TryFromPrimitiveError { number: value }),
        }
    }
}

/// Represents an event emitted by the [`UnifiedBatteryFeature`] feature.
#[derive(Clone, Copy, PartialEq, Eq, Structural, Hash, Debug)]
#[non_exhaustive]
pub enum BatteryEvent {
    /// Is emitted whenever the battery information changes.
    ///
    /// This event is always enabled.
    InfoUpdate(BatteryInfo),
}

/// The battery information that a payload carries: the charge in percent,
/// the level and the status. A byte that stands for no level or for no status
/// makes the payload carry none.
pub open spec fn spec_battery_info(payload: [u8; 16]) -> Option<BatteryInfo> {
    match (BatteryLevel::from_code(payload[1]), BatteryStatus::from_code(payload[2])) {
        (Some(level), Some(status)) => Some(
            BatteryInfo { charging_percentage: payload[0], level, status },
        ),
        _ => None,
    }
}

/// Reads the battery information that a payload carries.
fn battery_info(payload: [u8; 16]) -> (r: Option<BatteryInfo>)
    ensures
        r == spec_battery_info(payload),
{
    let level = match BatteryLevel::try_from(payload[1]) {
        Ok(level) => level,
        Err(_) => {
            return None;
        },
    };
    let status = match BatteryStatus::try_from(payload[2]) {
        Ok(status) => status,
        Err(_) => {
            return None;
        },
    };
    Some(BatteryInfo { charging_percentage: payload[0], level, status })
}

/// What the response to an info request tells: the battery information of
/// its payload, without which the response is unsupported.
pub open spec fn spec_get_battery_info_reply(response: HidppMessage) -> Result<BatteryInfo, Hidpp20Error> {
    match v20::spec_reply_payload(response) {
        Ok(payload) => match spec_battery_info(payload) {
            Some(info) => Ok(info),
            None => Err(Hidpp20Error::UnsupportedResponse),
        },
        Err(e) => Err(e),
    }
}

impl UnifiedBatteryFeature {
    /// The event that an incoming message stands for.
    ///
    /// A notification of this feature is a message that answered no request,
    /// comes from the device and the feature of this instance and has the
    /// function ID `0` and the software ID `0`.
    /// It carries the battery information.
    pub open spec fn spec_decode_event(&self, raw: HidppMessage, matched: bool) -> Option<
        BatteryEvent,
    > {
        let msg = v20::Message::spec_from_hidpp(raw);
        let header = msg.spec_header();
        let payload = msg.spec_extend_payload();
        if matched || header.device_index != self.device_index || header.feature_index
            != self.feature_index || header.software_id.value() != 0
            || header.function_id.value() != 0 {
            None
        } else {
            match spec_battery_info(payload) {
                Some(info) => Some(BatteryEvent::InfoUpdate(info)),
                None => None,
            }
        }
    }

    /// Starts to retrieve the capabilities of this feature and the battery in
    /// general. [`Self::get_battery_capabilities_reply`] reads the response.
    pub fn get_battery_capabilities<S>(&self, chan: &mut HidppChannel<S>, sender: S) -> (r: Result<
        Vec<u8>,
        Hidpp20Error,
    >)
        ensures
            v20::spec_function_called(
                old(chan)@,
                final(chan)@,
                v20::Message::Short(
                    v20::spec_request_header(self.device_index, self.feature_index, 0, old(chan)@.fresh_sw_id()),
                    [0x00, 0x00, 0x00],
                ),
                sender,
                r,
            ),
            old(chan).wf() ==> final(chan).wf(),
    {
        chan.call_short(self.device_index, self.feature_index, 0, [0x00, 0x00, 0x00], sender)
    }

    /// Reads the response to [`Self::get_battery_capabilities`]: the
    /// capabilities that the first two bytes of the payload stand for.
    pub fn get_battery_capabilities_reply(response: HidppMessage) -> (r: Result<
        BatteryCapabilities,
        Hidpp20Error,
    >)
        ensures
            match v20::spec_reply_payload(response) {
                Ok(payload) => r is Ok && r->Ok_0.spec_is_from([payload[0], payload[1]]),
                Err(e) => r == Err::<BatteryCapabilities, Hidpp20Error>(e),
            },
    {
        let payload = v20::reply_payload(response)?;
        Ok(BatteryCapabilities::from_bytes([payload[0], payload[1]]))
    }

    /// Starts to retrieve the current information about the battery status.
    /// [`Self::get_battery_info_reply`] reads the response.
    pub fn get_battery_info<S>(&self, chan: &mut HidppChannel<S>, sender: S) -> (r: Result<
        Vec<u8>,
        Hidpp20Error,
    >)
        ensures
            v20::spec_function_called(
                old(chan)@,
                final(chan)@,
                v20::Message::Short(
                    v20::spec_request_header(self.device_index, self.feature_index, 1, old(chan)@.fresh_sw_id()),
                    [0x00, 0x00, 0x00],
                ),
                sender,
                r,
            ),
            old(chan).wf() ==> final(chan).wf(),
    {
        chan.call_short(self.device_index, self.feature_index, 1, [0x00, 0x00, 0x00], sender)
    }

    /// Reads the response to [`Self::get_battery_info`].
    pub fn get_battery_info_reply(response: HidppMessage) -> (r: Result<BatteryInfo, Hidpp20Error>)
        ensures
            r == spec_get_battery_info_reply(response),
    {
        let payload = v20::reply_payload(response)?;
        match battery_info(payload) {
            Some(info) => Ok(info),
            None => Err(Hidpp20Error::UnsupportedResponse),
        }
    }
}

impl EmittingFeature<BatteryEvent> for UnifiedBatteryFeature {
    fn msg_listener_hdl(&self) -> (r: u32)
        ensures
            r == self.msg_listener_hdl,
    {
        self.msg_listener_hdl
    }

    fn decode_event(&self, raw: HidppMessage, matched: bool) -> (r: Option<BatteryEvent>)
        ensures
            r == self.spec_decode_event(raw, matched),
    {
        if matched {
            return None;
        }
        let msg = v20::Message::from(raw);

        let header = msg.header();
        if header.device_index != self.device_index || header.feature_index != self.feature_index
            || header.software_id.to_lo() != 0 || header.function_id.to_lo() != 0 {
            return None;
        }
        let payload = msg.extend_payload();

        match battery_info(payload) {
            Some(info) => Some(BatteryEvent::InfoUpdate(info)),
            None => None,
        }
    }
}

} // verus!
