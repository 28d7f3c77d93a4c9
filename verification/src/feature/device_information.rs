//! Implements the `DeviceInformation` feature (ID `0x0003`) that provides some
//! general information about the device.

use vstd::prelude::*;
use vstd::std_specs::convert::FromSpecImpl;
use vstd::std_specs::convert::TryFromSpecImpl;
use crate::channel::HidppChannel;
use crate::channel::HidppMessage;
use crate::feature::CreatableFeature;
use crate::feature::Feature;
use crate::primitive::TryFromPrimitiveError;
use crate::protocol::v20;
use crate::protocol::v20::Hidpp20Error;
use vstd::utf8::decode_utf8;
use vstd::utf8::valid_utf8;
use crate::bcd;
use crate::bcd::is_packed_bcd;
use crate::bcd::is_packed_bcd_u16;
use crate::bcd::packed_value;
use crate::bcd::packed_value_u16;
use crate::primitive::copy_range;
use crate::primitive::spec_u16_from_bytes;
use crate::primitive::string_from_utf8;
use crate::primitive::u16_from_be_bytes;

verus! {

/// Implements the `DeviceInformation` / `0x0003` feature.
#[derive(Clone, Copy, PartialEq, Eq, Structural, Hash, Debug)]
pub struct DeviceInformationFeature {
    /// The index of the device to implement the feature for.
    pub device_index: u8,
    /// The index of the feature in the feature table.
    pub feature_index: u8,
}

impl Feature for DeviceInformationFeature {

}

impl CreatableFeature for DeviceInformationFeature {
    const ID: u16 = 0x0003;

    const STARTING_VERSION: u8 = 0;

    open spec fn spec_listener(&self) -> Option<u32> {
        None
    }

    fn new<S>(chan: &mut HidppChannel<S>, device_index: u8, feature_index: u8) -> (r: Self)
        ensures
            r.device_index == device_index,
            r.feature_index == feature_index,
    {
        Self { device_index, feature_index }
    }
}

/// Represents information about the device as reported by
/// [`DeviceInformationFeature::get_device_info`].
#[derive(Clone, Copy, PartialEq, Eq, Hash, Debug)]
pub struct DeviceInformation {
    /// The amount of entities in the device from which version information can
    /// be retrieved using [`DeviceInformationFeature::get_fw_info`].
    pub entity_count: u8,
    /// A 4-byte random value serving as a unique identifier (among all devices
    /// with the same [`Self::model_id`]) for the unit.
    ///
    /// This field was added in feature version 1 and will always be `0` for
    /// older versions.
    pub unit_id: [u8; 4],
    /// A bitfield about which transport protocols the device supports.
    ///
    /// This field was added in feature version 1 and will always be `0` for
    /// older versions.
    pub transport: DeviceTransport,
    /// A 6-byte array serving as the identifier for the device model.
    ///
    /// This array will consist of the application PIDs of the different
    /// transport protocols supported by the device, as stated in
    /// [`Self::transport`].
    /// The 16-bit PID for every supported transport protocol will be appended
    /// into this array, limiting the total amount of supported transport
    /// protocols to three.
    ///
    /// This field was added in feature version 1 and will always be `0` for
    /// older versions.
    pub model_id: [u16; 3],
    /// An 8-bit value representing an additional configurable attribute for a
    /// given [`Self::model_id`], set on the production line. This could be the
    /// color of the device.
    ///
    /// This field was added in feature version 2 and will always be `0` for
    /// older versions.
    pub extended_model_id: u8,
    /// Additional capability flags of this feature.
    ///
    /// This field was added in feature version 4 together with the serial
    /// number retrieval function. All capabilities will be flagged as
    /// unsupported for older versions.
    pub capabilities: DeviceInformationCapabilities,
}

/// Represents the bitfield stating which transport protocols a device supports.
///
/// One given device can only support up to three transport protocols at a time.
#[derive(Clone, Copy, PartialEq, Eq, Structural, Hash, Debug)]
pub struct DeviceTransport {
    /// Whether the device supports USB.
    pub usb: bool,
    /// Whether the device supports eQuad, the protocol used by the Unifying
    /// Receiver.
    pub e_quad: bool,
    /// Whether the device supports Bluetooth Low Energy as used by the Bolt
    /// Receiver.
    pub btle: bool,
    /// Whether the device supports Bluetooth.
    pub bluetooth: bool,
}

impl DeviceTransport {
    /// The transport protocols that a byte stands for: one flag in each of its
    /// four lowest bits.
    pub open spec fn spec_from_bits(value: u8) -> DeviceTransport {
        DeviceTransport {
            usb: value & 0x08 != 0,
            e_quad: value & 0x04 != 0,
            btle: value & 0x02 != 0,
            bluetooth: value & 0x01 != 0,
        }
    }
}

impl From<u8> for DeviceTransport {
    fn from(value: u8) -> (r: DeviceTransport) {
        DeviceTransport {
            usb: value & 0x08 != 0,
            e_quad: value & 0x04 != 0,
            btle: value & 0x02 != 0,
            bluetooth: value & 0x01 != 0,
        }
    }
}

impl FromSpecImpl<u8> for DeviceTransport {
    open spec fn obeys_from_spec() -> bool {
        true
    }

    open spec fn from_spec(value: u8) -> DeviceTransport {
        DeviceTransport::spec_from_bits(value)
    }
}

/// Represents the bitfield stating which additional capabilities this feature
/// supports.
#[derive(Clone, Copy, PartialEq, Eq, Structural, Hash, Debug)]
pub struct DeviceInformationCapabilities {
    /// Whether serial number retrieval is supported.
    ///
    /// This field was added in feature version 4 and will always be `false` for
    /// older versions.
    pub serial_number: bool,
}

impl DeviceInformationCapabilities {
    /// The capabilities that a byte stands for: one flag in its lowest bit.
    pub open spec fn spec_from_bits(value: u8) -> DeviceInformationCapabilities {
        DeviceInformationCapabilities { serial_number: value & 0x01 != 0 }
    }
}

impl From<u8> for DeviceInformationCapabilities {
    fn from(value: u8) -> (r: DeviceInformationCapabilities) {
        DeviceInformationCapabilities { serial_number: value & 0x01 != 0 }
    }
}

impl FromSpecImpl<u8> for DeviceInformationCapabilities {
    open spec fn obeys_from_spec() -> bool {
        true
    }

    open spec fn from_spec(value: u8) -> DeviceInformationCapabilities {
        DeviceInformationCapabilities::spec_from_bits(value)
    }
}

/// Represents information about the firmware of a specific device entity as
/// obtained via [`DeviceInformationFeature::get_fw_info`].
#[derive(Clone, PartialEq, Eq, Hash, Debug)]
pub struct DeviceEntityFirmwareInfo {
    /// The type of the described entity.
    pub entity_type: DeviceEntityType,
    /// A 3-letter prefix for the firmware name.
    pub firmware_prefix: String,
    /// The firmware number.
    ///
    /// This is represented in packed BCD format in the protocol itself, but
    /// decoding is handled by this implementation automatically.
    pub firmware_number: u8,
    /// The firmware revision.
    ///
    /// This is represented in packed BCD format in the protocol itself, but
    /// decoding is handled by this implementation automatically.
    pub revision: u8,
    /// The firmware build.
    ///
    /// This is represented in packed BCD format in the protocol itself, but
    /// decoding is handled by this implementation automatically.
    pub build: u16,
    /// Whether the entity is the responding and active one.
    ///
    /// Exactly one entity will be active at any given time.
    pub active: bool,
    /// The transport protocol PID.
    ///
    /// If this entity is the active one (see [`Self::active`]), this will be
    /// set to the actual PID. If it is not, this field COULD be all-zero.
    pub transport_pid: u16,
    /// Optional extra versioning information.
    pub extra_version: [u8; 5],
}

/// Represents the type of a device entity.
#[derive(Clone, Copy, PartialEq, Eq, Structural, Hash, Debug)]
#[non_exhaustive]
pub enum DeviceEntityType {
    MainApplication,
    Bootloader,
    Hardware,
    Touchpad,
    OpticalSensor,
    Softdevice,
    RfCompanionMcu,
    FactoryApplication,
    RgbCustomEffect,
    MotorDrive,
}

impl DeviceEntityType {
    /// The byte that stands for the entity type on the wire.
    pub open spec fn code(self) -> u8 {
        match self {
            DeviceEntityType::MainApplication => 0x00,
            DeviceEntityType::Bootloader => 0x01,
            DeviceEntityType::Hardware => 0x02,
            DeviceEntityType::Touchpad => 0x03,
            DeviceEntityType::OpticalSensor => 0x04,
            DeviceEntityType::Softdevice => 0x05,
            DeviceEntityType::RfCompanionMcu => 0x06,
            DeviceEntityType::FactoryApplication => 0x07,
            DeviceEntityType::RgbCustomEffect => 0x08,
            DeviceEntityType::MotorDrive => 0x09,
        }
    }

    /// The entity type that a byte stands for, if any.
    pub open spec fn from_code(value: u8) -> Option<Self> {
        match value {
            0x00 => Some(DeviceEntityType::MainApplication),
            0x01 => Some(DeviceEntityType::Bootloader),
            0x02 => Some(DeviceEntityType::Hardware),
            0x03 => Some(DeviceEntityType::Touchpad),
            0x04 => Some(DeviceEntityType::OpticalSensor),
            0x05 => Some(DeviceEntityType::Softdevice),
            0x06 => Some(DeviceEntityType::RfCompanionMcu),
            0x07 => Some(DeviceEntityType::FactoryApplication),
            0x08 => Some(DeviceEntityType::RgbCustomEffect),
            0x09 => Some(DeviceEntityType::MotorDrive),
            _ => None,
        }
    }
}

impl From<DeviceEntityType> for u8 {
    fn from(value: DeviceEntityType) -> (r: u8) {
        match value {
            DeviceEntityType::MainApplication => 0x00,
            DeviceEntityType::Bootloader => 0x01,
            DeviceEntityType::Hardware => 0x02,
            DeviceEntityType::Touchpad => 0x03,
            DeviceEntityType::OpticalSensor => 0x04,
            DeviceEntityType::Softdevice => 0x05,
            DeviceEntityType::RfCompanionMcu => 0x06,
            DeviceEntityType::FactoryApplication => 0x07,
            DeviceEntityType::RgbCustomEffect => 0x08,
            DeviceEntityType::MotorDrive => 0x09,
        }
    }
}

impl FromSpecImpl<DeviceEntityType> for u8 {
    open spec fn obeys_from_spec() -> bool {
        true
    }

    open spec fn from_spec(value: DeviceEntityType) -> u8 {
        value.code()
    }
}

impl TryFrom<u8> for DeviceEntityType {
    type Error = TryFromPrimitiveError;

    fn try_from(value: u8) -> (r: Result<Self, TryFromPrimitiveError>) {
        match value {
            0x00 => Ok(DeviceEntityType::MainApplication),
            0x01 => Ok(DeviceEntityType::Bootloader),
            0x02 => Ok(DeviceEntityType::Hardware),
            0x03 => Ok(DeviceEntityType::Touchpad),
            0x04 => Ok(DeviceEntityType::OpticalSensor),
            0x05 => Ok(DeviceEntityType::Softdevice),
            0x06 => Ok(DeviceEntityType::RfCompanionMcu),
            0x07 => Ok(DeviceEntityType::FactoryApplication),
            0x08 => Ok(DeviceEntityType::RgbCustomEffect),
            0x09 => Ok(DeviceEntityType::MotorDrive),
            _ => Err(TryFromPrimitiveError { number: value }),
        }
    }
}

impl TryFromSpecImpl<u8> for DeviceEntityType {
    open spec fn obeys_try_from_spec() -> bool {
        true
    }

    open spec fn try_from_spec(value: u8) -> Result<Self, TryFromPrimitiveError> {
        match Self::from_code(value) {
            Some(v) => Ok(v),
            None => Err(TryFromPrimitiveError { number: value }),
        }
    }
}

/// What the response to an info request tells. The byte at offset 5 of the
/// payload is not read.
pub open spec fn spec_get_device_info_reply(response: HidppMessage) -> Result<DeviceInformation, Hidpp20Error> {
    match v20::spec_reply_payload(response) {
        Ok(payload) => Ok(
            DeviceInformation {
                entity_count: payload[0],
                unit_id: [payload[1], payload[2], payload[3], payload[4]],
                transport: DeviceTransport::spec_from_bits(payload[6]),
                model_id: [
                    spec_u16_from_bytes(payload[7], payload[8]),
                    spec_u16_from_bytes(payload[9], payload[10]),
                    spec_u16_from_bytes(payload[11], payload[12]),
                ],
                extended_model_id: payload[13],
                capabilities: DeviceInformationCapabilities::spec_from_bits(payload[14]),
            },
        ),
        Err(e) => Err(e),
    }
}

/// Whether a payload carries firmware information that can be read: its
/// first byte stands for an entity type, the three bytes of the prefix are
/// valid UTF-8, and the firmware number, the revision and the build are
/// packed decimals.
pub open spec fn spec_is_fw_info(payload: [u8; 16]) -> bool {
    &&& DeviceEntityType::from_code(payload[0]) is Some
    &&& valid_utf8(payload@.subrange(1, 4))
    &&& is_packed_bcd(payload[4])
    &&& is_packed_bcd(payload[5])
    &&& is_packed_bcd_u16(spec_u16_from_bytes(payload[6], payload[7]))
}

/// Whether `info` is the firmware information that a payload carries.
pub open spec fn spec_fw_info_is_from(info: DeviceEntityFirmwareInfo, payload: [u8; 16]) -> bool {
    &&& Some(info.entity_type) == DeviceEntityType::from_code(payload[0])
    &&& info.firmware_prefix@ == decode_utf8(payload@.subrange(1, 4))
    &&& info.firmware_number == packed_value(payload[4])
    &&& info.revision == packed_value(payload[5])
    &&& info.build == packed_value_u16(spec_u16_from_bytes(payload[6], payload[7]))
    &&& info.active == (payload[8] & 0x01 != 0)
    &&& info.transport_pid == spec_u16_from_bytes(payload[9], payload[10])
    &&& info.extra_version == [payload[11], payload[12], payload[13], payload[14], payload[15]]
}

impl DeviceInformationFeature {
    /// Starts to retrieve general information about the device and its
    /// capabilities. [`Self::get_device_info_reply`] reads the response.
    pub fn get_device_info<S>(&self, chan: &mut HidppChannel<S>, sender: S) -> (r: Result<
        Vec<u8>,
        Hidpp20Error,
    >)
        ensures
            v20::spec_function_called(
                old(chan)@,
                final(chan)@,
                v20::Message::Short(
                    v20::spec_request_header(self.device_index, self.feature_index, 0, old(chan)@.fresh_sw_id()),
                    [0x00, 0x00, 0x00],
                ),
                sender,
                r,
            ),
            old(chan).wf() ==> final(chan).wf(),
    {
        chan.call_short(self.device_index, self.feature_index, 0, [0x00, 0x00, 0x00], sender)
    }

    /// Reads the response to [`Self::get_device_info`].
    pub fn get_device_info_reply(response: HidppMessage) -> (r: Result<DeviceInformation, Hidpp20Error>)
        ensures
            r == spec_get_device_info_reply(response),
    {
        let payload = v20::reply_payload(response)?;
        Ok(
            DeviceInformation {
                entity_count: payload[0],
                unit_id: [payload[1], payload[2], payload[3], payload[4]],
                transport: DeviceTransport::from(payload[6]),
                model_id: [
                    u16_from_be_bytes(payload[7], payload[8]),
                    u16_from_be_bytes(payload[9], payload[10]),
                    u16_from_be_bytes(payload[11], payload[12]),
                ],
                extended_model_id: payload[13],
                capabilities: DeviceInformationCapabilities::from(payload[14]),
            },
        )
    }

    /// Starts to retrieve information about the firmware of a specific entity,
    /// identified by its index bound by the value in
    /// [`DeviceInformation::entity_count`]. [`Self::get_fw_info_reply`] reads the
    /// response.
    pub fn get_fw_info<S>(&self, chan: &mut HidppChannel<S>, entity_index: u8, sender: S) -> (r: Result<
        Vec<u8>,
        Hidpp20Error,
    >)
        ensures
            v20::spec_function_called(
                old(chan)@,
                final(chan)@,
                v20::Message::Short(
                    v20::spec_request_header(self.device_index, self.feature_index, 1, old(chan)@.fresh_sw_id()),
                    [entity_index, 0x00, 0x00],
                ),
                sender,
                r,
            ),
            old(chan).wf() ==> final(chan).wf(),
    {
        chan.call_short(self.device_index, self.feature_index, 1, [entity_index, 0x00, 0x00], sender)
    }

    /// Reads the response to [`Self::get_fw_info`].
    ///
    /// Fails with [`Hidpp20Error::UnsupportedResponse`] exactly when the
    /// response is no error message and its payload carries nothing that
    /// can be read as firmware information.
    pub fn get_fw_info_reply(response: HidppMessage) -> (r: Result<
        DeviceEntityFirmwareInfo,
        Hidpp20Error,
    >)
        ensures
            match v20::spec_reply_payload(response) {
                Ok(payload) => if spec_is_fw_info(payload) {
                    r is Ok && spec_fw_info_is_from(r->Ok_0, payload)
                } else {
                    r == Err::<DeviceEntityFirmwareInfo, Hidpp20Error>(
                        Hidpp20Error::UnsupportedResponse,
                    )
                },
                Err(e) => r == Err::<DeviceEntityFirmwareInfo, Hidpp20Error>(e),
            },
    {
        let payload = v20::reply_payload(response)?;
        let entity_type = match DeviceEntityType::try_from(payload[0]) {
            Ok(entity_type) => entity_type,
            Err(_) => {
                return Err(Hidpp20Error::UnsupportedResponse);
            },
        };
        let firmware_prefix = match string_from_utf8(copy_range(&payload, 1, 4)) {
            Some(prefix) => prefix,
            None => {
                return Err(Hidpp20Error::UnsupportedResponse);
            },
        };
        let firmware_number = match bcd::convert_packed_u8(payload[4]) {
            Ok(number) => number,
            Err(_) => {
                return Err(Hidpp20Error::UnsupportedResponse);
            },
        };
        let revision = match bcd::convert_packed_u8(payload[5]) {
            Ok(revision) => revision,
            Err(_) => {
                return Err(Hidpp20Error::UnsupportedResponse);
            },
        };
        let build = match bcd::convert_packed_u16(u16_from_be_bytes(payload[6], payload[7])) {
            Ok(build) => build,
            Err(_) => {
                return Err(Hidpp20Error::UnsupportedResponse);
            },
        };
        Ok(
            DeviceEntityFirmwareInfo {
                entity_type,
                firmware_prefix,
                firmware_number,
                revision,
                build,
                active: payload[8] & 0x01 != 0,
                transport_pid: u16_from_be_bytes(payload[9], payload[10]),
                extra_version: [payload[11], payload[12], payload[13], payload[14], payload[15]],
            },
        )
    }

    /// Starts to retrieve the serial number of the device.
    /// [`Self::get_serial_number_reply`] reads the response.
    ///
    /// This function was added in feature version 4 and will likely result in
    /// an [`v20::ErrorType::InvalidFunctionId`] error for older versions,
    /// so [`DeviceInformationCapabilities::serial_number`] should be
    /// verified before calling.
    pub fn get_serial_number<S>(&self, chan: &mut HidppChannel<S>, sender: S) -> (r: Result<
        Vec<u8>,
        Hidpp20Error,
    >)
        ensures
            v20::spec_function_called(
                old(chan)@,
                final(chan)@,
                v20::Message::Short(
                    v20::spec_request_header(self.device_index, self.feature_index, 2, old(chan)@.fresh_sw_id()),
                    [0x00, 0x00, 0x00],
                ),
                sender,
                r,
            ),
            old(chan).wf() ==> final(chan).wf(),
    {
        chan.call_short(self.device_index, self.feature_index, 2, [0x00, 0x00, 0x00], sender)
    }

    /// Reads the response to [`Self::get_serial_number`]: the text that the
    /// first 12 bytes of the payload encode.
    ///
    /// Fails with [`Hidpp20Error::UnsupportedResponse`] exactly when the
    /// response is no error message and those bytes are no valid UTF-8.
    pub fn get_serial_number_reply(response: HidppMessage) -> (r: Result<String, Hidpp20Error>)
        ensures
            match v20::spec_reply_payload(response) {
                Ok(payload) => if valid_utf8(payload@.subrange(0, 12)) {
                    r is Ok && r->Ok_0@ == decode_utf8(payload@.subrange(0, 12))
                } else {
                    r == Err::<String, Hidpp20Error>(Hidpp20Error::UnsupportedResponse)
                },
                Err(e) => r == Err::<String, Hidpp20Error>(e),
            },
    {
        let payload = v20::reply_payload(response)?;
        match string_from_utf8(copy_range(&payload, 0, 12)) {
            Some(serial_number) => Ok(serial_number),
            None => Err(Hidpp20Error::UnsupportedResponse),
        }
    }
}

} // verus!
