//! Implements the `DeviceTypeAndName` feature (ID `0x0005`) that tells the
//! marketing name and the type of a device.

use vstd::prelude::*;
use vstd::std_specs::convert::FromSpecImpl;
use vstd::std_specs::convert::TryFromSpecImpl;
use crate::channel::HidppChannel;
use crate::channel::HidppMessage;
use crate::feature::CreatableFeature;
use crate::feature::Feature;
use crate::primitive::TryFromPrimitiveError;
use crate::protocol::v20;
use crate::protocol::v20::Hidpp20Error;
use crate::text::NameReader;

verus! {

/// Implements the `DeviceTypeAndName` / `0x0005` feature.
///
/// The first version supported by this feature is v0.
#[derive(Clone, Copy, PartialEq, Eq, Structural, Hash, Debug)]
pub struct DeviceTypeAndNameFeatureV0 {
    /// The index of the device to implement the feature for.
    pub device_index: u8,
    /// The index of the feature in the feature table.
    pub feature_index: u8,
}

impl Feature for DeviceTypeAndNameFeatureV0 {

}

impl CreatableFeature for DeviceTypeAndNameFeatureV0 {
    const ID: u16 = 0x0005;

    const STARTING_VERSION: u8 = 0;

    open spec fn spec_listener(&self) -> Option<u32> {
        None
    }

    fn new<S>(chan: &mut HidppChannel<S>, device_index: u8, feature_index: u8) -> (r: Self)
        ensures
            r.device_index == device_index,
            r.feature_index == feature_index,
    {
        Self { device_index, feature_index }
    }
}

/// Represents the type of a HID++2.0 device as returned by the
/// [`DeviceTypeAndNameFeatureV0`] feature.
#[derive(Clone, Copy, PartialEq, Eq, Structural, Hash, Debug)]
#[non_exhaustive]
pub enum DeviceType {
    Keyboard,
    RemoteControl,
    Numpad,
    Mouse,
    Trackpad,
    Trackball,
    Presenter,
    Receiver,
    Headset,
    Webcam,
    SteeringWheel,
    Joystick,
    Gamepad,
    Dock,
    Speaker,
    Microphone,
    IlluminationLight,
    ProgrammableController,
    CarSimPedals,
    Adapter,
}

impl DeviceType {
    /// The byte that stands for the device type on the wire.
    pub open spec fn code(self) -> u8 {
        match self {
            DeviceType::Keyboard => 0x00,
            DeviceType::RemoteControl => 0x01,
            DeviceType::Numpad => 0x02,
            DeviceType::Mouse => 0x03,
            DeviceType::Trackpad => 0x04,
            DeviceType::Trackball => 0x05,
            DeviceType::Presenter => 0x06,
            DeviceType::Receiver => 0x07,
            DeviceType::Headset => 0x08,
            DeviceType::Webcam => 0x09,
            DeviceType::SteeringWheel => 0x0a,
            DeviceType::Joystick => 0x0b,
            DeviceType::Gamepad => 0x0c,
            DeviceType::Dock => 0x0d,
            DeviceType::Speaker => 0x0e,
            DeviceType::Microphone => 0x0f,
            DeviceType::IlluminationLight => 0x10,
            DeviceType::ProgrammableController => 0x11,
            DeviceType::CarSimPedals => 0x12,
            DeviceType::Adapter => 0x13,
        }
    }

    /// The device type that a byte stands for, if any.
    pub open spec fn from_code(value: u8) -> Option<Self> {
        match value {
            0x00 => Some(DeviceType::Keyboard),
            0x01 => Some(DeviceType::RemoteControl),
            0x02 => Some(DeviceType::Numpad),
            0x03 => Some(DeviceType::Mouse),
            0x04 => Some(DeviceType::Trackpad),
            0x05 => Some(DeviceType::Trackball),
            0x06 => Some(DeviceType::Presenter),
            0x07 => Some(DeviceType::Receiver),
            0x08 => Some(DeviceType::Headset),
            0x09 => Some(DeviceType::Webcam),
            0x0a => Some(DeviceType::SteeringWheel),
            0x0b => Some(DeviceType::Joystick),
            0x0c => Some(DeviceType::Gamepad),
            0x0d => Some(DeviceType::Dock),
            0x0e => Some(DeviceType::Speaker),
            0x0f => Some(DeviceType::Microphone),
            0x10 => Some(DeviceType::IlluminationLight),
            0x11 => Some(DeviceType::ProgrammableController),
            0x12 => Some(DeviceType::CarSimPedals),
            0x13 => Some(DeviceType::Adapter),
            _ => None,
        }
    }
}

impl From<DeviceType> for u8 {
    fn from(value: DeviceType) -> (r: u8) {
        match value {
            DeviceType::Keyboard => 0x00,
            DeviceType::RemoteControl => 0x01,
            DeviceType::Numpad => 0x02,
            DeviceType::Mouse => 0x03,
            DeviceType::Trackpad => 0x04,
            DeviceType::Trackball => 0x05,
            DeviceType::Presenter => 0x06,
            DeviceType::Receiver => 0x07,
            DeviceType::Headset => 0x08,
            DeviceType::Webcam => 0x09,
            DeviceType::SteeringWheel => 0x0a,
            DeviceType::Joystick => 0x0b,
            DeviceType::Gamepad => 0x0c,
            DeviceType::Dock => 0x0d,
            DeviceType::Speaker => 0x0e,
            DeviceType::Microphone => 0x0f,
            DeviceType::IlluminationLight => 0x10,
            DeviceType::ProgrammableController => 0x11,
            DeviceType::CarSimPedals => 0x12,
            DeviceType::Adapter => 0x13,
        }
    }
}

impl FromSpecImpl<DeviceType> for u8 {
    open spec fn obeys_from_spec() -> bool {
        true
    }

    open spec fn from_spec(value: DeviceType) -> u8 {
        value.code()
    }
}

impl TryFrom<u8> for DeviceType {
    type Error = TryFromPrimitiveError;

    fn try_from(value: u8) -> (r: Result<Self, TryFromPrimitiveError>) {
        match value {
            0x00 => Ok(DeviceType::Keyboard),
            0x01 => Ok(DeviceType::RemoteControl),
            0x02 => Ok(DeviceType::Numpad),
            0x03 => Ok(DeviceType::Mouse),
            0x04 => Ok(DeviceType::Trackpad),
            0x05 => Ok(DeviceType::Trackball),
            0x06 => Ok(DeviceType::Presenter),
            0x07 => Ok(DeviceType::Receiver),
            0x08 => Ok(DeviceType::Headset),
            0x09 => Ok(DeviceType::Webcam),
            0x0a => Ok(DeviceType::SteeringWheel),
            0x0b => Ok(DeviceType::Joystick),
            0x0c => Ok(DeviceType::Gamepad),
            0x0d => Ok(DeviceType::Dock),
            0x0e => Ok(DeviceType::Speaker),
            0x0f => Ok(DeviceType::Microphone),
            0x10 => Ok(DeviceType::IlluminationLight),
            0x11 => Ok(DeviceType::ProgrammableController),
            0x12 => Ok(DeviceType::CarSimPedals),
            0x13 => Ok(DeviceType::Adapter),
            _ => Err(TryFromPrimitiveError { number: value }),
        }
    }
}

impl TryFromSpecImpl<u8> for DeviceType {
    open spec fn obeys_try_from_spec() -> bool {
        true
    }

    open spec fn try_from_spec(value: u8) -> Result<Self, TryFromPrimitiveError> {
        match Self::from_code(value) {
            Some(v) => Ok(v),
            None => Err(TryFromPrimitiveError { number: value }),
        }
    }
}

/// What the response to a name count request tells: the count, in the first
/// byte.
pub open spec fn spec_get_device_name_count_reply(response: HidppMessage) -> Result<u8, Hidpp20Error> {
    match v20::spec_reply_payload(response) {
        Ok(payload) => Ok(payload[0]),
        Err(e) => Err(e),
    }
}

/// What the response to a type request tells: the type that the first byte
/// stands for. A byte that stands for no type makes the response unsupported.
pub open spec fn spec_get_device_type_reply(response: HidppMessage) -> Result<DeviceType, Hidpp20Error> {
    match v20::spec_reply_payload(response) {
        Ok(payload) => match DeviceType::from_code(payload[0]) {
            Some(device_type) => Ok(device_type),
            None => Err(Hidpp20Error::UnsupportedResponse),
        },
        Err(e) => Err(e),
    }
}

/// What the response to a name request carries: the whole payload of the
/// response, which has 3 bytes in a short and 16 bytes in a long message.
pub open spec fn spec_get_device_name_reply(response: HidppMessage) -> Result<Seq<u8>, Hidpp20Error> {
    match v20::spec_feature_reply(response) {
        Ok(v20::Message::Short(_, payload)) => Ok(payload@),
        Ok(v20::Message::Long(_, payload)) => Ok(payload@),
        Err(e) => Err(e),
    }
}

impl DeviceTypeAndNameFeatureV0 {
    /// Starts to retrieve the amount of characters in the marketing name of the
    /// device. [`Self::get_device_name_count_reply`] reads the response.
    pub fn get_device_name_count<S>(&self, chan: &mut HidppChannel<S>, sender: S) -> (r: Result<
        Vec<u8>,
        Hidpp20Error,
    >)
        ensures
            v20::spec_function_called(
                old(chan)@,
                final(chan)@,
                v20::Message::Short(
                    v20::spec_request_header(self.device_index, self.feature_index, 0, old(chan)@.fresh_sw_id()),
                    [0x00, 0x00, 0x00],
                ),
                sender,
                r,
            ),
            old(chan).wf() ==> final(chan).wf(),
    {
        chan.call_short(self.device_index, self.feature_index, 0, [0x00, 0x00, 0x00], sender)
    }

    /// Reads the response to [`Self::get_device_name_count`].
    pub fn get_device_name_count_reply(response: HidppMessage) -> (r: Result<u8, Hidpp20Error>)
        ensures
            r == spec_get_device_name_count_reply(response),
    {
        let payload = v20::reply_payload(response)?;
        Ok(payload[0])
    }

    /// Starts to retrieve a chunk of characters of the marketing name of the
    /// device, starting at a specific index (inclusive).
    /// [`Self::get_device_name_reply`] reads the response.
    ///
    /// Depending on the device and channel capabilities, the response will
    /// carry at most 3 or 16 characters of the device name.
    ///
    /// Use this function in conjunction with [`Self::get_device_name_count`] to
    /// retrieve the whole device name.
    pub fn get_device_name<S>(&self, chan: &mut HidppChannel<S>, index: u8, sender: S) -> (r: Result<
        Vec<u8>,
        Hidpp20Error,
    >)
        ensures
            v20::spec_function_called(
                old(chan)@,
                final(chan)@,
                v20::Message::Short(
                    v20::spec_request_header(self.device_index, self.feature_index, 1, old(chan)@.fresh_sw_id()),
                    [index, 0x00, 0x00],
                ),
                sender,
                r,
            ),
            old(chan).wf() ==> final(chan).wf(),
    {
        chan.call_short(self.device_index, self.feature_index, 1, [index, 0x00, 0x00], sender)
    }

    /// Reads the response to [`Self::get_device_name`].
    pub fn get_device_name_reply(response: HidppMessage) -> (r: Result<Vec<u8>, Hidpp20Error>)
        ensures
            match spec_get_device_name_reply(response) {
                Ok(bytes) => r is Ok && r->Ok_0@ == bytes,
                Err(e) => r == Err::<Vec<u8>, Hidpp20Error>(e),
            },
    {
        match v20::feature_reply(response)? {
            v20::Message::Long(_, payload) => Ok(crate::primitive::copy_range(&payload, 0, 16)),
            v20::Message::Short(_, payload) => Ok(crate::primitive::copy_range(&payload, 0, 3)),
        }
    }


    /// Goes on with the retrieval of the whole marketing name of the device.
    /// 
    /// A caller retrieves the length of the name with
    /// [`Self::get_device_name_count`], starts a [`NameReader`] with it, and then
    /// calls this function until it hands out `None`. Each time it hands out a
    /// frame, it has started to retrieve the chunk that the reader lacks next,
    /// and the caller gives the bytes of [`Self::get_device_name_reply`] to the
    /// reader.
    pub fn get_whole_device_name<S>(&self, chan: &mut HidppChannel<S>, reader: &NameReader, sender: S) -> (r:
        Result<Option<Vec<u8>>, Hidpp20Error>)
        ensures
            reader.bytes().len() >= reader.count() ==> r == Ok::<Option<Vec<u8>>, Hidpp20Error>(
                None,
            ) && final(chan)@ == old(chan)@,
            reader.bytes().len() < reader.count() ==> v20::spec_step_called(
                old(chan)@,
                final(chan)@,
                v20::Message::Short(
                    v20::spec_request_header(
                        self.device_index,
                        self.feature_index,
                        1,
                        old(chan)@.fresh_sw_id(),
                    ),
                    [reader.bytes().len() as u8, 0x00, 0x00],
                ),
                sender,
                r,
            ),
            old(chan).wf() ==> final(chan).wf(),
    {
        match reader.next_index() {
            Some(index) => match chan.call_short(
                self.device_index,
                self.feature_index,
                1,
                [index, 0x00, 0x00],
                sender,
            ) {
                Ok(frame) => Ok(Some(frame)),
                Err(e) => Err(e),
            },
            None => Ok(None),
        }
    }

    /// Starts to retrieve the marketing type of the device.
    /// [`Self::get_device_type_reply`] reads the response.
    pub fn get_device_type<S>(&self, chan: &mut HidppChannel<S>, sender: S) -> (r: Result<
        Vec<u8>,
        Hidpp20Error,
    >)
        ensures
            v20::spec_function_called(
                old(chan)@,
                final(chan)@,
                v20::Message::Short(
                    v20::spec_request_header(self.device_index, self.feature_index, 2, old(chan)@.fresh_sw_id()),
                    [0x00, 0x00, 0x00],
                ),
                sender,
                r,
            ),
            old(chan).wf() ==> final(chan).wf(),
    {
        chan.call_short(self.device_index, self.feature_index, 2, [0x00, 0x00, 0x00], sender)
    }

    /// Reads the response to [`Self::get_device_type`].
    pub fn get_device_type_reply(response: HidppMessage) -> (r: Result<DeviceType, Hidpp20Error>)
        ensures
            r == spec_get_device_type_reply(response),
    {
        let payload = v20::reply_payload(response)?;
        match DeviceType::try_from(payload[0]) {
            Ok(device_type) => Ok(device_type),
            Err(_) => Err(Hidpp20Error::UnsupportedResponse),
        }
    }
}

} // verus!
