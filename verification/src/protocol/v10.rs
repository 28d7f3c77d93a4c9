//! Implements functionality specific to HID++1.0.

use vstd::prelude::*;
use vstd::std_specs::convert::FromSpecImpl;
use vstd::std_specs::convert::TryFromSpecImpl;
use crate::channel::ChannelError;
use crate::channel::ChannelState;
use crate::channel::HidppChannel;
use crate::channel::HidppMessage;
use crate::channel::ResponsePredicate;
use crate::primitive::TryFromPrimitiveError;

verus! {

/// Represents the header that every [`HidppMessage`] of HID++1.0 starts with.
#[derive(Clone, Copy, PartialEq, Eq, Structural, Hash, Debug)]
pub struct MessageHeader {
    /// The index of the device involved in the communication.
    pub device_index: u8,
    /// The sub ID of the message.
    pub sub_id: u8,
}

/// Represents a HID++1.0 message.
#[derive(Clone, Copy, PartialEq, Eq, Hash, Debug)]
pub enum Message {
    /// Represents a short HID++1.0 message with 4 bytes of payload.
    Short(MessageHeader, [u8; 4]),
    /// Represents a long HID++1.0 message with 17 bytes of payload.
    Long(MessageHeader, [u8; 17]),
}

impl Message {
    /// The header of the message.
    pub open spec fn spec_header(&self) -> MessageHeader {
        match *self {
            Message::Short(header, _) => header,
            Message::Long(header, _) => header,
        }
    }

    /// Extracts the header of the message.
    #[verifier::when_used_as_spec(spec_header)]
    pub fn header(&self) -> (r: MessageHeader)
        ensures
            r == self.spec_header(),
    {
        match *self {
            Message::Short(header, _) => header,
            Message::Long(header, _) => header,
        }
    }

    /// The HID++1.0 reading of an unversioned message: the first byte is the
    /// device index, the second the sub ID, the rest the payload.
    pub open spec fn spec_from_hidpp(msg: HidppMessage) -> Message {
        match msg {
            HidppMessage::Short(d) => Message::Short(
                MessageHeader { device_index: d[0], sub_id: d[1] },
                [d[2], d[3], d[4], d[5]],
            ),
            HidppMessage::Long(d) => Message::Long(
                MessageHeader { device_index: d[0], sub_id: d[1] },
                [d[2], d[3], d[4], d[5], d[6], d[7], d[8], d[9], d[10], d[11], d[12], d[13], d[14], d[15], d[16], d[17], d[18]],
            ),
        }
    }

    /// The unversioned message that carries this one: the device index, the
    /// sub ID, then the payload.
    pub open spec fn spec_to_hidpp(self) -> HidppMessage {
        match self {
            Message::Short(header, p) => HidppMessage::Short(
                [header.device_index, header.sub_id, p[0], p[1], p[2], p[3]],
            ),
            Message::Long(header, p) => HidppMessage::Long(
                [header.device_index, header.sub_id, p[0], p[1], p[2], p[3], p[4], p[5], p[6], p[7], p[8], p[9], p[10], p[11], p[12], p[13], p[14], p[15], p[16]],
            ),
        }
    }

    /// The payload of the message, filled up with zeroes to the length of the
    /// longest possible payload.
    pub open spec fn spec_extend_payload(&self) -> [u8; 17] {
        match *self {
            Message::Short(_, p) => [p[0], p[1], p[2], p[3], 0, 0, 0, 0, 0, 0, 0, 0, 0, 0, 0, 0, 0],
            Message::Long(_, p) => p,
        }
    }

    /// Extracts the payload of the message and fits it into an array capable of
    /// containing the longest possible payload, filling the rest up with
    /// zeroes.
    #[verifier::when_used_as_spec(spec_extend_payload)]
    pub fn extend_payload(&self) -> (r: [u8; 17])
        ensures
            r == self.spec_extend_payload(),
    {
        match *self {
            Message::Short(_, p) => [p[0], p[1], p[2], p[3], 0, 0, 0, 0, 0, 0, 0, 0, 0, 0, 0, 0, 0],
            Message::Long(_, p) => p,
        }
    }
}

impl From<HidppMessage> for Message {
    fn from(msg: HidppMessage) -> (r: Message) {
        match msg {
            HidppMessage::Short(d) => Message::Short(
                MessageHeader { device_index: d[0], sub_id: d[1] },
                [d[2], d[3], d[4], d[5]],
            ),
            HidppMessage::Long(d) => Message::Long(
                MessageHeader { device_index: d[0], sub_id: d[1] },
                [d[2], d[3], d[4], d[5], d[6], d[7], d[8], d[9], d[10], d[11], d[12], d[13], d[14], d[15], d[16], d[17], d[18]],
            ),
        }
    }
}

impl FromSpecImpl<HidppMessage> for Message {
    open spec fn obeys_from_spec() -> bool {
        true
    }

    open spec fn from_spec(msg: HidppMessage) -> Message {
        Message::spec_from_hidpp(msg)
    }
}

impl From<Message> for HidppMessage {
    fn from(msg: Message) -> (r: HidppMessage) {
        match msg {
            Message::Short(header, p) => HidppMessage::Short(
                [header.device_index, header.sub_id, p[0], p[1], p[2], p[3]],
            ),
            Message::Long(header, p) => HidppMessage::Long(
                [header.device_index, header.sub_id, p[0], p[1], p[2], p[3], p[4], p[5], p[6], p[7], p[8], p[9], p[10], p[11], p[12], p[13], p[14], p[15], p[16]],
            ),
        }
    }
}

impl FromSpecImpl<Message> for HidppMessage {
    open spec fn obeys_from_spec() -> bool {
        true
    }

    open spec fn from_spec(msg: Message) -> HidppMessage {
        msg.spec_to_hidpp()
    }
}

/// A HID++1.0 message that is wrapped into the unversioned envelope and
/// unwrapped again is the message that went in.
pub proof fn lemma_envelope_round_trip(msg: Message)
    ensures
        Message::spec_from_hidpp(msg.spec_to_hidpp()) == msg,
{
    match msg {
        Message::Short(header, p) => {
            let back = Message::spec_from_hidpp(msg.spec_to_hidpp());
            assert(back matches Message::Short(h, q) && h == header && q =~= p);
        },
        Message::Long(header, p) => {
            let back = Message::spec_from_hidpp(msg.spec_to_hidpp());
            assert(back matches Message::Long(h, q) && h == header && q =~= p);
        },
    }
}

/// An unversioned message that is read as a HID++1.0 message and wrapped
/// again is the message that went in.
pub proof fn lemma_envelope_round_trip_raw(msg: HidppMessage)
    ensures
        Message::spec_from_hidpp(msg).spec_to_hidpp() == msg,
{
    match msg {
        HidppMessage::Short(d) => {
            let back = Message::spec_from_hidpp(msg).spec_to_hidpp();
            assert(back matches HidppMessage::Short(e) && e =~= d);
        },
        HidppMessage::Long(d) => {
            let back = Message::spec_from_hidpp(msg).spec_to_hidpp();
            assert(back matches HidppMessage::Long(e) && e =~= d);
        },
    }
}

/// Whether `msg` answers a register access of type `msg_type` to the register
/// `address` of `device`: either the reply itself, which repeats the sub ID
/// and the address, or an error message that names both.
pub open spec fn spec_is_rap_response(
    device: u8,
    msg_type: MessageType,
    address: u8,
    msg: HidppMessage,
) -> bool {
    let raw = msg.payload();
    raw[0] == device && ((raw[1] == msg_type.code() && raw[2] == address) || (raw[1]
        == MessageType::Error.code() && raw[2] == msg_type.code() && raw[3] == address))
}

/// Checks whether a message is the response, or the error response, to a
/// register access.
pub fn is_rap_response(device: u8, msg_type: MessageType, address: u8, msg: &HidppMessage) -> (r:
    bool)
    ensures
        r == spec_is_rap_response(device, msg_type, address, *msg),
{
    let raw: [u8; 4] = match msg {
        HidppMessage::Short(d) => [d[0], d[1], d[2], d[3]],
        HidppMessage::Long(d) => [d[0], d[1], d[2], d[3]],
    };
    let sub_id = u8::from(msg_type);
    let error_id = u8::from(MessageType::Error);

    raw[0] == device && ((raw[1] == sub_id && raw[2] == address) || (raw[1] == error_id && raw[2]
        == sub_id && raw[3] == address))
}

/// Represents a globally defined sub ID of a HID++1.0 message.
///
/// This enum only includes sub IDs that are defined globally across all
/// devices. Most devices (e.g. the Unifying Receiver) define additional sub IDs
/// specific to their functionality.
#[derive(Clone, Copy, PartialEq, Eq, Structural, Hash, Debug)]
#[non_exhaustive]
pub enum MessageType {
    /// Used to set a 3-byte register value. A sent message of this type is
    /// usually responded with a response message of the same type (or
    /// [`Self::Error`]).
    SetRegister,
    /// Used to retrieve a 3-byte register value. A sent message of this type is
    /// usually responded with a response message of the same type (or
    /// [`Self::Error`]).
    GetRegister,
    /// Used to set a 16-byte register value. A sent message of this type is
    /// usually responded with a response message of the same type (or
    /// [`Self::Error`]).
    SetLongRegister,
    /// Used to retrieve a 16-byte register value. A sent message of this type
    /// is usually responded with a response message of the same type (or
    /// [`Self::Error`]).
    GetLongRegister,
    /// Used to indicate an error response. The error code usually included in
    /// the message can be mapped using [`ErrorType::try_from`].
    Error,
}

impl MessageType {
    /// The sub ID that stands for the message type on the wire.
    pub open spec fn code(self) -> u8 {
        match self {
            MessageType::SetRegister => 0x80,
            MessageType::GetRegister => 0x81,
            MessageType::SetLongRegister => 0x82,
            MessageType::GetLongRegister => 0x83,
            MessageType::Error => 0x8f,
        }
    }

    /// The message type that a sub ID stands for, if any.
    pub open spec fn from_code(value: u8) -> Option<Self> {
        match value {
            0x80 => Some(MessageType::SetRegister),
            0x81 => Some(MessageType::GetRegister),
            0x82 => Some(MessageType::SetLongRegister),
            0x83 => Some(MessageType::GetLongRegister),
            0x8f => Some(MessageType::Error),
            _ => None,
        }
    }
}

impl From<MessageType> for u8 {
    fn from(value: MessageType) -> (r: u8) {
        match value {
            MessageType::SetRegister => 0x80,
            MessageType::GetRegister => 0x81,
            MessageType::SetLongRegister => 0x82,
            MessageType::GetLongRegister => 0x83,
            MessageType::Error => 0x8f,
        }
    }
}

impl FromSpecImpl<MessageType> for u8 {
    open spec fn obeys_from_spec() -> bool {
        true
    }

    open spec fn from_spec(value: MessageType) -> u8 {
        value.code()
    }
}

impl TryFrom<u8> for MessageType {
    type Error = TryFromPrimitiveError;

    fn try_from(value: u8) -> (r: Result<Self, TryFromPrimitiveError>) {
        match value {
            0x80 => Ok(MessageType::SetRegister),
            0x81 => Ok(MessageType::GetRegister),
            0x82 => Ok(MessageType::SetLongRegister),
            0x83 => Ok(MessageType::GetLongRegister),
            0x8f => Ok(MessageType::Error),
            _ => Err(TryFromPrimitiveError { number: value }),
        }
    }
}

impl TryFromSpecImpl<u8> for MessageType {
    open spec fn obeys_try_from_spec() -> bool {
        true
    }

    open spec fn try_from_spec(value: u8) -> Result<Self, TryFromPrimitiveError> {
        match Self::from_code(value) {
            Some(v) => Ok(v),
            None => Err(TryFromPrimitiveError { number: value }),
        }
    }
}

/// Represents the type of an error a HID++1.0 device returns as part of a
/// message with the [`MessageType::Error`] type.
#[derive(Clone, Copy, PartialEq, Eq, Structural, Hash, Debug)]
#[non_exhaustive]
pub enum ErrorType {
    /// No error.
    Success,
    /// The sub ID of a sent message is invalid.
    InvalidSubId,
    /// The address included in a sent message is invalid.
    InvalidAddress,
    /// The value included in a sent message is invalid.
    InvalidValue,
    /// A connection request failed on the receiver's side.
    ConnectFail,
    /// The receiver indicates that too many devices are connected to it.
    TooManyDevices,
    /// The reciever indicates that something already exists.
    AlreadyExists,
    /// The receiver is currently handling a downstream (to device) message and
    /// cannot process a second one.
    Busy,
    /// Trying to send a message to a device (device index) where there is no
    /// device paired.
    UnknownDevice,
    /// This error is returned by the receiver when a HID++ command has been
    /// sent to a device that is in disconnected mode.
    ResourceError,
    /// A sent request is not available in the current context.
    RequestUnavailable,
    /// A request parameter has an unsupported value.
    InvalidParamValue,
    /// The PIN code of a device was wrong.
    WrongPinCode,
}

impl ErrorType {
    /// The error code that stands for the error on the wire.
    pub open spec fn code(self) -> u8 {
        match self {
            ErrorType::Success => 0x00,
            ErrorType::InvalidSubId => 0x01,
            ErrorType::InvalidAddress => 0x02,
            ErrorType::InvalidValue => 0x03,
            ErrorType::ConnectFail => 0x04,
            ErrorType::TooManyDevices => 0x05,
            ErrorType::AlreadyExists => 0x06,
            ErrorType::Busy => 0x07,
            ErrorType::UnknownDevice => 0x08,
            ErrorType::ResourceError => 0x09,
            ErrorType::RequestUnavailable => 0x0a,
            ErrorType::InvalidParamValue => 0x0b,
            ErrorType::WrongPinCode => 0x0c,
        }
    }

    /// The error that an error code stands for, if it is a documented one.
    pub open spec fn from_code(value: u8) -> Option<Self> {
        match value {
            0x00 => Some(ErrorType::Success),
            0x01 => Some(ErrorType::InvalidSubId),
            0x02 => Some(ErrorType::InvalidAddress),
            0x03 => Some(ErrorType::InvalidValue),
            0x04 => Some(ErrorType::ConnectFail),
            0x05 => Some(ErrorType::TooManyDevices),
            0x06 => Some(ErrorType::AlreadyExists),
            0x07 => Some(ErrorType::Busy),
            0x08 => Some(ErrorType::UnknownDevice),
            0x09 => Some(ErrorType::ResourceError),
            0x0a => Some(ErrorType::RequestUnavailable),
            0x0b => Some(ErrorType::InvalidParamValue),
            0x0c => Some(ErrorType::WrongPinCode),
            _ => None,
        }
    }
}

impl From<ErrorType> for u8 {
    fn from(value: ErrorType) -> (r: u8) {
        match value {
            ErrorType::Success => 0x00,
            ErrorType::InvalidSubId => 0x01,
            ErrorType::InvalidAddress => 0x02,
            ErrorType::InvalidValue => 0x03,
            ErrorType::ConnectFail => 0x04,
            ErrorType::TooManyDevices => 0x05,
            ErrorType::AlreadyExists => 0x06,
            ErrorType::Busy => 0x07,
            ErrorType::UnknownDevice => 0x08,
            ErrorType::ResourceError => 0x09,
            ErrorType::RequestUnavailable => 0x0a,
            ErrorType::InvalidParamValue => 0x0b,
            ErrorType::WrongPinCode => 0x0c,
        }
    }
}

impl FromSpecImpl<ErrorType> for u8 {
    open spec fn obeys_from_spec() -> bool {
        true
    }

    open spec fn from_spec(value: ErrorType) -> u8 {
        value.code()
    }
}

impl TryFrom<u8> for ErrorType {
    type Error = TryFromPrimitiveError;

    fn try_from(value: u8) -> (r: Result<Self, TryFromPrimitiveError>) {
        match value {
            0x00 => Ok(ErrorType::Success),
            0x01 => Ok(ErrorType::InvalidSubId),
            0x02 => Ok(ErrorType::InvalidAddress),
            0x03 => Ok(ErrorType::InvalidValue),
            0x04 => Ok(ErrorType::ConnectFail),
            0x05 => Ok(ErrorType::TooManyDevices),
            0x06 => Ok(ErrorType::AlreadyExists),
            0x07 => Ok(ErrorType::Busy),
            0x08 => Ok(ErrorType::UnknownDevice),
            0x09 => Ok(ErrorType::ResourceError),
            0x0a => Ok(ErrorType::RequestUnavailable),
            0x0b => Ok(ErrorType::InvalidParamValue),
            0x0c => Ok(ErrorType::WrongPinCode),
            _ => Err(TryFromPrimitiveError { number: value }),
        }
    }
}

impl TryFromSpecImpl<u8> for ErrorType {
    open spec fn obeys_try_from_spec() -> bool {
        true
    }

    open spec fn try_from_spec(value: u8) -> Result<Self, TryFromPrimitiveError> {
        match Self::from_code(value) {
            Some(v) => Ok(v),
            None => Err(TryFromPrimitiveError { number: value }),
        }
    }
}

/// Represents an error that may occur when accessing registers using HID++1.0.
#[derive(Debug)]
#[non_exhaustive]
pub enum Hidpp10Error {
    /// Indicates that an error occurred while communicating across the HID++
    /// channel.
    Channel(ChannelError),
    /// Indicates that a register access failed.
    RegisterAccess(ErrorType),
    /// Indicates that a received response is not fully supported.
    UnsupportedResponse,
}

impl From<ChannelError> for Hidpp10Error {
    fn from(value: ChannelError) -> (r: Hidpp10Error) {
        Hidpp10Error::Channel(value)
    }
}

impl FromSpecImpl<ChannelError> for Hidpp10Error {
    open spec fn obeys_from_spec() -> bool {
        true
    }

    open spec fn from_spec(value: ChannelError) -> Hidpp10Error {
        Hidpp10Error::Channel(value)
    }
}

impl Hidpp10Error {
    /// The description of the error in words.
    pub open spec fn spec_message(&self) -> &'static str {
        match self {
            Hidpp10Error::Channel(_) => "the HID++ channel returned an error",
            Hidpp10Error::RegisterAccess(_) => "a HID++1.0 register access resulted in an error",
            Hidpp10Error::UnsupportedResponse =>
                "the received response from the device is (partly) unsupported",
        }
    }

    /// Describes the error in words.
    pub fn message(&self) -> (r: &'static str)
        ensures
            r == self.spec_message(),
    {
        match self {
            Hidpp10Error::Channel(_) => "the HID++ channel returned an error",
            Hidpp10Error::RegisterAccess(_) => "a HID++1.0 register access resulted in an error",
            Hidpp10Error::UnsupportedResponse =>
                "the received response from the device is (partly) unsupported",
        }
    }
}

/// What the reply to a register access holds: a register error where the
/// reply is an error message, else the payload of the reply, filled up with
/// zeroes.
pub open spec fn spec_register_reply(response: HidppMessage) -> Result<[u8; 17], Hidpp10Error> {
    let msg = Message::spec_from_hidpp(response);
    let payload = msg.spec_extend_payload();
    if msg.spec_header().sub_id == MessageType::Error.code() {
        match ErrorType::from_code(payload[2]) {
            Some(err) => Err(Hidpp10Error::RegisterAccess(err)),
            None => Err(Hidpp10Error::UnsupportedResponse),
        }
    } else {
        Ok(payload)
    }
}

/// Reads the reply to a register access: fails with the register error that
/// an error message reports, and otherwise hands out the payload.
pub fn register_reply(response: HidppMessage) -> (r: Result<[u8; 17], Hidpp10Error>)
    ensures
        r == spec_register_reply(response),
{
    let msg = Message::from(response);
    let payload = msg.extend_payload();
    if msg.header().sub_id == u8::from(MessageType::Error) {
        return match ErrorType::try_from(payload[2]) {
            Ok(err) => Err(Hidpp10Error::RegisterAccess(err)),
            Err(_) => Err(Hidpp10Error::UnsupportedResponse),
        };
    }
    Ok(payload)
}

/// The message that asks for an access of type `msg_type` to the register
/// `address` of `device`, with three bytes of parameters or data.
pub open spec fn spec_register_request(
    msg_type: MessageType,
    device: u8,
    address: u8,
    data: [u8; 3],
) -> HidppMessage {
    Message::Short(
        MessageHeader { device_index: device, sub_id: msg_type.code() },
        [address, data[0], data[1], data[2]],
    ).spec_to_hidpp()
}

/// The message that writes 16 bytes of data to the long register `address` of
/// `device`.
pub open spec fn spec_long_register_request(device: u8, address: u8, data: [u8; 16]) -> HidppMessage {
    Message::Long(
        MessageHeader { device_index: device, sub_id: MessageType::SetLongRegister.code() },
        [address, data[0], data[1], data[2], data[3], data[4], data[5], data[6], data[7], data[8], data[9], data[10], data[11], data[12], data[13], data[14], data[15]],
    ).spec_to_hidpp()
}

/// What enqueuing a register access does: where the channel supports the
/// size of the message, the request waits at the end of the queue for the
/// reply to the access, and the frame of the message is handed out. Else the
/// channel stays as it is.
pub open spec fn spec_register_access<S>(
    before: ChannelState<S>,
    after: ChannelState<S>,
    msg: HidppMessage,
    msg_type: MessageType,
    device: u8,
    address: u8,
    sender: S,
    r: Result<Vec<u8>, Hidpp10Error>,
) -> bool {
    if before.supports_msg(msg) {
        &&& r is Ok
        &&& r->Ok_0@ == msg.frame()
        &&& after == before.with_pending(
            ResponsePredicate::RegisterAccess { device, msg_type, address },
            sender,
        )
    } else {
        &&& r == Err::<Vec<u8>, Hidpp10Error>(
            Hidpp10Error::Channel(ChannelError::MessageTypeNotSupported),
        )
        &&& after == before
    }
}

impl<S> HidppChannel<S> {
    /// Enqueues an access to a register and hands out the frame to write.
    fn access_register(
        &mut self,
        msg: Message,
        msg_type: MessageType,
        device: u8,
        address: u8,
        sender: S,
    ) -> (r: Result<Vec<u8>, Hidpp10Error>)
        ensures
            spec_register_access(
                old(self)@,
                final(self)@,
                msg.spec_to_hidpp(),
                msg_type,
                device,
                address,
                sender,
                r,
            ),
    {
        match self.send(
            HidppMessage::from(msg),
            ResponsePredicate::RegisterAccess { device, msg_type, address },
            sender,
        ) {
            Ok(frame) => Ok(frame),
            Err(_) => Err(Hidpp10Error::Channel(ChannelError::MessageTypeNotSupported)),
        }
    }

    /// Starts reading the data from a short 3-byte register using
    /// HID++1.0/RAP. [`read_register_reply`] reads the response.
    pub fn read_register(&mut self, device: u8, address: u8, parameters: [u8; 3], sender: S) -> (r:
        Result<Vec<u8>, Hidpp10Error>)
        ensures
            spec_register_access(
                old(self)@,
                final(self)@,
                spec_register_request(MessageType::GetRegister, device, address, parameters),
                MessageType::GetRegister,
                device,
                address,
                sender,
                r,
            ),
    {
        let data = [address, parameters[0], parameters[1], parameters[2]];
        self.access_register(
            Message::Short(
                MessageHeader { device_index: device, sub_id: u8::from(MessageType::GetRegister) },
                data,
            ),
            MessageType::GetRegister,
            device,
            address,
            sender,
        )
    }

    /// Starts writing data to a short 3-byte register using HID++1.0/RAP.
    /// [`write_register_reply`] reads the response.
    pub fn write_register(&mut self, device: u8, address: u8, payload: [u8; 3], sender: S) -> (r:
        Result<Vec<u8>, Hidpp10Error>)
        ensures
            spec_register_access(
                old(self)@,
                final(self)@,
                spec_register_request(MessageType::SetRegister, device, address, payload),
                MessageType::SetRegister,
                device,
                address,
                sender,
                r,
            ),
    {
        let data = [address, payload[0], payload[1], payload[2]];
        self.access_register(
            Message::Short(
                MessageHeader { device_index: device, sub_id: u8::from(MessageType::SetRegister) },
                data,
            ),
            MessageType::SetRegister,
            device,
            address,
            sender,
        )
    }

    /// Starts reading the data from a long 16-byte register using
    /// HID++1.0/RAP. The request is a short message, the response a long one.
    /// [`read_long_register_reply`] reads the response.
    pub fn read_long_register(&mut self, device: u8, address: u8, parameters: [u8; 3], sender: S) -> (r:
        Result<Vec<u8>, Hidpp10Error>)
        ensures
            spec_register_access(
                old(self)@,
                final(self)@,
                spec_register_request(MessageType::GetLongRegister, device, address, parameters),
                MessageType::GetLongRegister,
                device,
                address,
                sender,
                r,
            ),
    {
        let data = [address, parameters[0], parameters[1], parameters[2]];
        self.access_register(
            Message::Short(
                MessageHeader {
                    device_index: device,
                    sub_id: u8::from(MessageType::GetLongRegister),
                },
                data,
            ),
            MessageType::GetLongRegister,
            device,
            address,
            sender,
        )
    }

    /// Starts writing data to a long 16-byte register using HID++1.0/RAP.
    /// [`write_long_register_reply`] reads the response.
    pub fn write_long_register(&mut self, device: u8, address: u8, payload: [u8; 16], sender: S) -> (r:
        Result<Vec<u8>, Hidpp10Error>)
        ensures
            spec_register_access(
                old(self)@,
                final(self)@,
                spec_long_register_request(device, address, payload),
                MessageType::SetLongRegister,
                device,
                address,
                sender,
                r,
            ),
    {
        let x = payload;
        let data = [address, x[0], x[1], x[2], x[3], x[4], x[5], x[6], x[7], x[8], x[9], x[10], x[11], x[12], x[13], x[14], x[15]];
        self.access_register(
            Message::Long(
                MessageHeader {
                    device_index: device,
                    sub_id: u8::from(MessageType::SetLongRegister),
                },
                data,
            ),
            MessageType::SetLongRegister,
            device,
            address,
            sender,
        )
    }
}

/// Reads the response to [`HidppChannel::read_register`]: the three bytes of
/// the register, which follow the address, or the error that the device
/// reported.
pub fn read_register_reply(response: HidppMessage) -> (r: Result<[u8; 3], Hidpp10Error>)
    ensures
        r == match spec_register_reply(response) {
            Ok(p) => Ok::<[u8; 3], Hidpp10Error>([p[1], p[2], p[3]]),
            Err(e) => Err(e),
        },
{
    match register_reply(response) {
        Ok(p) => Ok([p[1], p[2], p[3]]),
        Err(e) => Err(e),
    }
}

/// Reads the response to [`HidppChannel::write_register`]: nothing, or the
/// error that the device reported.
pub fn write_register_reply(response: HidppMessage) -> (r: Result<(), Hidpp10Error>)
    ensures
        r == match spec_register_reply(response) {
            Ok(_) => Ok::<(), Hidpp10Error>(()),
            Err(e) => Err(e),
        },
{
    match register_reply(response) {
        Ok(_) => Ok(()),
        Err(e) => Err(e),
    }
}

/// Reads the response to [`HidppChannel::read_long_register`]: the 16 bytes
/// of the register, which follow the address, or the error that the device
/// reported.
pub fn read_long_register_reply(response: HidppMessage) -> (r: Result<[u8; 16], Hidpp10Error>)
    ensures
        r == match spec_register_reply(response) {
            Ok(p) => Ok::<[u8; 16], Hidpp10Error>([p[1], p[2], p[3], p[4], p[5], p[6], p[7], p[8], p[9], p[10], p[11], p[12], p[13], p[14], p[15], p[16]]),
            Err(e) => Err(e),
        },
{
    match register_reply(response) {
        Ok(p) => Ok([p[1], p[2], p[3], p[4], p[5], p[6], p[7], p[8], p[9], p[10], p[11], p[12], p[13], p[14], p[15], p[16]]),
        Err(e) => Err(e),
    }
}

/// Reads the response to [`HidppChannel::write_long_register`]: nothing, or
/// the error that the device reported.
pub fn write_long_register_reply(response: HidppMessage) -> (r: Result<(), Hidpp10Error>)
    ensures
        r == match spec_register_reply(response) {
            Ok(_) => Ok::<(), Hidpp10Error>(()),
            Err(e) => Err(e),
        },
{
    match register_reply(response) {
        Ok(_) => Ok(()),
        Err(e) => Err(e),
    }
}

} // verus!
