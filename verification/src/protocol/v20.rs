//! Implements functionality specific to HID++2.0.

use vstd::prelude::*;
use vstd::std_specs::convert::FromSpecImpl;
use vstd::std_specs::convert::TryFromSpecImpl;
use crate::channel::ChannelError;
use crate::channel::ChannelState;
use crate::channel::HidppChannel;
use crate::channel::HidppMessage;
use crate::channel::ResponsePredicate;
use crate::nibble::U4;
use crate::nibble::combine;
use crate::nibble::lemma_combine_halves;
use crate::nibble::lemma_split_combined;
use crate::nibble::spec_combine;
use crate::primitive::TryFromPrimitiveError;

verus! {

/// Represents the header that every [`HidppMessage`] of HID++2.0 starts with.
#[derive(Clone, Copy, PartialEq, Eq, Structural, Hash, Debug)]
pub struct MessageHeader {
    /// The index of the device involved in the communication.
    pub device_index: u8,
    /// The index of the feature the message belongs to.
    ///
    /// This is not the same as the feature ID, but the index returned from a
    /// feature enumeration request.
    pub feature_index: u8,
    /// The ID of the function involved in the communication.
    pub function_id: U4,
    /// The ID of the software communicating with the device.
    pub software_id: U4,
}

impl MessageHeader {
    /// A header is well-formed when both of its nibbles are.
    pub open spec fn wf(self) -> bool {
        self.function_id.wf() && self.software_id.wf()
    }

    /// The byte of the header that carries the function ID in its high half
    /// and the software ID in its low half.
    pub open spec fn function_byte(self) -> u8 {
        spec_combine(self.function_id, self.software_id)
    }
}

/// Represents a HID++2.0 message.
#[derive(Clone, Copy, PartialEq, Eq, Hash, Debug)]
pub enum Message {
    /// Represents a short HID++2.0 message with 3 bytes of payload.
    Short(MessageHeader, [u8; 3]),
    /// Represents a long HID++2.0 message with 16 bytes of payload.
    Long(MessageHeader, [u8; 16]),
}

impl Message {
    /// The header of the message.
    pub open spec fn spec_header(&self) -> MessageHeader {
        match *self {
            Message::Short(header, _) => header,
            Message::Long(header, _) => header,
        }
    }

    /// Extracts the header of the message.
    #[verifier::when_used_as_spec(spec_header)]
    pub fn header(&self) -> (r: MessageHeader)
        ensures
            r == self.spec_header(),
    {
        match *self {
            Message::Short(header, _) => header,
            Message::Long(header, _) => header,
        }
    }

    /// The HID++2.0 reading of an unversioned message: the device index, the
    /// feature index, one byte with the function ID in its high and the
    /// software ID in its low half, then the payload.
    pub open spec fn spec_from_hidpp(msg: HidppMessage) -> Message {
        match msg {
            HidppMessage::Short(d) => Message::Short(
                MessageHeader {
                    device_index: d[0],
                    feature_index: d[1],
                    function_id: U4::spec_from_hi(d[2]),
                    software_id: U4::spec_from_lo(d[2]),
                },
                [d[3], d[4], d[5]],
            ),
            HidppMessage::Long(d) => Message::Long(
                MessageHeader {
                    device_index: d[0],
                    feature_index: d[1],
                    function_id: U4::spec_from_hi(d[2]),
                    software_id: U4::spec_from_lo(d[2]),
                },
                [d[3], d[4], d[5], d[6], d[7], d[8], d[9], d[10], d[11], d[12], d[13], d[14], d[15], d[16], d[17], d[18]],
            ),
        }
    }

    /// The unversioned message that carries this one.
    pub open spec fn spec_to_hidpp(self) -> HidppMessage {
        match self {
            Message::Short(header, p) => HidppMessage::Short(
                [header.device_index, header.feature_index, header.function_byte(), p[0], p[1], p[2]],
            ),
            Message::Long(header, p) => HidppMessage::Long(
                [header.device_index, header.feature_index, header.function_byte(), p[0], p[1], p[2], p[3], p[4], p[5], p[6], p[7], p[8], p[9], p[10], p[11], p[12], p[13], p[14], p[15]],
            ),
        }
    }

    /// The payload of the message, filled up with zeroes to the length of the
    /// longest possible payload.
    pub open spec fn spec_extend_payload(&self) -> [u8; 16] {
        match *self {
            Message::Short(_, p) => [p[0], p[1], p[2], 0, 0, 0, 0, 0, 0, 0, 0, 0, 0, 0, 0, 0],
            Message::Long(_, p) => p,
        }
    }

    /// Extracts the payload of the message and fits it into an array capable of
    /// containing the longest possible payload, filling the rest up with
    /// zeroes.
    #[verifier::when_used_as_spec(spec_extend_payload)]
    pub fn extend_payload(&self) -> (r: [u8; 16])
        ensures
            r == self.spec_extend_payload(),
    {
        match *self {
            Message::Short(_, p) => [p[0], p[1], p[2], 0, 0, 0, 0, 0, 0, 0, 0, 0, 0, 0, 0, 0],
            Message::Long(_, p) => p,
        }
    }
}

impl From<HidppMessage> for Message {
    fn from(msg: HidppMessage) -> (r: Message) {
        match msg {
            HidppMessage::Short(d) => Message::Short(
                MessageHeader {
                    device_index: d[0],
                    feature_index: d[1],
                    function_id: U4::from_hi(d[2]),
                    software_id: U4::from_lo(d[2]),
                },
                [d[3], d[4], d[5]],
            ),
            HidppMessage::Long(d) => Message::Long(
                MessageHeader {
                    device_index: d[0],
                    feature_index: d[1],
                    function_id: U4::from_hi(d[2]),
                    software_id: U4::from_lo(d[2]),
                },
                [d[3], d[4], d[5], d[6], d[7], d[8], d[9], d[10], d[11], d[12], d[13], d[14], d[15], d[16], d[17], d[18]],
            ),
        }
    }
}

impl FromSpecImpl<HidppMessage> for Message {
    open spec fn obeys_from_spec() -> bool {
        true
    }

    open spec fn from_spec(msg: HidppMessage) -> Message {
        Message::spec_from_hidpp(msg)
    }
}

impl From<Message> for HidppMessage {
    fn from(msg: Message) -> (r: HidppMessage) {
        match msg {
            Message::Short(header, p) => HidppMessage::Short(
                [
                    header.device_index,
                    header.feature_index,
                    combine(header.function_id, header.software_id),
                    p[0], p[1], p[2],
                ],
            ),
            Message::Long(header, p) => HidppMessage::Long(
                [
                    header.device_index,
                    header.feature_index,
                    combine(header.function_id, header.software_id),
                    p[0], p[1], p[2], p[3], p[4], p[5], p[6], p[7], p[8], p[9], p[10], p[11], p[12], p[13], p[14], p[15],
                ],
            ),
        }
    }
}

impl FromSpecImpl<Message> for HidppMessage {
    open spec fn obeys_from_spec() -> bool {
        true
    }

    open spec fn from_spec(msg: Message) -> HidppMessage {
        msg.spec_to_hidpp()
    }
}

/// A HID++2.0 message that is wrapped into the unversioned envelope and
/// unwrapped again is the message that went in.
pub proof fn lemma_envelope_round_trip(msg: Message)
    requires
        msg.spec_header().wf(),
    ensures
        Message::spec_from_hidpp(msg.spec_to_hidpp()) == msg,
{
    let header = msg.spec_header();
    lemma_split_combined(header.function_id, header.software_id);
    match msg {
        Message::Short(_, p) => {
            let back = Message::spec_from_hidpp(msg.spec_to_hidpp());
            assert(back matches Message::Short(h, q) && h == header && q =~= p);
        },
        Message::Long(_, p) => {
            let back = Message::spec_from_hidpp(msg.spec_to_hidpp());
            assert(back matches Message::Long(h, q) && h == header && q =~= p);
        },
    }
}

/// An unversioned message that is read as a HID++2.0 message and wrapped
/// again is the message that went in, and what was read is well-formed.
pub proof fn lemma_envelope_round_trip_raw(msg: HidppMessage)
    ensures
        Message::spec_from_hidpp(msg).spec_to_hidpp() == msg,
        Message::spec_from_hidpp(msg).spec_header().wf(),
{
    match msg {
        HidppMessage::Short(d) => {
            lemma_combine_halves(d[2]);
            let back = Message::spec_from_hidpp(msg).spec_to_hidpp();
            assert(back matches HidppMessage::Short(e) && e =~= d);
        },
        HidppMessage::Long(d) => {
            lemma_combine_halves(d[2]);
            let back = Message::spec_from_hidpp(msg).spec_to_hidpp();
            assert(back matches HidppMessage::Long(e) && e =~= d);
        },
    }
}

/// Whether `response` answers the request with the header `header`: either a
/// message with the very same header, or an error message for it. An error
/// message has the feature index `0xff` and moves the feature index and the
/// function byte of the request one byte to the right.
pub open spec fn spec_is_response(header: MessageHeader, response: HidppMessage) -> bool {
    let resp_msg = Message::spec_from_hidpp(response);
    let resp_header = resp_msg.spec_header();
    let is_error = resp_header.device_index == header.device_index && resp_header.feature_index
        == 0xff && resp_header.function_byte() == header.feature_index
        && resp_msg.spec_extend_payload()[0] == header.function_byte();
    is_error || resp_header == header
}

/// Checks whether a message is the response, or the error response, to the
/// request with the given header.
pub fn is_response(header: MessageHeader, response: &HidppMessage) -> (r: bool)
    ensures
        r == spec_is_response(header, *response),
{
    let resp_msg = Message::from(*response);
    let resp_header = resp_msg.header();

    let is_error = resp_header.device_index == header.device_index && resp_header.feature_index
        == 0xff && combine(resp_header.function_id, resp_header.software_id)
        == header.feature_index && resp_msg.extend_payload()[0] == combine(
        header.function_id,
        header.software_id,
    );

    is_error || resp_header == header
}

/// On the wire, the response to a request starts with the device index of the
/// request, and goes on either with the feature index and the function byte
/// of the request, or with `0xff` and then both of them.
pub proof fn lemma_response_bytes(header: MessageHeader, response: HidppMessage)
    requires
        header.wf(),
    ensures
        spec_is_response(header, response) <==> {
            let raw = response.payload();
            raw[0] == header.device_index && ((raw[1] == header.feature_index && raw[2]
                == header.function_byte()) || (raw[1] == 0xff && raw[2] == header.feature_index
                && raw[3] == header.function_byte()))
        },
{
    let raw = response.payload();
    lemma_combine_halves(raw[2]);
    lemma_split_combined(header.function_id, header.software_id);
    let resp_header = Message::spec_from_hidpp(response).spec_header();
    assert(resp_header.function_byte() == raw[2]);
    assert(Message::spec_from_hidpp(response).spec_extend_payload()[0] == raw[3]);
    if raw[2] == header.function_byte() {
        assert(resp_header.function_id == header.function_id);
        assert(resp_header.software_id == header.software_id);
    }
}

/// Represents the type of an error a HID++2.0 device returns if a feature
/// function fails.
#[derive(Clone, Copy, PartialEq, Eq, Structural, Hash, Debug)]
#[non_exhaustive]
pub enum ErrorType {
    NoError,
    Unknown,
    InvalidArgument,
    OutOfRange,
    HwError,
    LogitechInternal,
    InvalidFeatureIndex,
    InvalidFunctionId,
    Busy,
    Unsupported,
}

impl ErrorType {
    /// The error code that stands for the error on the wire.
    pub open spec fn code(self) -> u8 {
        match self {
            ErrorType::NoError => 0x00,
            ErrorType::Unknown => 0x01,
            ErrorType::InvalidArgument => 0x02,
            ErrorType::OutOfRange => 0x03,
            ErrorType::HwError => 0x04,
            ErrorType::LogitechInternal => 0x05,
            ErrorType::InvalidFeatureIndex => 0x06,
            ErrorType::InvalidFunctionId => 0x07,
            ErrorType::Busy => 0x08,
            ErrorType::Unsupported => 0x09,
        }
    }

    /// The error that an error code stands for, if it is a documented one.
    pub open spec fn from_code(value: u8) -> Option<Self> {
        match value {
            0x00 => Some(ErrorType::NoError),
            0x01 => Some(ErrorType::Unknown),
            0x02 => Some(ErrorType::InvalidArgument),
            0x03 => Some(ErrorType::OutOfRange),
            0x04 => Some(ErrorType::HwError),
            0x05 => Some(ErrorType::LogitechInternal),
            0x06 => Some(ErrorType::InvalidFeatureIndex),
            0x07 => Some(ErrorType::InvalidFunctionId),
            0x08 => Some(ErrorType::Busy),
            0x09 => Some(ErrorType::Unsupported),
            _ => None,
        }
    }
}

impl From<ErrorType> for u8 {
    fn from(value: ErrorType) -> (r: u8) {
        match value {
            ErrorType::NoError => 0x00,
            ErrorType::Unknown => 0x01,
            ErrorType::InvalidArgument => 0x02,
            ErrorType::OutOfRange => 0x03,
            ErrorType::HwError => 0x04,
            ErrorType::LogitechInternal => 0x05,
            ErrorType::InvalidFeatureIndex => 0x06,
            ErrorType::InvalidFunctionId => 0x07,
            ErrorType::Busy => 0x08,
            ErrorType::Unsupported => 0x09,
        }
    }
}

impl FromSpecImpl<ErrorType> for u8 {
    open spec fn obeys_from_spec() -> bool {
        true
    }

    open spec fn from_spec(value: ErrorType) -> u8 {
        value.code()
    }
}

impl TryFrom<u8> for ErrorType {
    type Error = TryFromPrimitiveError;

    fn try_from(value: u8) -> (r: Result<Self, TryFromPrimitiveError>) {
        match value {
            0x00 => Ok(ErrorType::NoError),
            0x01 => Ok(ErrorType::Unknown),
            0x02 => Ok(ErrorType::InvalidArgument),
            0x03 => Ok(ErrorType::OutOfRange),
            0x04 => Ok(ErrorType::HwError),
            0x05 => Ok(ErrorType::LogitechInternal),
            0x06 => Ok(ErrorType::InvalidFeatureIndex),
            0x07 => Ok(ErrorType::InvalidFunctionId),
            0x08 => Ok(ErrorType::Busy),
            0x09 => Ok(ErrorType::Unsupported),
            _ => Err(TryFromPrimitiveError { number: value }),
        }
    }
}

impl TryFromSpecImpl<u8> for ErrorType {
    open spec fn obeys_try_from_spec() -> bool {
        true
    }

    open spec fn try_from_spec(value: u8) -> Result<Self, TryFromPrimitiveError> {
        match Self::from_code(value) {
            Some(v) => Ok(v),
            None => Err(TryFromPrimitiveError { number: value }),
        }
    }
}

/// Represents an error that may occur when calling a HID++2.0 feature function.
#[derive(Debug)]
#[non_exhaustive]
pub enum Hidpp20Error {
    /// Indicates that an error occurred while communicating across the HID++
    /// channel.
    Channel(ChannelError),
    /// Indicates that a call to a HID++2.0 feature function resulted in an
    /// error.
    Feature(ErrorType),
    /// Indicates that a response received is not fully supported.
    UnsupportedResponse,
}

impl Hidpp20Error {
    /// The description of the error in words.
    pub open spec fn spec_message(&self) -> &'static str {
        match self {
            Hidpp20Error::Channel(_) => "the HID++ channel returned an error",
            Hidpp20Error::Feature(_) => "a HID++2.0 feature returned an error",
            Hidpp20Error::UnsupportedResponse =>
                "the response received from the device is (partly) unsupported",
        }
    }

    /// Describes the error in words.
    pub fn message(&self) -> (r: &'static str)
        ensures
            r == self.spec_message(),
    {
        match self {
            Hidpp20Error::Channel(_) => "the HID++ channel returned an error",
            Hidpp20Error::Feature(_) => "a HID++2.0 feature returned an error",
            Hidpp20Error::UnsupportedResponse =>
                "the response received from the device is (partly) unsupported",
        }
    }
}

/// What the response to a HID++2.0 request holds: a feature error where the
/// response is an error message, else the response as a HID++2.0 message.
pub open spec fn spec_feature_reply(response: HidppMessage) -> Result<Message, Hidpp20Error> {
    let msg = Message::spec_from_hidpp(response);
    if msg.spec_header().feature_index == 0xff {
        match ErrorType::from_code(msg.spec_extend_payload()[1]) {
            Some(err) => Err(Hidpp20Error::Feature(err)),
            None => Err(Hidpp20Error::UnsupportedResponse),
        }
    } else {
        Ok(msg)
    }
}

/// Reads the response to a HID++2.0 request: fails with the feature error
/// that an error message reports, and otherwise hands out the message.
pub fn feature_reply(response: HidppMessage) -> (r: Result<Message, Hidpp20Error>)
    ensures
        r == spec_feature_reply(response),
{
    let msg = Message::from(response);
    if msg.header().feature_index == 0xff {
        return match ErrorType::try_from(msg.extend_payload()[1]) {
            Ok(err) => Err(Hidpp20Error::Feature(err)),
            Err(_) => Err(Hidpp20Error::UnsupportedResponse),
        };
    }
    Ok(msg)
}

impl From<ChannelError> for Hidpp20Error {
    fn from(value: ChannelError) -> (r: Hidpp20Error) {
        Hidpp20Error::Channel(value)
    }
}

impl FromSpecImpl<ChannelError> for Hidpp20Error {
    open spec fn obeys_from_spec() -> bool {
        true
    }

    open spec fn from_spec(value: ChannelError) -> Hidpp20Error {
        Hidpp20Error::Channel(value)
    }
}

/// The header of a request to the function `function` of a feature.
pub open spec fn spec_request_header(
    device_index: u8,
    feature_index: u8,
    function: u8,
    software_id: U4,
) -> MessageHeader {
    MessageHeader {
        device_index,
        feature_index,
        function_id: U4::spec_from_lo(function),
        software_id,
    }
}

/// What enqueuing a HID++2.0 request does: where the channel supports the
/// size of the message, the request waits at the end of the queue for the
/// response to its header, and the frame of the message is handed out. Else
/// the channel stays as it is.
pub open spec fn spec_request_sent<S>(
    before: ChannelState<S>,
    after: ChannelState<S>,
    msg: Message,
    sender: S,
    r: Result<Vec<u8>, Hidpp20Error>,
) -> bool {
    let raw = msg.spec_to_hidpp();
    if before.supports_msg(raw) {
        &&& r is Ok
        &&& r->Ok_0@ == raw.frame()
        &&& after == before.with_pending(ResponsePredicate::Feature(msg.spec_header()), sender)
    } else {
        &&& r == Err::<Vec<u8>, Hidpp20Error>(
            Hidpp20Error::Channel(ChannelError::MessageTypeNotSupported),
        )
        &&& after == before
    }
}

/// What calling a function of a feature does: a software ID is taken from the
/// channel, and the request with that ID is enqueued.
pub open spec fn spec_function_called<S>(
    before: ChannelState<S>,
    after: ChannelState<S>,
    msg: Message,
    sender: S,
    r: Result<Vec<u8>, Hidpp20Error>,
) -> bool {
    &&& msg.spec_header().software_id == before.fresh_sw_id()
    &&& spec_request_sent(before.after_get_sw_id(), after, msg, sender, r)
}

/// What one step of a call in several steps does where there is a step left
/// to do: it is a call of a function, and the frame is handed out as `Some`.
pub open spec fn spec_step_called<S>(
    before: ChannelState<S>,
    after: ChannelState<S>,
    msg: Message,
    sender: S,
    r: Result<Option<Vec<u8>>, Hidpp20Error>,
) -> bool {
    let raw = msg.spec_to_hidpp();
    let header = msg.spec_header();
    &&& header.software_id == before.fresh_sw_id()
    &&& if before.supports_msg(raw) {
        &&& r matches Ok(Some(frame))
        &&& frame@ == raw.frame()
        &&& after == before.after_get_sw_id().with_pending(
            ResponsePredicate::Feature(header),
            sender,
        )
    } else {
        &&& r == Err::<Option<Vec<u8>>, Hidpp20Error>(
            Hidpp20Error::Channel(ChannelError::MessageTypeNotSupported),
        )
        &&& after == before.after_get_sw_id()
    }
}

impl<S> HidppChannel<S> {
    /// Enqueues a HID++2.0 message for sending and for waiting for a response
    /// that matches the message header, and hands out the frame to write.
    /// [`feature_reply`] reads the response.
    pub fn send_v20(&mut self, msg: Message, sender: S) -> (r: Result<Vec<u8>, Hidpp20Error>)
        ensures
            spec_request_sent(old(self)@, final(self)@, msg, sender, r),
    {
        let header = msg.header();
        match self.send(HidppMessage::from(msg), ResponsePredicate::Feature(header), sender) {
            Ok(frame) => Ok(frame),
            Err(_) => Err(Hidpp20Error::Channel(ChannelError::MessageTypeNotSupported)),
        }
    }

    /// Calls a function of a feature with a short message: takes a software ID
    /// from the channel and enqueues the request.
    pub fn call_short(
        &mut self,
        device_index: u8,
        feature_index: u8,
        function: u8,
        payload: [u8; 3],
        sender: S,
    ) -> (r: Result<Vec<u8>, Hidpp20Error>)
        ensures
            spec_function_called(
                old(self)@,
                final(self)@,
                Message::Short(
                    spec_request_header(
                        device_index,
                        feature_index,
                        function,
                        old(self)@.fresh_sw_id(),
                    ),
                    payload,
                ),
                sender,
                r,
            ),
            old(self).wf() ==> final(self).wf(),
    {
        let software_id = self.get_sw_id();
        self.send_v20(
            Message::Short(
                MessageHeader {
                    device_index,
                    feature_index,
                    function_id: U4::from_lo(function),
                    software_id,
                },
                payload,
            ),
            sender,
        )
    }

    /// Calls a function of a feature with a long message: takes a software ID
    /// from the channel and enqueues the request.
    pub fn call_long(
        &mut self,
        device_index: u8,
        feature_index: u8,
        function: u8,
        payload: [u8; 16],
        sender: S,
    ) -> (r: Result<Vec<u8>, Hidpp20Error>)
        ensures
            spec_function_called(
                old(self)@,
                final(self)@,
                Message::Long(
                    spec_request_header(
                        device_index,
                        feature_index,
                        function,
                        old(self)@.fresh_sw_id(),
                    ),
                    payload,
                ),
                sender,
                r,
            ),
            old(self).wf() ==> final(self).wf(),
    {
        let software_id = self.get_sw_id();
        self.send_v20(
            Message::Long(
                MessageHeader {
                    device_index,
                    feature_index,
                    function_id: U4::from_lo(function),
                    software_id,
                },
                payload,
            ),
            sender,
        )
    }
}

/// What the response to a call of a feature function carries: the payload of
/// the response, filled up with zeroes, or the error of the response.
pub open spec fn spec_reply_payload(response: HidppMessage) -> Result<[u8; 16], Hidpp20Error> {
    match spec_feature_reply(response) {
        Ok(msg) => Ok(msg.spec_extend_payload()),
        Err(e) => Err(e),
    }
}

/// Reads the payload of the response to a call of a feature function.
pub fn reply_payload(response: HidppMessage) -> (r: Result<[u8; 16], Hidpp20Error>)
    ensures
        r == spec_reply_payload(response),
{
    match feature_reply(response) {
        Ok(msg) => Ok(msg.extend_payload()),
        Err(e) => Err(e),
    }
}

} // verus!
