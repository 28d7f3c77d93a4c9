//! Implements basic messaging across HID++ channels.
//!
//! This includes mapping incoming messages to previously sent requests.

use std::collections::VecDeque;
use vstd::prelude::*;
use crate::descriptor::ReportDescriptor;
use crate::nibble::U4;
use crate::nibble::lemma_new_value;
use crate::protocol::is_version_reply;
use crate::protocol::spec_is_version_reply;
use crate::protocol::v10;
use crate::protocol::v20;

verus! {

/// The ID of the HID report that is used to transmit short HID++ messages.
pub const SHORT_REPORT_ID: u8 = 0x10;

/// The HID usage page ID of short HID++ message reports.
pub const SHORT_REPORT_USAGE_PAGE: u16 = 0xff00;

/// The HID usage ID of short HID++ message reports.
pub const SHORT_REPORT_USAGE: u16 = 0x0001;

/// The length of short HID++ message reports (including report ID).
pub const SHORT_REPORT_LENGTH: usize = 7;

/// The ID of the HID report that is used to transmit long HID++ messages.
pub const LONG_REPORT_ID: u8 = 0x11;

/// The HID usage page ID of long HID++ message reports.
pub const LONG_REPORT_USAGE_PAGE: u16 = 0xff00;

/// The HID usage ID of long HID++ message reports.
pub const LONG_REPORT_USAGE: u16 = 0x0002;

/// The length of long HID++ message reports (including report ID).
pub const LONG_REPORT_LENGTH: usize = 20;

/// Represents an unversioned HID++ message.
#[derive(Clone, Copy, PartialEq, Eq, Hash, Debug)]
pub enum HidppMessage {
    /// Represents a short HID++ message.
    Short([u8; 6]),
    /// Represents a long HID++ message.
    Long([u8; 19]),
}

impl HidppMessage {
    /// The bytes of the message after the report ID.
    pub open spec fn payload(self) -> Seq<u8> {
        match self {
            HidppMessage::Short(payload) => payload@,
            HidppMessage::Long(payload) => payload@,
        }
    }

    /// The report ID that announces a message of this size.
    pub open spec fn report_id(self) -> u8 {
        match self {
            HidppMessage::Short(_) => SHORT_REPORT_ID,
            HidppMessage::Long(_) => LONG_REPORT_ID,
        }
    }

    /// The frame of the message on the wire: the report ID, then the payload.
    pub open spec fn frame(self) -> Seq<u8> {
        seq![self.report_id()] + self.payload()
    }

    /// The message that a raw report holds, if it is a HID++ frame: 7 bytes
    /// that start with `0x10`, or 20 bytes that start with `0x11`.
    pub open spec fn is_frame(data: Seq<u8>) -> bool {
        ||| data.len() == 7 && data[0] == SHORT_REPORT_ID
        ||| data.len() == 20 && data[0] == LONG_REPORT_ID
    }

    /// The message that a raw report holds: the message whose frame the report
    /// is, if it is the frame of any.
    pub open spec fn spec_read_raw(data: Seq<u8>) -> Option<HidppMessage> {
        if Self::is_frame(data) {
            Some(choose|msg: HidppMessage| msg.frame() == data)
        } else {
            None
        }
    }

    /// Tries to read a HID++ message from raw data.
    pub fn read_raw(data: &[u8]) -> (r: Option<Self>)
        ensures
            r == Self::spec_read_raw(data@),
            match r {
                Some(msg) => data@ == msg.frame(),
                None => !Self::is_frame(data@),
            },
    {
        if data.len() == 0 {
            return None;
        }
        if data[0] == SHORT_REPORT_ID {
            if data.len() != SHORT_REPORT_LENGTH {
                return None;
            }
            let payload: [u8; 6] = [data[1], data[2], data[3], data[4], data[5], data[6]];
            assert(HidppMessage::Short(payload).frame() =~= data@);
            proof {
                lemma_read_written(HidppMessage::Short(payload));
            }
            return Some(HidppMessage::Short(payload));
        } else if data[0] == LONG_REPORT_ID {
            if data.len() != LONG_REPORT_LENGTH {
                return None;
            }
            let mut payload: [u8; 19] = [0u8; 19];
            let mut i: usize = 0;
            while i < 19
                invariant
                    i <= 19,
                    data.len() == 20,
                    forall|j: int| 0 <= j < i ==> payload@[j] == data@[j + 1],
                decreases 19 - i,
            {
                payload[i] = data[i + 1];
                i += 1;
            }
            assert(HidppMessage::Long(payload).frame() =~= data@);
            proof {
                lemma_read_written(HidppMessage::Long(payload));
            }
            return Some(HidppMessage::Long(payload));
        }
        None
    }

    /// The length of the frame of the message on the wire.
    pub open spec fn spec_frame_len(&self) -> usize {
        match self {
            HidppMessage::Short(_) => SHORT_REPORT_LENGTH,
            HidppMessage::Long(_) => LONG_REPORT_LENGTH,
        }
    }

    /// Writes a HID++ message in its raw byte form into a buffer.
    ///
    /// Returns the amount of written bytes. The bytes of the buffer behind
    /// them stay as they are.
    pub fn write_raw(&self, buf: &mut [u8]) -> (len: usize)
        requires
            old(buf)@.len() >= self.spec_frame_len(),
        ensures
            len == self.spec_frame_len(),
            final(buf)@.len() == old(buf)@.len(),
            final(buf)@.subrange(0, len as int) == self.frame(),
            final(buf)@.subrange(len as int, final(buf)@.len() as int) == old(buf)@.subrange(
                len as int,
                old(buf)@.len() as int,
            ),
    {
        match self {
            HidppMessage::Short(payload) => {
                buf[0] = SHORT_REPORT_ID;
                let mut i: usize = 0;
                while i < 6
                    invariant
                        i <= 6,
                        buf@.len() == old(buf)@.len(),
                        buf@.len() >= 7,
                        buf@[0] == SHORT_REPORT_ID,
                        forall|j: int| 0 <= j < i ==> buf@[j + 1] == payload@[j],
                        forall|j: int| 7 <= j < buf@.len() ==> buf@[j] == old(buf)@[j],
                    decreases 6 - i,
                {
                    buf[i + 1] = payload[i];
                    i += 1;
                }
                assert(buf@.subrange(0, 7) =~= self.frame());
                assert(buf@.subrange(7, buf@.len() as int) =~= old(buf)@.subrange(
                    7,
                    old(buf)@.len() as int,
                ));
                SHORT_REPORT_LENGTH
            },
            HidppMessage::Long(payload) => {
                buf[0] = LONG_REPORT_ID;
                let mut i: usize = 0;
                while i < 19
                    invariant
                        i <= 19,
                        buf@.len() == old(buf)@.len(),
                        buf@.len() >= 20,
                        buf@[0] == LONG_REPORT_ID,
                        forall|j: int| 0 <= j < i ==> buf@[j + 1] == payload@[j],
                        forall|j: int| 20 <= j < buf@.len() ==> buf@[j] == old(buf)@[j],
                    decreases 19 - i,
                {
                    buf[i + 1] = payload[i];
                    i += 1;
                }
                assert(buf@.subrange(0, 20) =~= self.frame());
                assert(buf@.subrange(20, buf@.len() as int) =~= old(buf)@.subrange(
                    20,
                    old(buf)@.len() as int,
                ));
                LONG_REPORT_LENGTH
            },
        }
    }

    /// The frame of the message as a vector of its own.
    pub fn to_frame(&self) -> (frame: Vec<u8>)
        ensures
            frame@ == self.frame(),
    {
        let mut frame: Vec<u8> = Vec::new();
        match self {
            HidppMessage::Short(payload) => {
                frame.push(SHORT_REPORT_ID);
                let mut i: usize = 0;
                while i < 6
                    invariant
                        i <= 6,
                        frame@ == seq![SHORT_REPORT_ID] + payload@.subrange(0, i as int),
                    decreases 6 - i,
                {
                    frame.push(payload[i]);
                    i += 1;
                    assert(frame@ =~= seq![SHORT_REPORT_ID] + payload@.subrange(0, i as int));
                }
                assert(frame@ =~= self.frame());
            },
            HidppMessage::Long(payload) => {
                frame.push(LONG_REPORT_ID);
                let mut i: usize = 0;
                while i < 19
                    invariant
                        i <= 19,
                        frame@ == seq![LONG_REPORT_ID] + payload@.subrange(0, i as int),
                    decreases 19 - i,
                {
                    frame.push(payload[i]);
                    i += 1;
                    assert(frame@ =~= seq![LONG_REPORT_ID] + payload@.subrange(0, i as int));
                }
                assert(frame@ =~= self.frame());
            },
        }
        frame
    }
}

/// Two messages with the same frame are the same message.
pub proof fn lemma_frame_injective(a: HidppMessage, b: HidppMessage)
    requires
        a.frame() == b.frame(),
    ensures
        a == b,
{
    assert(a.frame().len() == b.frame().len());
    assert(a.payload() =~= a.frame().subrange(1, a.frame().len() as int));
    assert(b.payload() =~= b.frame().subrange(1, b.frame().len() as int));
    match (a, b) {
        (HidppMessage::Short(x), HidppMessage::Short(y)) => {
            assert(x =~= y);
        },
        (HidppMessage::Long(x), HidppMessage::Long(y)) => {
            assert(x =~= y);
        },
        _ => {},
    }
}

/// Reading the frame that was written for a message gives the message back.
pub proof fn lemma_read_written(msg: HidppMessage)
    ensures
        HidppMessage::is_frame(msg.frame()),
        HidppMessage::spec_read_raw(msg.frame()) == Some(msg),
{
    let read = choose|read: HidppMessage| read.frame() == msg.frame();
    lemma_frame_injective(read, msg);
}

/// Represents an error that occurred when creating or interacting with a HID or
/// HID++ communication channel.
#[derive(Debug)]
#[non_exhaustive]
pub enum ChannelError {
    /// Indicates that the raw HID channel returned an error. Holds the
    /// description that the raw channel gave of it.
    Implementation(String),
    /// Indicates that the HID report descriptor could not be parsed. Holds
    /// the description that the parser gave of the failure.
    ReportDescriptor(String),
    /// Indicates that the channel in question does not support HID++.
    HidppNotSupported,
    /// Indicates that the HID++ channel does not support messages of the given
    /// type (short/long).
    MessageTypeNotSupported,
    /// Indicates that no response was received following a request.
    NoResponse,
}

impl ChannelError {
    /// The description of the error in words.
    pub open spec fn spec_message(&self) -> &'static str {
        match self {
            ChannelError::Implementation(_) => "the HID channel implementation returned an error",
            ChannelError::ReportDescriptor(_) => "the report descriptor could not be parsed",
            ChannelError::HidppNotSupported => "the HID channel does not support HID++",
            ChannelError::MessageTypeNotSupported =>
                "the channel does not support the given HID++ message type",
            ChannelError::NoResponse => "the device did not respond to the request",
        }
    }

    /// Describes the error in words.
    pub fn message(&self) -> (r: &'static str)
        ensures
            r == self.spec_message(),
    {
        match self {
            ChannelError::Implementation(_) => "the HID channel implementation returned an error",
            ChannelError::ReportDescriptor(_) => "the report descriptor could not be parsed",
            ChannelError::HidppNotSupported => "the HID channel does not support HID++",
            ChannelError::MessageTypeNotSupported =>
                "the channel does not support the given HID++ message type",
            ChannelError::NoResponse => "the device did not respond to the request",
        }
    }
}

/// Whether the descriptor announces short (first) and long (second) HID++
/// message reports.
pub open spec fn spec_descriptor_capabilities(descriptor: ReportDescriptor) -> (bool, bool) {
    (
        descriptor.spec_supports_usage(SHORT_REPORT_ID, SHORT_REPORT_USAGE_PAGE, SHORT_REPORT_USAGE),
        descriptor.spec_supports_usage(LONG_REPORT_ID, LONG_REPORT_USAGE_PAGE, LONG_REPORT_USAGE),
    )
}

/// Whether a raw channel supports short (first) and long (second) HID++
/// messages: what the raw channel says of itself, where it says anything, and
/// else what its report descriptor announces.
pub open spec fn spec_supports_short_long_hidpp(
    hint: Option<(bool, bool)>,
    descriptor: ReportDescriptor,
) -> (bool, bool) {
    match hint {
        Some(known) => known,
        None => spec_descriptor_capabilities(descriptor),
    }
}

/// Checks whether a raw channel supports short or long HID++ messages.
///
/// If the raw channel already knows, `hint` holds `Some((supports_short,
/// supports_long))` and the report descriptor is not looked at.
pub fn supports_short_long_hidpp(hint: Option<(bool, bool)>, descriptor: &ReportDescriptor) -> (r: (
    bool,
    bool,
))
    ensures
        r == spec_supports_short_long_hidpp(hint, *descriptor),
{
    if let Some((supports_short, supports_long)) = hint {
        return (supports_short, supports_long);
    }
    let supports_short = descriptor.supports_usage(
        SHORT_REPORT_ID,
        SHORT_REPORT_USAGE_PAGE,
        SHORT_REPORT_USAGE,
    );
    let supports_long = descriptor.supports_usage(
        LONG_REPORT_ID,
        LONG_REPORT_USAGE_PAGE,
        LONG_REPORT_USAGE,
    );
    (supports_short, supports_long)
}

/// Decides whether an incoming message is the response to a request.
///
/// A predicate looks at one incoming message only.
#[derive(Clone, Copy, PartialEq, Eq, Structural, Hash, Debug)]
pub enum ResponsePredicate {
    /// Accepts the response, or the error response, to a HID++1.0 register
    /// access.
    RegisterAccess {
        /// The index of the device that the register belongs to.
        device: u8,
        /// The kind of the access.
        msg_type: v10::MessageType,
        /// The address of the register.
        address: u8,
    },
    /// Accepts the response, or the error response, to the HID++2.0 request
    /// with the given header.
    Feature(v20::MessageHeader),
    /// Accepts the response of a HID++2.0 device, or the error response of a
    /// HID++1.0 device, to the version ping with the given header.
    VersionProbe(v20::MessageHeader),
}

impl ResponsePredicate {
    /// Whether the predicate accepts the message.
    pub open spec fn spec_accepts(self, msg: HidppMessage) -> bool {
        match self {
            ResponsePredicate::RegisterAccess { device, msg_type, address } =>
                v10::spec_is_rap_response(device, msg_type, address, msg),
            ResponsePredicate::Feature(header) => v20::spec_is_response(header, msg),
            ResponsePredicate::VersionProbe(header) => spec_is_version_reply(header, msg),
        }
    }

    /// Checks whether the predicate accepts the message.
    pub fn accepts(&self, msg: &HidppMessage) -> (r: bool)
        ensures
            r == self.spec_accepts(*msg),
    {
        match self {
            ResponsePredicate::RegisterAccess { device, msg_type, address } => v10::is_rap_response(
                *device,
                *msg_type,
                *address,
                msg,
            ),
            ResponsePredicate::Feature(header) => v20::is_response(*header, msg),
            ResponsePredicate::VersionProbe(header) => is_version_reply(*header, msg),
        }
    }
}

/// Represents a message that was sent and is waiting for a response.
#[derive(Debug)]
pub struct PendingMessage<S> {
    /// The predicate that has to match for an incoming message to be classified
    /// as the response.
    pub response_predicate: ResponsePredicate,
    /// The sink that the response message is handed to.
    pub sender: S,
}

/// The position of the earliest pending message at or after `start` whose
/// predicate accepts `msg`.
pub open spec fn spec_first_match_from<S>(
    pending: Seq<PendingMessage<S>>,
    msg: HidppMessage,
    start: int,
) -> Option<int>
    decreases pending.len() - start,
{
    if start < 0 || start >= pending.len() {
        None
    } else if pending[start].response_predicate.spec_accepts(msg) {
        Some(start)
    } else {
        spec_first_match_from(pending, msg, start + 1)
    }
}

/// The position of the earliest pending message whose predicate accepts `msg`.
pub open spec fn spec_first_match<S>(pending: Seq<PendingMessage<S>>, msg: HidppMessage) -> Option<
    int,
> {
    spec_first_match_from(pending, msg, 0)
}

/// The position of the first occurrence of `hdl` at or after `start`.
pub open spec fn spec_position_from(listeners: Seq<u32>, hdl: u32, start: int) -> Option<int>
    decreases listeners.len() - start,
{
    if start < 0 || start >= listeners.len() {
        None
    } else if listeners[start] == hdl {
        Some(start)
    } else {
        spec_position_from(listeners, hdl, start + 1)
    }
}

/// The software ID that follows `id` in the rotation `1, 2, ..., 15, 1, ...`.
pub open spec fn spec_next_sw_id(id: U4) -> U4 {
    if id.value() >= 0x0f {
        U4::spec_new(0x01)
    } else {
        U4::spec_new((id.value() + 1) as u8)
    }
}

/// What a channel holds.
pub struct ChannelState<S> {
    /// Whether the channel supports short (7 bytes) HID++ messages.
    pub supports_short: bool,
    /// Whether the channel supports long (20 bytes) HID++ messages.
    pub supports_long: bool,
    /// The vendor ID of the connected HID device.
    pub vendor_id: u16,
    /// The product ID of the connected HID device.
    pub product_id: u16,
    /// Whether the software ID rotates.
    pub rotate_software_id: bool,
    /// The software ID that the next request gets.
    pub software_id: U4,
    /// All sent messages that are waiting for a response, the earliest first.
    pub pending_messages: Seq<PendingMessage<S>>,
    /// The handles of the registered listeners, the earliest first.
    pub message_listeners: Seq<u32>,
}

impl<S> ChannelState<S> {
    /// Whether the channel supports messages of the size of `msg`.
    pub open spec fn supports_msg(self, msg: HidppMessage) -> bool {
        match msg {
            HidppMessage::Short(_) => self.supports_short,
            HidppMessage::Long(_) => self.supports_long,
        }
    }

    /// The software ID that the next request gets: the ID that the channel
    /// holds. The ID `0` is reserved for the notifications of devices, so a
    /// channel whose ID rotates hands out `1` where it holds `0`.
    pub open spec fn fresh_sw_id(self) -> U4 {
        if self.rotate_software_id && self.software_id.value() == 0 {
            U4::spec_new(0x01)
        } else {
            self.software_id
        }
    }

    /// The channel after a software ID was taken from it: where the ID
    /// rotates, the channel holds the ID that follows the one it handed out.
    pub open spec fn after_get_sw_id(self) -> Self {
        ChannelState {
            software_id: if self.rotate_software_id {
                spec_next_sw_id(self.fresh_sw_id())
            } else {
                self.software_id
            },
            ..self
        }
    }

    /// The channel with one more request at the end of the queue.
    pub open spec fn with_pending(self, response_predicate: ResponsePredicate, sender: S) -> Self {
        ChannelState {
            pending_messages: self.pending_messages.push(
                PendingMessage { response_predicate, sender },
            ),
            ..self
        }
    }

    /// The channel with one more listener.
    pub open spec fn with_listener(self, hdl: u32) -> Self {
        ChannelState { message_listeners: self.message_listeners.push(hdl), ..self }
    }

    /// The channel without the listener that is registered under `hdl`, if
    /// there is one. The other listeners keep their order.
    pub open spec fn without_listener(self, hdl: u32) -> Self {
        match spec_position_from(self.message_listeners, hdl, 0) {
            Some(pos) => ChannelState {
                message_listeners: self.message_listeners.remove(pos),
                ..self
            },
            None => self,
        }
    }
}

/// What the channel hands out for an incoming message.
#[derive(Debug)]
pub struct Delivery<S> {
    /// The message that came in.
    pub message: HidppMessage,
    /// The sink of the request that the message answers, if it answers any.
    pub sender: Option<S>,
    /// The handles of the listeners that are to be told of the message, in the
    /// order in which they are to be told. Each of them gets the message and
    /// whether it answered a request.
    pub listeners: Vec<u32>,
}

/// Represents a HID communication channel supporting HID++.
///
/// The channel does no I/O of its own. It hands out the frames that are to be
/// written to the raw HID channel, and takes the reports that were read from
/// it. `S` is the type of the sinks through which responses reach those who
/// wait for them.
#[derive(Debug)]
pub struct HidppChannel<S> {
    /// Whether the channel supports short (7 bytes) HID++ messages.
    supports_short: bool,
    /// Whether the channel supports long (20 bytes) HID++ messages.
    supports_long: bool,
    /// The vendor ID of the connected HID device.
    vendor_id: u16,
    /// The product ID of the connected HID device.
    product_id: u16,
    /// Whether to rotate the software ID.
    rotate_software_id: bool,
    /// The software ID to provide at the next call to [`Self::get_sw_id`].
    software_id: U4,
    /// All sent messages that are waiting for a response.
    pending_messages: VecDeque<PendingMessage<S>>,
    /// The handles of the registered listeners that will receive notifications
    /// about incoming messages.
    message_listeners: Vec<u32>,
}

impl<S> View for HidppChannel<S> {
    type V = ChannelState<S>;

    closed spec fn view(&self) -> ChannelState<S> {
        ChannelState {
            supports_short: self.supports_short,
            supports_long: self.supports_long,
            vendor_id: self.vendor_id,
            product_id: self.product_id,
            rotate_software_id: self.rotate_software_id,
            software_id: self.software_id,
            pending_messages: self.pending_messages@,
            message_listeners: self.message_listeners@,
        }
    }
}

/// Draws a listener handle at random.
///
/// Calls `rand::random`, which draws from the thread-local generator of the
/// `rand` crate. Nothing is claimed of the number that comes back.
#[verifier::external_body]
fn random_handle() -> u32 {
    rand::random::<u32>()
}

impl<S> HidppChannel<S> {
    /// A channel is well-formed when no listener handle is registered twice,
    /// when its software ID fits into four bits, and when it supports at least
    /// one size of message.
    pub open spec fn wf(&self) -> bool {
        &&& self@.message_listeners.no_duplicates()
        &&& self@.software_id.wf()
        &&& (self@.supports_short || self@.supports_long)
    }

    /// Tries to construct a HID++ channel for a raw HID channel with the given
    /// vendor and product ID.
    ///
    /// `hint` is what the raw channel knows of its support for short and long
    /// HID++ messages, if it knows anything, and `descriptor` is its report
    /// descriptor, which is looked at only if there is no hint.
    ///
    /// If the raw channel supports neither size of message,
    /// [`ChannelError::HidppNotSupported`] will be returned. The new channel
    /// has the software ID `0x01`, which does not rotate, no pending message
    /// and no listener.
    pub fn from_raw_channel(
        hint: Option<(bool, bool)>,
        descriptor: &ReportDescriptor,
        vendor_id: u16,
        product_id: u16,
    ) -> (r: Result<Self, ChannelError>)
        ensures
            ({
                let (supports_short, supports_long) = spec_supports_short_long_hidpp(
                    hint,
                    *descriptor,
                );
                if !supports_short && !supports_long {
                    r is Err && r->Err_0 is HidppNotSupported
                } else {
                    &&& r is Ok
                    &&& r->Ok_0.wf()
                    &&& r->Ok_0@ == (ChannelState::<S> {
                        supports_short,
                        supports_long,
                        vendor_id,
                        product_id,
                        rotate_software_id: false,
                        software_id: U4::spec_from_lo(0x01),
                        pending_messages: Seq::empty(),
                        message_listeners: Seq::empty(),
                    })
                }
            }),
    {
        let (supports_short, supports_long) = supports_short_long_hidpp(hint, descriptor);

        if !supports_short && !supports_long {
            return Err(ChannelError::HidppNotSupported);
        }
        let software_id = U4::from_lo(0x01);

        Ok(
            Self {
                supports_short,
                supports_long,
                vendor_id,
                product_id,
                rotate_software_id: false,
                software_id,
                pending_messages: VecDeque::new(),
                message_listeners: Vec::new(),
            },
        )
    }

    /// Whether the channel supports short (7 bytes) HID++ messages.
    pub fn supports_short(&self) -> (r: bool)
        ensures
            r == self@.supports_short,
    {
        self.supports_short
    }

    /// Whether the channel supports long (20 bytes) HID++ messages.
    pub fn supports_long(&self) -> (r: bool)
        ensures
            r == self@.supports_long,
    {
        self.supports_long
    }

    /// The vendor ID of the connected HID device.
    pub fn vendor_id(&self) -> (r: u16)
        ensures
            r == self@.vendor_id,
    {
        self.vendor_id
    }

    /// The product ID of the connected HID device.
    pub fn product_id(&self) -> (r: u16)
        ensures
            r == self@.product_id,
    {
        self.product_id
    }

    /// The number of sent messages that are waiting for a response.
    pub fn pending_count(&self) -> (r: usize)
        ensures
            r == self@.pending_messages.len(),
    {
        self.pending_messages.len()
    }

    /// The handles of the registered listeners, the earliest first.
    pub fn listeners(&self) -> (r: &Vec<u32>)
        ensures
            r@ == self@.message_listeners,
    {
        &self.message_listeners
    }

    /// Sets the software ID that should be returned by the next call to
    /// [`Self::get_sw_id`].
    ///
    /// Using software ID `0` is highly discouraged as it is used for device
    /// notifications.
    pub fn set_sw_id(&mut self, sw_id: U4)
        ensures
            final(self)@ == (ChannelState { software_id: sw_id, ..old(self)@ }),
            sw_id.wf(),
    {
        proof {
            use_type_invariant(sw_id);
        }
        self.software_id = sw_id;
    }

    /// Sets whether the software ID returned by a call to [`Self::get_sw_id`]
    /// should increment (and potentially wrap around) after each call.
    ///
    /// This comes in handy when trying to map responses to requests
    /// consistently.
    ///
    /// Software ID `0` will be skipped in the rotation process as it is
    /// reserved for device notifications.
    pub fn set_rotating_sw_id(&mut self, enable: bool)
        ensures
            final(self)@ == (ChannelState { rotate_software_id: enable, ..old(self)@ }),
    {
        self.rotate_software_id = enable;
    }

    /// Provides a software ID that can be used to send a HID++ message across
    /// the channel.
    ///
    /// This method should be called separately for every message to send as it
    /// may rotate (as indicated by [`Self::set_rotating_sw_id`]).
    ///
    /// Where the ID does not rotate, the ID that the channel holds is handed
    /// out, and the channel keeps it. Where it rotates, the ID that is handed
    /// out is never `0`: it is the ID that the channel holds, or `1` if the
    /// channel holds `0`, and the channel then holds the ID that follows it in
    /// the rotation `1, 2, ..., 15, 1, ...`.
    pub fn get_sw_id(&mut self) -> (r: U4)
        ensures
            r == old(self)@.fresh_sw_id(),
            r.wf(),
            old(self)@.rotate_software_id ==> 1 <= r.value() <= 15,
            final(self)@ == old(self)@.after_get_sw_id(),
            old(self)@.rotate_software_id ==> 1 <= final(self)@.software_id.value() <= 15,
            old(self).wf() ==> final(self).wf(),
    {
        let held = self.software_id;
        proof {
            use_type_invariant(held);
            crate::nibble::lemma_wf_bound(held);
        }
        if !self.rotate_software_id {
            return held;
        }
        let raw = held.to_lo();
        let current: u8 = if raw == 0 {
            0x01
        } else {
            raw
        };
        let next: u8 = if current >= 0x0f {
            0x01
        } else {
            current + 1
        };
        proof {
            assert(next & 0x0f == next) by (bit_vector)
                requires
                    next < 16,
            ;
            assert(current & 0x0f == current) by (bit_vector)
                requires
                    current < 16,
            ;
            lemma_new_value(current);
            lemma_new_value(next);
        }
        self.software_id = U4::from_lo(next);
        let handed_out = U4::from_lo(current);
        proof {
            if raw != 0 {
                crate::nibble::lemma_value_injective(handed_out, held);
            }
        }
        handed_out
    }

    /// Whether the channel supports messages of the size of `msg`.
    pub open spec fn spec_supports_msg(&self, msg: HidppMessage) -> bool {
        self@.supports_msg(msg)
    }

    /// Checks whether the channel supports the given HID++ message.
    pub fn supports_msg(&self, msg: &HidppMessage) -> (r: bool)
        ensures
            r == self.spec_supports_msg(*msg),
    {
        match msg {
            HidppMessage::Short(_) => self.supports_short,
            HidppMessage::Long(_) => self.supports_long,
        }
    }

    /// Enqueues a request for sending and waiting for a response.
    ///
    /// The request is put behind all requests that are waiting already, and
    /// the frame of the message is handed out. The caller writes that frame to
    /// the raw channel. The response reaches `sender` through
    /// [`Self::dispatch`].
    ///
    /// If no response is expected/required, use [`Self::send_and_forget`].
    ///
    /// Fails with [`ChannelError::MessageTypeNotSupported`], and enqueues
    /// nothing, if the channel does not support messages of the size of `msg`.
    pub fn send(&mut self, msg: HidppMessage, response_predicate: ResponsePredicate, sender: S) -> (r:
        Result<Vec<u8>, ChannelError>)
        ensures
            old(self).spec_supports_msg(msg) ==> {
                &&& r is Ok
                &&& r->Ok_0@ == msg.frame()
                &&& final(self)@ == old(self)@.with_pending(response_predicate, sender)
            },
            !old(self).spec_supports_msg(msg) ==> {
                &&& r is Err
                &&& r->Err_0 is MessageTypeNotSupported
                &&& final(self)@ == old(self)@
            },
    {
        if !self.supports_msg(&msg) {
            return Err(ChannelError::MessageTypeNotSupported);
        }
        self.pending_messages.push_back(PendingMessage { response_predicate, sender });

        self.send_and_forget(msg)
    }

    /// Hands out the frame of a message that is sent without waiting for a
    /// response. The caller writes that frame to the raw channel.
    ///
    /// If a response is expected, use [`Self::send`].
    ///
    /// Fails with [`ChannelError::MessageTypeNotSupported`] if the channel does
    /// not support messages of the size of `msg`.
    pub fn send_and_forget(&self, msg: HidppMessage) -> (r: Result<Vec<u8>, ChannelError>)
        ensures
            self.spec_supports_msg(msg) ==> r is Ok && r->Ok_0@ == msg.frame(),
            !self.spec_supports_msg(msg) ==> r is Err && r->Err_0 is MessageTypeNotSupported,
    {
        if !self.supports_msg(&msg) {
            return Err(ChannelError::MessageTypeNotSupported);
        }
        Ok(msg.to_frame())
    }

    /// What a waiting request ends with: the response that reached its sink,
    /// or [`ChannelError::NoResponse`] if the sink was closed without one, as
    /// it is when the channel shuts down.
    pub fn response(outcome: Option<HidppMessage>) -> (r: Result<HidppMessage, ChannelError>)
        ensures
            match outcome {
                Some(msg) => r == Ok::<HidppMessage, ChannelError>(msg),
                None => r is Err && r->Err_0 is NoResponse,
            },
    {
        match outcome {
            Some(msg) => Ok(msg),
            None => Err(ChannelError::NoResponse),
        }
    }

    /// Takes a report that was read from the raw channel.
    ///
    /// A report that is no HID++ frame is ignored: nothing is handed out and
    /// nothing changes. A HID++ message is handed to the earliest pending
    /// request whose predicate accepts it, which then leaves the queue, and
    /// to no other. After that every listener is to be told of the message.
    pub fn dispatch(&mut self, report: &[u8]) -> (r: Option<Delivery<S>>)
        ensures
            !HidppMessage::is_frame(report@) ==> r is None && final(self)@ == old(self)@,
            HidppMessage::is_frame(report@) ==> {
                &&& r is Some
                &&& r->0.message.frame() == report@
                &&& r->0.listeners@ == old(self)@.message_listeners
                &&& match spec_first_match(old(self)@.pending_messages, r->0.message) {
                    Some(pos) => {
                        &&& 0 <= pos < old(self)@.pending_messages.len()
                        &&& r->0.sender == Some(old(self)@.pending_messages[pos].sender)
                        &&& final(self)@ == (ChannelState {
                            pending_messages: old(self)@.pending_messages.remove(pos),
                            ..old(self)@
                        })
                    },
                    None => r->0.sender is None && final(self)@ == old(self)@,
                }
            },
    {
        let msg = match HidppMessage::read_raw(report) {
            Some(msg) => msg,
            None => {
                return None;
            },
        };
        let n = self.pending_messages.len();
        let mut pos: usize = 0;
        let mut found = false;
        while pos < n && !found
            invariant
                pos <= n,
                n == self.pending_messages@.len(),
                found ==> pos < n && self.pending_messages@[pos as int].response_predicate.spec_accepts(
                    msg,
                ),
                spec_first_match_from(self.pending_messages@, msg, pos as int) == spec_first_match(
                    self.pending_messages@,
                    msg,
                ),
            decreases n - pos + (if found { 0int } else { 1int }),
        {
            if self.pending_messages[pos].response_predicate.accepts(&msg) {
                found = true;
            } else {
                pos += 1;
            }
        }
        let sender = if found {
            match self.pending_messages.remove(pos) {
                Some(waiting) => Some(waiting.sender),
                None => None,
            }
        } else {
            None
        };
        let listeners = self.message_listeners.clone();
        Some(Delivery { message: msg, sender, listeners })
    }

    /// Shuts the channel down: every pending request leaves the queue without
    /// a response. Hands out their sinks, the earliest first, for the caller
    /// to close.
    pub fn close(&mut self) -> (r: Vec<S>)
        ensures
            r@.len() == old(self)@.pending_messages.len(),
            forall|i: int| 0 <= i < r@.len() ==> r@[i] == old(self)@.pending_messages[i].sender,
            final(self)@ == (ChannelState { pending_messages: Seq::empty(), ..old(self)@ }),
    {
        let mut senders: Vec<S> = Vec::new();
        let ghost all = self.pending_messages@;
        while self.pending_messages.len() > 0
            invariant
                senders@.len() + self.pending_messages@.len() == all.len(),
                forall|i: int| 0 <= i < senders@.len() ==> senders@[i] == all[i].sender,
                forall|i: int|
                    0 <= i < self.pending_messages@.len() ==> self.pending_messages@[i] == all[i
                        + senders@.len()],
                self@ == (ChannelState { pending_messages: self.pending_messages@, ..old(self)@ }),
            decreases self.pending_messages@.len(),
        {
            match self.pending_messages.pop_front() {
                Some(waiting) => {
                    senders.push(waiting.sender);
                },
                None => {},
            }
        }
        assert(self.pending_messages@ =~= Seq::empty());
        senders
    }

    /// Checks whether a listener is registered under the handle.
    pub fn has_msg_listener(&self, hdl: u32) -> (r: bool)
        ensures
            r == self@.message_listeners.contains(hdl),
    {
        let n = self.message_listeners.len();
        let mut i: usize = 0;
        while i < n
            invariant
                i <= n,
                n == self.message_listeners@.len(),
                forall|j: int| 0 <= j < i ==> self.message_listeners@[j] != hdl,
            decreases n - i,
        {
            if self.message_listeners[i] == hdl {
                return true;
            }
            i += 1;
        }
        false
    }

    /// Registers a listener that is to be told of every incoming message.
    ///
    /// Returns a handle that can be used to remove the listener using a call to
    /// [`Self::remove_msg_listener`]. The handle is drawn at random; if it is
    /// taken, the next free handle after it is used.
    pub fn add_msg_listener(&mut self) -> (hdl: u32)
        requires
            old(self).wf(),
            old(self)@.message_listeners.len() <= u32::MAX,
        ensures
            final(self).wf(),
            !old(self)@.message_listeners.contains(hdl),
            final(self)@ == old(self)@.with_listener(hdl),
    {
        let candidate = random_handle();
        self.add_msg_listener_from(candidate)
    }

    /// Registers a listener under the first free handle at or after
    /// `candidate`, where the handle after `u32::MAX` is `0`.
    pub fn add_msg_listener_from(&mut self, candidate: u32) -> (hdl: u32)
        requires
            old(self).wf(),
            old(self)@.message_listeners.len() <= u32::MAX,
        ensures
            final(self).wf(),
            !old(self)@.message_listeners.contains(hdl),
            final(self)@ == old(self)@.with_listener(hdl),
            exists|k: int|
                0 <= k <= old(self)@.message_listeners.len() && hdl == spec_probe(candidate, k) && (
                forall|j: int|
                    0 <= j < k ==> old(self)@.message_listeners.contains(
                        #[trigger] spec_probe(candidate, j),
                    )),
    {
        let n = self.message_listeners.len();
        let mut hdl = candidate;
        let mut k: usize = 0;
        while self.has_msg_listener(hdl)
            invariant
                self@ == old(self)@,
                n == self@.message_listeners.len(),
                n <= u32::MAX,
                k <= n,
                hdl == spec_probe(candidate, k as int),
                forall|j: int|
                    0 <= j < k ==> self@.message_listeners.contains(
                        #[trigger] spec_probe(candidate, j),
                    ),
            decreases n - k,
        {
            proof {
                lemma_probes_fit(self@.message_listeners, candidate, k as int + 1);
            }
            hdl = if hdl == u32::MAX {
                0
            } else {
                hdl + 1
            };
            k += 1;
        }
        proof {
            let before = self@.message_listeners;
            assert forall|i: int, j: int|
                0 <= i < before.push(hdl).len() && 0 <= j < before.push(hdl).len() && i
                    != j implies before.push(hdl)[i] != before.push(hdl)[j] by {
                if i < before.len() {
                    assert(before.contains(before[i]));
                }
                if j < before.len() {
                    assert(before.contains(before[j]));
                }
            }
        }
        self.message_listeners.push(hdl);
        hdl
    }

    /// Removes a previously registered message listener.
    ///
    /// Returns whether a listener was found using the given handle. The other
    /// listeners keep their order.
    pub fn remove_msg_listener(&mut self, hdl: u32) -> (r: bool)
        ensures
            r == old(self)@.message_listeners.contains(hdl),
            old(self).wf() ==> final(self).wf() && !final(self)@.message_listeners.contains(hdl),
            final(self)@ == old(self)@.without_listener(hdl),
            final(self)@.message_listeners.len() == old(self)@.message_listeners.len() - (if r {
                1int
            } else {
                0int
            }),
    {
        let n = self.message_listeners.len();
        let mut pos: usize = 0;
        while pos < n
            invariant
                pos <= n,
                self@ == old(self)@,
                n == self.message_listeners@.len(),
                forall|j: int| 0 <= j < pos ==> self.message_listeners@[j] != hdl,
                spec_position_from(self.message_listeners@, hdl, pos as int) == spec_position_from(
                    self.message_listeners@,
                    hdl,
                    0,
                ),
            decreases n - pos,
        {
            if self.message_listeners[pos] == hdl {
                let ghost before = self.message_listeners@;
                self.message_listeners.remove(pos);
                proof {
                    let after = before.remove(pos as int);
                    if before.no_duplicates() {
                        assert forall|i: int, j: int|
                            0 <= i < after.len() && 0 <= j < after.len() && i != j implies after[i]
                            != after[j] by {
                            let a = if i < pos { i } else { i + 1 };
                            let b = if j < pos { j } else { j + 1 };
                            assert(after[i] == before[a] && after[j] == before[b]);
                        }
                        assert forall|i: int| 0 <= i < after.len() implies after[i] != hdl by {
                            let a = if i < pos { i } else { i + 1 };
                            assert(after[i] == before[a]);
                        }
                    }
                }
                return true;
            }
            pos += 1;
        }
        false
    }
}

/// Removing a listener brings no listener in: whoever is registered after it
/// was registered before it.
pub proof fn lemma_without_listener<S>(state: ChannelState<S>, hdl: u32)
    ensures
        forall|h: u32|
            state.without_listener(hdl).message_listeners.contains(h)
                ==> state.message_listeners.contains(h),
        state.without_listener(hdl).message_listeners.len() <= state.message_listeners.len(),
{
    let before = state.message_listeners;
    let after = state.without_listener(hdl).message_listeners;
    match spec_position_from(before, hdl, 0) {
        Some(pos) => {
            lemma_position_from(before, hdl, 0);
            assert forall|h: u32| after.contains(h) implies before.contains(h) by {
                let i = choose|i: int| 0 <= i < after.len() && after[i] == h;
                if i < pos {
                    assert(before[i] == h);
                } else {
                    assert(before[i + 1] == h);
                }
            }
        },
        None => {},
    }
}

/// Where a search for a handle ends: at a position of the list.
pub proof fn lemma_position_from(listeners: Seq<u32>, hdl: u32, start: int)
    requires
        0 <= start,
    ensures
        match spec_position_from(listeners, hdl, start) {
            Some(pos) => start <= pos < listeners.len() && listeners[pos] == hdl,
            None => forall|j: int| start <= j < listeners.len() ==> listeners[j] != hdl,
        },
    decreases listeners.len() - start,
{
    if start < listeners.len() && listeners[start] != hdl {
        lemma_position_from(listeners, hdl, start + 1);
    }
}

/// The `k`-th handle that is tried for a new listener after the handle
/// `candidate` was drawn.
pub open spec fn spec_probe(candidate: u32, k: int) -> u32 {
    ((candidate + k) % 0x1_0000_0000) as u32
}

/// If the first `m` handles that are tried are all taken, there are at least
/// `m` listeners.
proof fn lemma_probes_fit(listeners: Seq<u32>, candidate: u32, m: int)
    requires
        0 <= m <= 0x1_0000_0000,
        forall|j: int| 0 <= j < m ==> listeners.contains(#[trigger] spec_probe(candidate, j)),
    ensures
        m <= listeners.len(),
{
    let probes = Seq::new(m as nat, |j: int| spec_probe(candidate, j));
    assert forall|i: int, j: int| 0 <= i < m && 0 <= j < m && i != j implies probes[i]
        != probes[j] by {
        assert(probes[i] == spec_probe(candidate, i));
        assert(probes[j] == spec_probe(candidate, j));
    }
    probes.unique_seq_to_set();
    listeners.lemma_cardinality_of_set();
    assert forall|h: u32| probes.to_set().contains(h) implies listeners.to_set().contains(h) by {
        let j = choose|j: int| 0 <= j < m && probes[j] == h;
        assert(listeners.contains(spec_probe(candidate, j)));
    }
    vstd::set_lib::lemma_len_subset(probes.to_set(), listeners.to_set());
}

/// The software ID that a rotating channel hands out at the `k`-th call of
/// [`HidppChannel::get_sw_id`] after it held `start`, counting from zero.
pub open spec fn spec_sw_id_after(start: U4, k: nat) -> U4
    decreases k,
{
    if k == 0 {
        if start.value() == 0 {
            U4::spec_new(0x01)
        } else {
            start
        }
    } else {
        spec_next_sw_id(spec_sw_id_after(start, (k - 1) as nat))
    }
}

/// Whatever software ID a rotating channel holds, it hands out the IDs
/// `1, 2, ..., 15, 1, 2, ...` in that order, starting at the one it holds, or
/// at `1` if it holds `0`, and never hands out `0`.
pub proof fn lemma_sw_id_rotation(start: U4, k: nat)
    requires
        start.wf(),
    ensures
        spec_sw_id_after(start, k).value() == ((if start.value() == 0 {
            1int
        } else {
            start.value() as int
        }) - 1 + k) % 15 + 1,
        1 <= spec_sw_id_after(start, k).value() <= 15,
        spec_sw_id_after(start, k).wf(),
    decreases k,
{
    crate::nibble::lemma_wf_bound(start);
    crate::nibble::lemma_wf_bound(spec_sw_id_after(start, k));
    if k == 0 {
        lemma_new_value(0x01);
    } else {
        let before = spec_sw_id_after(start, (k - 1) as nat);
        lemma_sw_id_rotation(start, (k - 1) as nat);
        if before.value() >= 0x0f {
            lemma_new_value(0x01);
        } else {
            lemma_new_value((before.value() + 1) as u8);
        }
    }
}

/// The software ID that a channel whose ID rotates gives to the next request
/// is one of `1, ..., 15`, whatever ID the channel holds.
pub proof fn lemma_fresh_sw_id<S>(state: ChannelState<S>)
    requires
        state.software_id.wf(),
    ensures
        state.fresh_sw_id().wf(),
        state.rotate_software_id ==> 1 <= state.fresh_sw_id().value() <= 15,
        !state.rotate_software_id ==> state.fresh_sw_id() == state.software_id,
        state.after_get_sw_id().software_id.wf(),
        state.rotate_software_id ==> 1 <= state.after_get_sw_id().software_id.value() <= 15,
{
    crate::nibble::lemma_wf_bound(state.software_id);
    lemma_new_value(0x01);
    crate::nibble::lemma_wf_bound(state.fresh_sw_id());
    if state.fresh_sw_id().value() < 0x0f {
        lemma_new_value((state.fresh_sw_id().value() + 1) as u8);
    }
    crate::nibble::lemma_wf_bound(state.after_get_sw_id().software_id);
}

/// The channel after `k` software IDs were taken from it.
pub open spec fn spec_state_after_calls<S>(state: ChannelState<S>, k: nat) -> ChannelState<S>
    decreases k,
{
    if k == 0 {
        state
    } else {
        spec_state_after_calls(state, (k - 1) as nat).after_get_sw_id()
    }
}

/// What a rotating channel hands out call after call is what
/// [`spec_sw_id_after`] says: the ID of the `k`-th call is the fresh ID of the
/// channel that the `k` calls before it have left.
pub proof fn lemma_sw_id_of_calls<S>(state: ChannelState<S>, k: nat)
    requires
        state.rotate_software_id,
        state.software_id.wf(),
    ensures
        spec_state_after_calls(state, k).rotate_software_id,
        spec_state_after_calls(state, k).fresh_sw_id() == spec_sw_id_after(state.software_id, k),
    decreases k,
{
    if k > 0 {
        lemma_sw_id_of_calls(state, (k - 1) as nat);
        lemma_sw_id_rotation(state.software_id, k);
    }
}

/// The queue of pending messages after one incoming message: the earliest
/// pending message whose predicate accepts it has left.
pub open spec fn spec_queue_step<S>(pending: Seq<PendingMessage<S>>, msg: HidppMessage) -> Seq<
    PendingMessage<S>,
> {
    match spec_first_match(pending, msg) {
        Some(pos) => pending.remove(pos),
        None => pending,
    }
}

/// The queue of pending messages after the incoming messages `msgs`, the
/// earliest first.
pub open spec fn spec_queue_after<S>(pending: Seq<PendingMessage<S>>, msgs: Seq<HidppMessage>) -> Seq<
    PendingMessage<S>,
>
    decreases msgs.len(),
{
    if msgs.len() == 0 {
        pending
    } else {
        spec_queue_step(spec_queue_after(pending, msgs.drop_last()), msgs.last())
    }
}

/// Where the pending message that stood at `index` stands after the incoming
/// messages `msgs`, or `None` if one of them was handed to it.
pub open spec fn spec_position_after<S>(
    pending: Seq<PendingMessage<S>>,
    index: int,
    msgs: Seq<HidppMessage>,
) -> Option<int>
    decreases msgs.len(),
{
    if msgs.len() == 0 {
        Some(index)
    } else {
        match spec_position_after(pending, index, msgs.drop_last()) {
            None => None,
            Some(at) => match spec_first_match(
                spec_queue_after(pending, msgs.drop_last()),
                msgs.last(),
            ) {
                Some(pos) => if pos == at {
                    None
                } else if pos < at {
                    Some(at - 1)
                } else {
                    Some(at)
                },
                None => Some(at),
            },
        }
    }
}

/// The first match is a position in the queue whose predicate accepts the
/// message, and no earlier predicate accepts it. Where there is none, no
/// predicate accepts the message.
pub proof fn lemma_first_match<S>(pending: Seq<PendingMessage<S>>, msg: HidppMessage)
    ensures
        match spec_first_match(pending, msg) {
            Some(pos) => {
                &&& 0 <= pos < pending.len()
                &&& pending[pos].response_predicate.spec_accepts(msg)
                &&& forall|j: int|
                    0 <= j < pos ==> !(#[trigger] pending[j]).response_predicate.spec_accepts(msg)
            },
            None => forall|j: int|
                0 <= j < pending.len() ==> !(#[trigger] pending[j]).response_predicate.spec_accepts(
                    msg,
                ),
        },
{
    lemma_first_match_from(pending, msg, 0);
}

proof fn lemma_first_match_from<S>(pending: Seq<PendingMessage<S>>, msg: HidppMessage, start: int)
    requires
        0 <= start,
    ensures
        match spec_first_match_from(pending, msg, start) {
            Some(pos) => {
                &&& start <= pos < pending.len()
                &&& pending[pos].response_predicate.spec_accepts(msg)
                &&& forall|j: int|
                    start <= j < pos ==> !(#[trigger] pending[j]).response_predicate.spec_accepts(
                        msg,
                    )
            },
            None => forall|j: int|
                start <= j < pending.len() ==> !(
                #[trigger] pending[j]).response_predicate.spec_accepts(msg),
        },
    decreases pending.len() - start,
{
    if start < pending.len() && !pending[start].response_predicate.spec_accepts(msg) {
        lemma_first_match_from(pending, msg, start + 1);
    }
}

/// As long as a pending message has not been answered, it stands in the
/// queue, at the position that [`spec_position_after`] gives.
pub proof fn lemma_position_tracks<S>(
    pending: Seq<PendingMessage<S>>,
    index: int,
    msgs: Seq<HidppMessage>,
)
    requires
        0 <= index < pending.len(),
    ensures
        match spec_position_after(pending, index, msgs) {
            Some(at) => 0 <= at < spec_queue_after(pending, msgs).len() && spec_queue_after(
                pending,
                msgs,
            )[at] == pending[index],
            None => true,
        },
    decreases msgs.len(),
{
    if msgs.len() > 0 {
        lemma_position_tracks(pending, index, msgs.drop_last());
        lemma_first_match(spec_queue_after(pending, msgs.drop_last()), msgs.last());
    }
}

/// A request is answered by the first incoming message that its predicate
/// accepts and that no request before it in the queue has taken.
///
/// Let the pending message at `index` be handed the message `msgs[k]`. Then
/// its predicate accepts `msgs[k]`. And each earlier message `msgs[j]` that
/// its predicate accepts as well was handed to a request that stood before
/// it in the queue when `msgs[j]` came in.
pub proof fn lemma_answered_by_first_unconsumed<S>(
    pending: Seq<PendingMessage<S>>,
    index: int,
    msgs: Seq<HidppMessage>,
    k: int,
)
    requires
        0 <= index < pending.len(),
        0 <= k < msgs.len(),
        spec_position_after(pending, index, msgs.take(k)) is Some,
        spec_position_after(pending, index, msgs.take(k + 1)) is None,
    ensures
        pending[index].response_predicate.spec_accepts(msgs[k]),
        forall|j: int|
            0 <= j < k && pending[index].response_predicate.spec_accepts(#[trigger] msgs[j]) ==> {
                &&& spec_position_after(pending, index, msgs.take(j)) is Some
                &&& spec_first_match(spec_queue_after(pending, msgs.take(j)), msgs[j]) is Some
                &&& spec_first_match(spec_queue_after(pending, msgs.take(j)), msgs[j])->0
                    < spec_position_after(pending, index, msgs.take(j))->0
            },
{
    let pred = pending[index].response_predicate;
    assert(msgs.take(k + 1).drop_last() =~= msgs.take(k));
    assert(msgs.take(k + 1).last() == msgs[k]);
    lemma_position_tracks(pending, index, msgs.take(k));
    lemma_first_match(spec_queue_after(pending, msgs.take(k)), msgs[k]);
    assert forall|j: int| 0 <= j < k && pred.spec_accepts(#[trigger] msgs[j]) implies {
        &&& spec_position_after(pending, index, msgs.take(j)) is Some
        &&& spec_first_match(spec_queue_after(pending, msgs.take(j)), msgs[j]) is Some
        &&& spec_first_match(spec_queue_after(pending, msgs.take(j)), msgs[j])->0
            < spec_position_after(pending, index, msgs.take(j))->0
    } by {
        lemma_still_waiting(pending, index, msgs, k, j + 1);
        lemma_still_waiting(pending, index, msgs, k, j);
        assert(msgs.take(j + 1).drop_last() =~= msgs.take(j));
        assert(msgs.take(j + 1).last() == msgs[j]);
        lemma_position_tracks(pending, index, msgs.take(j));
        lemma_first_match(spec_queue_after(pending, msgs.take(j)), msgs[j]);
    }
}

/// A request that is still waiting after `k` messages was waiting after each
/// smaller number of them.
proof fn lemma_still_waiting<S>(
    pending: Seq<PendingMessage<S>>,
    index: int,
    msgs: Seq<HidppMessage>,
    k: int,
    j: int,
)
    requires
        0 <= j <= k <= msgs.len(),
        spec_position_after(pending, index, msgs.take(k)) is Some,
    ensures
        spec_position_after(pending, index, msgs.take(j)) is Some,
    decreases k - j,
{
    if j < k {
        assert(msgs.take(k).drop_last() =~= msgs.take(k - 1));
        lemma_still_waiting(pending, index, msgs, k - 1, j);
    }
}

} // verus!
