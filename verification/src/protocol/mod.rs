//! Implements the protocol-specific parts of HID++.

pub mod v10;
pub mod v20;

use vstd::prelude::*;
use crate::channel::ChannelError;
use crate::channel::ChannelState;
use crate::channel::HidppChannel;
use crate::channel::HidppMessage;
use crate::channel::ResponsePredicate;
use crate::nibble::U4;
use crate::nibble::combine;

verus! {

/// Represents the protocol version a device supports.
#[derive(Clone, Copy, PartialEq, Eq, Structural, Hash, Debug)]
pub enum ProtocolVersion {
    /// The older HID++1.0 protocol. Mostly used for receivers.
    V10,
    /// All newer protocols starting from HID+2.0.
    ///
    /// Traditionally, the version was split into a major and a minor version,
    /// defining the concrete protocol version. These two values were later
    /// redefined to serve the purpose of indicating which host software to
    /// target.
    V20 {
        /// The protocol number is a field that hints the host software if it
        /// should support the device.
        protocol_num: u8,
        /// When `protocol_num >= 3` this field further hints at which software
        /// should support the device. Otherwise the value is zero.
        target_sw: u8,
    },
}

/// The header of the ping that asks a device for its protocol version: the
/// function `0x1` of the feature with the index `0x00`.
pub open spec fn spec_version_probe_header(device_index: u8, software_id: U4) -> v20::MessageHeader {
    v20::MessageHeader {
        device_index,
        feature_index: 0x00,
        function_id: U4::spec_from_lo(0x1),
        software_id,
    }
}

/// Whether `response` answers the version ping with the given header: either
/// a HID++2.0 message with the very same header, or a short HID++1.0 error
/// message of the same device that names the feature index of the ping as
/// the sub ID it rejected, and the function byte of the ping as the address.
pub open spec fn spec_is_version_reply(header: v20::MessageHeader, response: HidppMessage) -> bool {
    v20::Message::spec_from_hidpp(response).spec_header() == header || match v10::Message::spec_from_hidpp(
        response,
    ) {
        v10::Message::Short(reply, payload) => reply.device_index == header.device_index
            && reply.sub_id == v10::MessageType::Error.code() && payload[0] == header.feature_index
            && payload[1] == header.function_byte(),
        v10::Message::Long(_, _) => false,
    }
}

/// Checks whether a message answers the version ping with the given header.
pub fn is_version_reply(header: v20::MessageHeader, response: &HidppMessage) -> (r: bool)
    ensures
        r == spec_is_version_reply(header, *response),
{
    // If we receive a valid HID++2.0 response, we'll use that.
    if v20::Message::from(*response).header() == header {
        return true;
    }
    // We only care about HID++1.0 error messages, which are always short.
    match v10::Message::from(*response) {
        v10::Message::Short(reply, payload) => reply.device_index == header.device_index
            && reply.sub_id == u8::from(v10::MessageType::Error)
            // The feature index we sent would be interpreted as the sub ID by HID++1.0,
            // which is included in the error message.
            && payload[0] == header.feature_index
            // The function & software IDs would be interpreted as the register address
            // in HID++1.0.
            && payload[1] == combine(header.function_id, header.software_id),
        v10::Message::Long(_, _) => false,
    }
}

/// What starting a version probe does: a software ID is taken from the
/// channel, and a short ping with that ID and the payload `[0, 0, 0]` is
/// enqueued, which waits for a version reply. The frame of the ping and its
/// header are handed out. Where the channel does not support short messages,
/// nothing is enqueued.
pub open spec fn spec_version_probed<S>(
    before: ChannelState<S>,
    after: ChannelState<S>,
    device_index: u8,
    sender: S,
    r: Result<(Vec<u8>, v20::MessageHeader), ChannelError>,
) -> bool {
    let header = spec_version_probe_header(device_index, before.fresh_sw_id());
    let msg = v20::Message::Short(header, [0x00, 0x00, 0x00]).spec_to_hidpp();
    if before.supports_short {
        &&& r is Ok
        &&& r->Ok_0.0@ == msg.frame()
        &&& r->Ok_0.1 == header
        &&& after == before.after_get_sw_id().with_pending(
            ResponsePredicate::VersionProbe(header),
            sender,
        )
    } else {
        &&& r is Err
        &&& r->Err_0 is MessageTypeNotSupported
        &&& after == before.after_get_sw_id()
    }
}

/// Starts to determine the protocol version of a specific device.
///
/// To determine the protocol version, a HID++2.0 ping message (feature with
/// index `0x00`, function `0x01`) is sent. Devices supporting protocol >=2.0
/// will respond with a defined response including the particular protocol
/// version. Devices only supporting protocol 1.0 will respond with an error
/// message indicating `0x00` is no valid sub ID.
///
/// Hands out the frame to write and the header of the ping.
/// [`version_of_reply`] reads the response.
pub fn determine_version<S>(chan: &mut HidppChannel<S>, device_index: u8, sender: S) -> (r: Result<
    (Vec<u8>, v20::MessageHeader),
    ChannelError,
>)
    ensures
        spec_version_probed(old(chan)@, final(chan)@, device_index, sender, r),
        old(chan).wf() ==> final(chan).wf(),
{
    let sw_id = chan.get_sw_id();
    let header = v20::MessageHeader {
        device_index,
        feature_index: 0x00,
        function_id: U4::from_lo(0x1),
        software_id: sw_id,
    };
    let msg = v20::Message::Short(header, [0x00, 0x00, 0x00]);

    match chan.send(HidppMessage::from(msg), ResponsePredicate::VersionProbe(header), sender) {
        Ok(frame) => Ok((frame, header)),
        Err(e) => Err(e),
    }
}

/// The protocol version that the response to a version ping tells of.
///
/// A HID++2.0 message with the header of the ping carries the protocol number
/// and the target software in its first two bytes. Any other short message is
/// read as a HID++1.0 error message: the error "invalid sub ID" marks a
/// HID++1.0 device, and any other error says that there is no device.
pub open spec fn spec_version_of_reply(header: v20::MessageHeader, response: HidppMessage) -> Option<
    ProtocolVersion,
> {
    let v20_msg = v20::Message::spec_from_hidpp(response);
    if v20_msg.spec_header() == header {
        Some(
            ProtocolVersion::V20 {
                protocol_num: v20_msg.spec_extend_payload()[0],
                target_sw: v20_msg.spec_extend_payload()[1],
            },
        )
    } else {
        match v10::Message::spec_from_hidpp(response) {
            v10::Message::Short(_, payload) => if payload[2] == v10::ErrorType::InvalidSubId.code() {
                Some(ProtocolVersion::V10)
            } else {
                None
            },
            v10::Message::Long(_, _) => None,
        }
    }
}

/// Reads the response to a version ping.
///
/// Returns `None` if no device was found for the device index of the ping.
pub fn version_of_reply(header: v20::MessageHeader, response: HidppMessage) -> (r: Option<
    ProtocolVersion,
>)
    ensures
        r == spec_version_of_reply(header, response),
{
    let v20_msg = v20::Message::from(response);
    if v20_msg.header() == header {
        let payload = v20_msg.extend_payload();
        return Some(ProtocolVersion::V20 { protocol_num: payload[0], target_sw: payload[1] });
    }
    match v10::Message::from(response) {
        v10::Message::Short(_, payload) => {
            if payload[2] == u8::from(v10::ErrorType::InvalidSubId) {
                Some(ProtocolVersion::V10)
            } else {
                None
            }
        },
        v10::Message::Long(_, _) => None,
    }
}

/// The protocol version that a waiting version probe ends with: what the
/// response tells, or nothing where no response came.
pub fn version_of_outcome(header: v20::MessageHeader, outcome: Option<HidppMessage>) -> (r: Option<
    ProtocolVersion,
>)
    ensures
        r == match outcome {
            Some(response) => spec_version_of_reply(header, response),
            None => None,
        },
{
    match outcome {
        Some(response) => version_of_reply(header, response),
        None => None,
    }
}

} // verus!
