//! Implements the different HID++ wireless receivers.
//!
//! Receivers can generally only be differentiated by their USB vendor and
//! product IDs, so the [`detect`] function does nothing more than matching
//! those values to the sets of known vendor and product ID pairs of the
//! different receivers.

pub mod bolt;

use vstd::prelude::*;
use vstd::std_specs::convert::FromSpecImpl;
use crate::channel::HidppChannel;
use crate::protocol::v10::Hidpp10Error;
use crate::receiver::bolt::BoltReceiver;
use crate::receiver::bolt::spec_is_bolt;

verus! {

/// The index to use when communicating with the receiver on any HID++ channel.
pub const RECEIVER_DEVICE_INDEX: u8 = 0xff;

/// Represents a HID++ wireless receiver.
#[derive(Clone, Copy, PartialEq, Eq, Structural, Hash, Debug)]
#[non_exhaustive]
pub enum Receiver {
    Bolt(BoltReceiver),
}

impl Receiver {
    /// The name of the kind of receiver, in words.
    pub open spec fn spec_name(&self) -> &'static str {
        match self {
            Receiver::Bolt(_) => "Bolt Receiver",
        }
    }

    /// The name of the kind of receiver.
    pub fn name(&self) -> (r: &'static str)
        ensures
            r == self.spec_name(),
    {
        match self {
            Receiver::Bolt(_) => "Bolt Receiver",
        }
    }
}

/// Tries to detect the receiver present on a HID++ channel, and registers
/// the message listener of the receiver with the channel.
///
/// A receiver is there exactly when the vendor and product IDs of the channel
/// are those of a known receiver.
pub fn detect<S>(chan: &mut HidppChannel<S>) -> (r: Option<Receiver>)
    requires
        old(chan).wf(),
        old(chan)@.message_listeners.len() <= u32::MAX,
    ensures
        final(chan).wf(),
        spec_is_bolt(old(chan)@.vendor_id, old(chan)@.product_id) ==> {
            &&& r matches Some(Receiver::Bolt(bolt))
            &&& !old(chan)@.message_listeners.contains(bolt.msg_listener_hdl)
            &&& final(chan)@ == old(chan)@.with_listener(bolt.msg_listener_hdl)
        },
        !spec_is_bolt(old(chan)@.vendor_id, old(chan)@.product_id) ==> r is None && final(chan)@
            == old(chan)@,
{
    if bolt::is_bolt(chan.vendor_id(), chan.product_id()) {
        return match BoltReceiver::new(chan) {
            Ok(bolt) => Some(Receiver::Bolt(bolt)),
            Err(_) => None,
        };
    }
    None
}

/// Represents an error returned by a receiver.
#[derive(Debug)]
#[non_exhaustive]
pub enum ReceiverError {
    /// Indicates that no supported receiver could be identified on a HID++
    /// channel.
    UnknownReceiver,
    /// Indicates that a HID++1.0 register access resulted in an error.
    Protocol(Hidpp10Error),
}

impl From<Hidpp10Error> for ReceiverError {
    fn from(value: Hidpp10Error) -> (r: ReceiverError) {
        ReceiverError::Protocol(value)
    }
}

impl FromSpecImpl<Hidpp10Error> for ReceiverError {
    open spec fn obeys_from_spec() -> bool {
        true
    }

    open spec fn from_spec(value: Hidpp10Error) -> ReceiverError {
        ReceiverError::Protocol(value)
    }
}

impl ReceiverError {
    /// The description of the error in words.
    pub open spec fn spec_message(&self) -> &'static str {
        match self {
            ReceiverError::UnknownReceiver => "no (supported) receiver could be found",
            ReceiverError::Protocol(_) => "a HID++1.0 error occurred",
        }
    }

    /// Describes the error in words.
    pub fn message(&self) -> (r: &'static str)
        ensures
            r == self.spec_message(),
    {
        match self {
            ReceiverError::UnknownReceiver => "no (supported) receiver could be found",
            ReceiverError::Protocol(_) => "a HID++1.0 error occurred",
        }
    }
}

} // verus!
