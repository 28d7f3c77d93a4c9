//! An implementation of Logitech's HID++ protocol.
//!
//! Many of Logitech's more modern peripheral devices (mice, keyboards etc.)
//! support advanced features improving the user experience. All of these
//! features can be managed using their (more or less) proprietary
//! HID++-protocol which extends standard
//! [HID](https://en.wikipedia.org/wiki/Human_interface_device).
//!
//! # How the crate is used
//!
//! The crate holds the protocol and does no I/O. Reading and writing HID
//! reports is left to the caller:
//!
//! - A [`channel::HidppChannel`] is made from what the raw HID channel tells of
//!   itself. It holds the requests that wait for a response and the handles of
//!   the listeners.
//! - A request is started by a function that enqueues it and hands out the
//!   frame to write, such as [`channel::HidppChannel::send_v20`] or a function
//!   of a feature. The caller writes the frame to the raw HID channel.
//! - Every report that the caller reads from the raw HID channel goes to
//!   [`channel::HidppChannel::dispatch`], which hands out the sink of the
//!   request that the message answers, if any, and the listeners to tell.
//! - The response is read by the function that belongs to the request, which
//!   is named after it and ends in `_reply`.
//!
//! What takes several requests, as the enumeration of the features of a
//! [`device::Device`] does, hands out a state that the caller passes back in
//! with each response.

pub mod bcd;
pub mod channel;
pub mod descriptor;
pub mod device;
pub mod event;
pub mod feature;
pub mod nibble;
pub mod paired;
pub mod primitive;
pub mod protocol;
pub mod receiver;
pub mod text;
