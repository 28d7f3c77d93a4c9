//! Specific device feature implementations.

pub mod device_friendly_name;
pub mod device_information;
pub mod device_type_and_name;
pub mod feature_set;
pub mod hires_wheel;
pub mod registry;
pub mod root;
pub mod smartshift;
pub mod thumbwheel;
pub mod unified_battery;
pub mod wireless_device_status;

use vstd::prelude::*;
use vstd::std_specs::convert::FromSpecImpl;
use crate::channel::HidppChannel;
use crate::channel::HidppMessage;

verus! {

/// Represents a concrete implementation of a HID++2.0 device feature.
pub trait Feature {

}

/// Represents a [`Feature`] that can be instantiated automatically.
pub trait CreatableFeature: Feature + Sized {
    /// The protocol ID of the implemented feature.
    const ID: u16;

    /// The version of the feature the implementation starts to support.
    const STARTING_VERSION: u8;

    /// The handle of the listener that the new instance registers, if it
    /// registers one.
    spec fn spec_listener(&self) -> Option<u32>;

    /// Creates a new instance of the feature implementation.
    ///
    /// An implementation that emits events registers a message listener with
    /// the channel.
    fn new<S>(chan: &mut HidppChannel<S>, device_index: u8, feature_index: u8) -> (r: Self)
        requires
            old(chan).wf(),
            old(chan)@.message_listeners.len() <= u32::MAX,
        ensures
            final(chan).wf(),
            match r.spec_listener() {
                Some(hdl) => !old(chan)@.message_listeners.contains(hdl) && final(chan)@ == old(
                    chan,
                )@.with_listener(hdl),
                None => final(chan)@ == old(chan)@,
            },
    ;
}

/// Represents a [`Feature`] that emits events of type `T`.
///
/// The feature is told of every incoming message through the listener that it
/// registered, and turns the notifications of its device into events.
pub trait EmittingFeature<T>: Feature {
    /// The handle of the message listener of the feature.
    fn msg_listener_hdl(&self) -> u32;

    /// The event that an incoming message stands for, if it is a notification
    /// of this feature. `matched` tells whether the message answered a request;
    /// such a message is no notification.
    fn decode_event(&self, raw: HidppMessage, matched: bool) -> Option<T>;
}

/// A bitfield describing some properties of a feature.
#[derive(Clone, Copy, PartialEq, Eq, Structural, Hash, Debug)]
pub struct FeatureType {
    /// An obsolete feature is a feature that has been replaced by a newer one,
    /// but is advertised in order for older SWs to still be able to support the
    /// feature (in case the old SW does not know yet the newer one).
    pub obsolete: bool,
    /// A SW hidden feature is a feature that should not be known/managed/used
    /// by end user configuration SW. The host should ignore this type of
    /// features.
    pub hidden: bool,
    /// A hidden feature that has been disabled for user software. Used for
    /// internal testing and manufacturing.
    pub engineering: bool,
    /// A manufacturing feature that can be permanently deactivated. It is
    /// usually also hidden and engineering.
    ///
    /// This field was added in feature version 2 and will be `false` for all
    /// older versions.
    pub manufacturing_deactivatable: bool,
    /// A compliance feature that can be permanently deactivated. It is usually
    /// also hidden and engineering.
    ///
    /// This field was added in feature version 2 and will be `false` for all
    /// older versions.
    pub compliance_deactivatable: bool,
}

impl FeatureType {
    /// The properties that a byte stands for: one flag in each of its five
    /// highest bits.
    pub open spec fn spec_from_bits(value: u8) -> FeatureType {
        FeatureType {
            obsolete: value & 0x80 != 0,
            hidden: value & 0x40 != 0,
            engineering: value & 0x20 != 0,
            manufacturing_deactivatable: value & 0x10 != 0,
            compliance_deactivatable: value & 0x08 != 0,
        }
    }

    /// The byte that stands for the properties.
    pub open spec fn spec_bits(self) -> u8 {
        ((if self.obsolete { 0x80int } else { 0 }) + (if self.hidden { 0x40int } else { 0 }) + (
        if self.engineering { 0x20int } else { 0 }) + (if self.manufacturing_deactivatable {
            0x10int
        } else {
            0
        }) + (if self.compliance_deactivatable { 0x08int } else { 0 })) as u8
    }
}

impl From<u8> for FeatureType {
    fn from(value: u8) -> (r: FeatureType) {
        FeatureType {
            obsolete: value & 0x80 != 0,
            hidden: value & 0x40 != 0,
            engineering: value & 0x20 != 0,
            manufacturing_deactivatable: value & 0x10 != 0,
            compliance_deactivatable: value & 0x08 != 0,
        }
    }
}

impl FromSpecImpl<u8> for FeatureType {
    open spec fn obeys_from_spec() -> bool {
        true
    }

    open spec fn from_spec(value: u8) -> FeatureType {
        FeatureType::spec_from_bits(value)
    }
}

impl From<FeatureType> for u8 {
    fn from(value: FeatureType) -> (r: u8) {
        let mut raw: u8 = 0;
        if value.obsolete {
            raw += 0x80;
        }
        if value.hidden {
            raw += 0x40;
        }
        if value.engineering {
            raw += 0x20;
        }
        if value.manufacturing_deactivatable {
            raw += 0x10;
        }
        if value.compliance_deactivatable {
            raw += 0x08;
        }
        raw
    }
}

impl FromSpecImpl<FeatureType> for u8 {
    open spec fn obeys_from_spec() -> bool {
        true
    }

    open spec fn from_spec(value: FeatureType) -> u8 {
        value.spec_bits()
    }
}

/// The byte of a feature type stands for that feature type, and its three
/// lowest bits are not set.
pub proof fn lemma_feature_type_round_trip(value: FeatureType)
    ensures
        FeatureType::spec_from_bits(value.spec_bits()) == value,
        value.spec_bits() & 0x07 == 0,
{
    let raw = value.spec_bits();
    let a: u8 = if value.obsolete { 0x80 } else { 0 };
    let b: u8 = if value.hidden { 0x40 } else { 0 };
    let c: u8 = if value.engineering { 0x20 } else { 0 };
    let d: u8 = if value.manufacturing_deactivatable { 0x10 } else { 0 };
    let e: u8 = if value.compliance_deactivatable { 0x08 } else { 0 };
    let x: u8 = (((a | b) | c) | d) | e;
    assert({
        &&& x == a + b + c + d + e
        &&& ((x & 0x80 != 0) <==> a == 0x80)
        &&& ((x & 0x40 != 0) <==> b == 0x40)
        &&& ((x & 0x20 != 0) <==> c == 0x20)
        &&& ((x & 0x10 != 0) <==> d == 0x10)
        &&& ((x & 0x08 != 0) <==> e == 0x08)
        &&& x & 0x07 == 0
    }) by (bit_vector)
        requires
            a == 0 || a == 0x80,
            b == 0 || b == 0x40,
            c == 0 || c == 0x20,
            d == 0 || d == 0x10,
            e == 0 || e == 0x08,
            x == (((a | b) | c) | d) | e,
    ;
    assert(raw == a + b + c + d + e);
}

} // verus!
