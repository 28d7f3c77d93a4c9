//! Implements the Root feature (ID `0x0000`) that every device supports by
//! default.

use vstd::prelude::*;
use crate::channel::HidppChannel;
use crate::channel::HidppMessage;
use crate::feature::CreatableFeature;
use crate::feature::Feature;
use crate::feature::FeatureType;
use crate::primitive::high_byte;
use crate::primitive::low_byte;
use crate::protocol::v20;
use crate::protocol::v20::Hidpp20Error;

verus! {

/// Implements the `Root` / `0x0000` feature that every HID++2.0 device
/// supports by default.
///
/// This implementation is added automatically to any
/// [`crate::device::Device`].
#[derive(Clone, Copy, PartialEq, Eq, Structural, Hash, Debug)]
pub struct RootFeature {
    /// The index of the device to implement the feature for.
    pub device_index: u8,
}

impl Feature for RootFeature {

}

impl CreatableFeature for RootFeature {
    const ID: u16 = 0x0000;

    const STARTING_VERSION: u8 = 0;

    open spec fn spec_listener(&self) -> Option<u32> {
        None
    }

    fn new<S>(chan: &mut HidppChannel<S>, device_index: u8, feature_index: u8) -> (r: Self)
        ensures
            r.device_index == device_index,
    {
        Self { device_index }
    }
}

/// Represents information about a specific feature as returned by the
/// [`RootFeature::get_feature`] function.
#[derive(Clone, Copy, PartialEq, Eq, Structural, Hash, Debug)]
pub struct FeatureInformation {
    /// The index of the feature in the version table.
    /// This is used for invocations of functions of that feature.
    pub index: u8,
    /// The type of the feature.
    pub typ: FeatureType,
    /// The latest supported version of the feature.
    ///
    /// Multi-version features are always backwards compatible as long as the
    /// feature ID does not change, meaning functions implemented for an older
    /// version of the same feature will behave as expected for every later
    /// version.
    pub version: u8,
}

/// What the response to a feature lookup tells: nothing where the index is
/// `0`, which says that the device does not support the feature, and else
/// the index, the type and the version of the feature.
pub open spec fn spec_get_feature_reply(response: HidppMessage) -> Result<
    Option<FeatureInformation>,
    Hidpp20Error,
> {
    match v20::spec_reply_payload(response) {
        Ok(payload) => if payload[0] == 0 {
            Ok(None)
        } else {
            Ok(
                Some(
                    FeatureInformation {
                        index: payload[0],
                        typ: FeatureType::spec_from_bits(payload[1]),
                        version: payload[2],
                    },
                ),
            )
        },
        Err(e) => Err(e),
    }
}

impl RootFeature {
    /// Starts to retrieve information about a specific feature ID, including
    /// its index in the feature table, its type and its version.
    /// [`Self::get_feature_reply`] reads the response.
    pub fn get_feature<S>(&self, chan: &mut HidppChannel<S>, id: u16, sender: S) -> (r: Result<
        Vec<u8>,
        Hidpp20Error,
    >)
        ensures
            v20::spec_function_called(
                old(chan)@,
                final(chan)@,
                v20::Message::Short(
                    v20::spec_request_header(self.device_index, 0, 0, old(chan)@.fresh_sw_id()),
                    [(id / 256) as u8, (id % 256) as u8, 0x00],
                ),
                sender,
                r,
            ),
            old(chan).wf() ==> final(chan).wf(),
    {
        chan.call_short(self.device_index, 0, 0, [high_byte(id), low_byte(id), 0x00], sender)
    }

    /// Reads the response to [`Self::get_feature`].
    ///
    /// If the feature is not supported by the device, [`None`] is returned.
    ///
    /// If the device only supports the root feature version 1, the
    /// [`FeatureInformation::version`] field will be `0` for all features.
    pub fn get_feature_reply(response: HidppMessage) -> (r: Result<
        Option<FeatureInformation>,
        Hidpp20Error,
    >)
        ensures
            r == spec_get_feature_reply(response),
    {
        let payload = v20::reply_payload(response)?;
        if payload[0] == 0 {
            return Ok(None);
        }
        Ok(
            Some(
                FeatureInformation {
                    index: payload[0],
                    typ: FeatureType::from(payload[1]),
                    version: payload[2],
                },
            ),
        )
    }

    /// Starts to ping the device with an arbitrary data byte. The device will
    /// respond with the same data if communication succeeds.
    /// [`Self::ping_reply`] reads the response.
    pub fn ping<S>(&self, chan: &mut HidppChannel<S>, data: u8, sender: S) -> (r: Result<
        Vec<u8>,
        Hidpp20Error,
    >)
        ensures
            v20::spec_function_called(
                old(chan)@,
                final(chan)@,
                v20::Message::Short(
                    v20::spec_request_header(self.device_index, 0, 1, old(chan)@.fresh_sw_id()),
                    [0x00, 0x00, data],
                ),
                sender,
                r,
            ),
            old(chan).wf() ==> final(chan).wf(),
    {
        chan.call_short(self.device_index, 0, 1, [0x00, 0x00, data], sender)
    }

    /// Reads the response to [`Self::ping`]: the data byte that the device
    /// sent back.
    pub fn ping_reply(response: HidppMessage) -> (r: Result<u8, Hidpp20Error>)
        ensures
            r == match v20::spec_reply_payload(response) {
                Ok(payload) => Ok::<u8, Hidpp20Error>(payload[2]),
                Err(e) => Err(e),
            },
    {
        let payload = v20::reply_payload(response)?;
        Ok(payload[2])
    }
}

} // verus!
