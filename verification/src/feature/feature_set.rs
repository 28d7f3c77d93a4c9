//! Implements the FeatureSet feature (ID `0x0001`) that allow enumerating all
//! the features supported by a device.

use vstd::prelude::*;
use crate::channel::HidppChannel;
use crate::channel::HidppMessage;
use crate::feature::CreatableFeature;
use crate::feature::Feature;
use crate::feature::FeatureType;
use crate::primitive::spec_u16_from_bytes;
use crate::primitive::u16_from_be_bytes;
use crate::protocol::v20;
use crate::protocol::v20::Hidpp20Error;

verus! {

/// The protocol ID of the feature.
pub const FEATURE_ID: u16 = 0x0001;

/// Implements the `FeatureSet` / `0x0001` feature.
///
/// The first version supported by this feature is v0.
///
/// This feature is primarily used to collect all features supported by the
/// device. To achieve this, call [`Self::count`] to retrieve the amount of
/// supported features (excluding the root feature). Then call
/// [`Self::get_feature`] for every `i in 1..=count` (1-based, as accessing the
/// root feature is not allowed).
#[derive(Clone, Copy, PartialEq, Eq, Structural, Hash, Debug)]
pub struct FeatureSetFeatureV0 {
    /// The index of the device to implement the feature for.
    pub device_index: u8,
    /// The index of the feature in the feature table.
    pub feature_index: u8,
}

impl Feature for FeatureSetFeatureV0 {

}

impl CreatableFeature for FeatureSetFeatureV0 {
    const ID: u16 = 0x0001;

    const STARTING_VERSION: u8 = 0;

    open spec fn spec_listener(&self) -> Option<u32> {
        None
    }

    fn new<S>(chan: &mut HidppChannel<S>, device_index: u8, feature_index: u8) -> (r: Self)
        ensures
            r.device_index == device_index,
            r.feature_index == feature_index,
    {
        Self { device_index, feature_index }
    }
}

/// Represents information about a specific feature as returned by the
/// [`FeatureSetFeatureV0::get_feature`] function.
#[derive(Clone, Copy, PartialEq, Eq, Structural, Hash, Debug)]
pub struct FeatureInformation {
    /// The protocol ID of the feature.
    pub id: u16,
    /// The type of the feature.
    pub typ: FeatureType,
    /// The latest supported version of the feature.
    ///
    /// Multi-version features are always backwards compatible as long as the
    /// feature ID does not change, meaning functions implemented for an older
    /// version of the same feature will behave as expected for every later
    /// version.
    ///
    /// This field was added in feature version 1 and will be `0` for all older
    /// versions.
    pub version: u8,
}

/// What the response to a count request tells: the count, in the first byte.
pub open spec fn spec_count_reply(response: HidppMessage) -> Result<u8, Hidpp20Error> {
    match v20::spec_reply_payload(response) {
        Ok(payload) => Ok(payload[0]),
        Err(e) => Err(e),
    }
}

/// What the response to a feature request tells: the ID of the feature in the
/// first two bytes, the more significant one first, then its type and its
/// version.
pub open spec fn spec_get_feature_reply(response: HidppMessage) -> Result<FeatureInformation, Hidpp20Error> {
    match v20::spec_reply_payload(response) {
        Ok(payload) => Ok(
            FeatureInformation {
                id: spec_u16_from_bytes(payload[0], payload[1]),
                typ: FeatureType::spec_from_bits(payload[2]),
                version: payload[3],
            },
        ),
        Err(e) => Err(e),
    }
}

impl FeatureSetFeatureV0 {
    /// Starts to retrieve the amount of features supported by the device, not
    /// including the root feature. [`Self::count_reply`] reads the response.
    pub fn count<S>(&self, chan: &mut HidppChannel<S>, sender: S) -> (r: Result<
        Vec<u8>,
        Hidpp20Error,
    >)
        ensures
            v20::spec_function_called(
                old(chan)@,
                final(chan)@,
                v20::Message::Short(
                    v20::spec_request_header(self.device_index, self.feature_index, 0, old(chan)@.fresh_sw_id()),
                    [0x00, 0x00, 0x00],
                ),
                sender,
                r,
            ),
            old(chan).wf() ==> final(chan).wf(),
    {
        chan.call_short(self.device_index, self.feature_index, 0, [0x00, 0x00, 0x00], sender)
    }

    /// Reads the response to [`Self::count`].
    pub fn count_reply(response: HidppMessage) -> (r: Result<u8, Hidpp20Error>)
        ensures
            r == spec_count_reply(response),
    {
        let payload = v20::reply_payload(response)?;
        Ok(payload[0])
    }

    /// Starts to retrieve the information about a specific feature based on its
    /// index in the feature table. [`Self::get_feature_reply`] reads the
    /// response.
    ///
    /// Feature index `0` for the root feature is not allowed.
    pub fn get_feature<S>(&self, chan: &mut HidppChannel<S>, index: u8, sender: S) -> (r: Result<
        Vec<u8>,
        Hidpp20Error,
    >)
        ensures
            v20::spec_function_called(
                old(chan)@,
                final(chan)@,
                v20::Message::Short(
                    v20::spec_request_header(self.device_index, self.feature_index, 1, old(chan)@.fresh_sw_id()),
                    [index, 0x00, 0x00],
                ),
                sender,
                r,
            ),
            old(chan).wf() ==> final(chan).wf(),
    {
        chan.call_short(self.device_index, self.feature_index, 1, [index, 0x00, 0x00], sender)
    }

    /// Reads the response to [`Self::get_feature`].
    pub fn get_feature_reply(response: HidppMessage) -> (r: Result<FeatureInformation, Hidpp20Error>)
        ensures
            r == spec_get_feature_reply(response),
    {
        let payload = v20::reply_payload(response)?;
        Ok(
            FeatureInformation {
                id: u16_from_be_bytes(payload[0], payload[1]),
                typ: FeatureType::from(payload[2]),
                version: payload[3],
            },
        )
    }
}

} // verus!
