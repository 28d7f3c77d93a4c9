//! Implements the `DeviceFriendlyName` feature (ID `0x0007`) that reads and
//! sets the name that the user gave to a device.

use vstd::prelude::*;
use crate::channel::HidppChannel;
use crate::channel::HidppMessage;
use crate::feature::CreatableFeature;
use crate::feature::Feature;
use crate::protocol::v20;
use crate::protocol::v20::Hidpp20Error;
use crate::text::NameReader;
use crate::text::NameWriter;
use crate::text::spec_chunk;
use crate::text::spec_chunk_payload;

verus! {

/// Implements the `DeviceFriendlyName` / `0x0007` feature.
///
/// The first version supported by this feature is v0.
#[derive(Clone, Copy, PartialEq, Eq, Structural, Hash, Debug)]
pub struct DeviceFriendlyNameFeatureV0 {
    /// The index of the device to implement the feature for.
    pub device_index: u8,
    /// The index of the feature in the feature table.
    pub feature_index: u8,
}

impl Feature for DeviceFriendlyNameFeatureV0 {

}

impl CreatableFeature for DeviceFriendlyNameFeatureV0 {
    const ID: u16 = 0x0007;

    const STARTING_VERSION: u8 = 0;

    open spec fn spec_listener(&self) -> Option<u32> {
        None
    }

    fn new<S>(chan: &mut HidppChannel<S>, device_index: u8, feature_index: u8) -> (r: Self)
        ensures
            r.device_index == device_index,
            r.feature_index == feature_index,
    {
        Self { device_index, feature_index }
    }
}

/// Represents the length data as returned by
/// [`DeviceFriendlyNameFeatureV0::get_friendly_name_length`].
#[derive(Clone, Copy, PartialEq, Eq, Structural, Hash, Debug)]
pub struct DeviceFriendlyNameLength {
    /// The current length of the friendly device name.
    pub name_length: u8,
    /// The maximum length of the friendly device name.
    pub name_max_length: u8,
    /// The length of the default friendly device name.
    pub default_name_length: u8,
}

/// What the response to a length request tells: the length of the name, the
/// maximum length of a name, and the length of the default name.
pub open spec fn spec_get_friendly_name_length_reply(response: HidppMessage) -> Result<DeviceFriendlyNameLength, Hidpp20Error> {
    match v20::spec_reply_payload(response) {
        Ok(payload) => Ok(
            DeviceFriendlyNameLength {
                name_length: payload[0],
                name_max_length: payload[1],
                default_name_length: payload[2],
            },
        ),
        Err(e) => Err(e),
    }
}

/// What the response to a chunk request carries: the 15 bytes behind the
/// first byte of the payload.
pub open spec fn spec_name_chunk_reply(response: HidppMessage) -> Result<[u8; 15], Hidpp20Error> {
    match v20::spec_reply_payload(response) {
        Ok(payload) => Ok([payload[1], payload[2], payload[3], payload[4], payload[5], payload[6], payload[7], payload[8], payload[9], payload[10], payload[11], payload[12], payload[13], payload[14], payload[15]]),
        Err(e) => Err(e),
    }
}

/// What the response to a change of the name tells: the new length of the
/// name, in the first byte.
pub open spec fn spec_name_length_reply(response: HidppMessage) -> Result<u8, Hidpp20Error> {
    match v20::spec_reply_payload(response) {
        Ok(payload) => Ok(payload[0]),
        Err(e) => Err(e),
    }
}

impl DeviceFriendlyNameFeatureV0 {
    /// Starts to retrieve the length data of the friendly device name feature.
    /// [`Self::get_friendly_name_length_reply`] reads the response.
    pub fn get_friendly_name_length<S>(&self, chan: &mut HidppChannel<S>, sender: S) -> (r: Result<
        Vec<u8>,
        Hidpp20Error,
    >)
        ensures
            v20::spec_function_called(
                old(chan)@,
                final(chan)@,
                v20::Message::Short(
                    v20::spec_request_header(self.device_index, self.feature_index, 0, old(chan)@.fresh_sw_id()),
                    [0x00, 0x00, 0x00],
                ),
                sender,
                r,
            ),
            old(chan).wf() ==> final(chan).wf(),
    {
        chan.call_short(self.device_index, self.feature_index, 0, [0x00, 0x00, 0x00], sender)
    }

    /// Reads the response to [`Self::get_friendly_name_length`].
    pub fn get_friendly_name_length_reply(response: HidppMessage) -> (r: Result<DeviceFriendlyNameLength, Hidpp20Error>)
        ensures
            r == spec_get_friendly_name_length_reply(response),
    {
        let payload = v20::reply_payload(response)?;
        Ok(
            DeviceFriendlyNameLength {
                name_length: payload[0],
                name_max_length: payload[1],
                default_name_length: payload[2],
            },
        )
    }

    /// Starts to retrieve a chunk of characters of the friendly name of the
    /// device, starting at a specific index (inclusive).
    /// [`Self::get_friendly_name_reply`] reads the response.
    ///
    /// The response will always carry 15 bytes, filled up with zeroes if the
    /// chunk is shorter than that.
    pub fn get_friendly_name<S>(&self, chan: &mut HidppChannel<S>, index: u8, sender: S) -> (r: Result<
        Vec<u8>,
        Hidpp20Error,
    >)
        ensures
            v20::spec_function_called(
                old(chan)@,
                final(chan)@,
                v20::Message::Short(
                    v20::spec_request_header(self.device_index, self.feature_index, 1, old(chan)@.fresh_sw_id()),
                    [index, 0x00, 0x00],
                ),
                sender,
                r,
            ),
            old(chan).wf() ==> final(chan).wf(),
    {
        chan.call_short(self.device_index, self.feature_index, 1, [index, 0x00, 0x00], sender)
    }

    /// Reads the response to [`Self::get_friendly_name`].
    pub fn get_friendly_name_reply(response: HidppMessage) -> (r: Result<[u8; 15], Hidpp20Error>)
        ensures
            r == spec_name_chunk_reply(response),
    {
        let payload = v20::reply_payload(response)?;
        Ok([payload[1], payload[2], payload[3], payload[4], payload[5], payload[6], payload[7], payload[8], payload[9], payload[10], payload[11], payload[12], payload[13], payload[14], payload[15]])
    }

    /// Starts to retrieve a chunk of characters of the default friendly name of
    /// the device, starting at a specific index (inclusive).
    /// [`Self::get_default_friendly_name_reply`] reads the response.
    ///
    /// The response will always carry 15 bytes, filled up with zeroes if the
    /// chunk is shorter than that.
    pub fn get_default_friendly_name<S>(&self, chan: &mut HidppChannel<S>, index: u8, sender: S) -> (r: Result<
        Vec<u8>,
        Hidpp20Error,
    >)
        ensures
            v20::spec_function_called(
                old(chan)@,
                final(chan)@,
                v20::Message::Short(
                    v20::spec_request_header(self.device_index, self.feature_index, 2, old(chan)@.fresh_sw_id()),
                    [index, 0x00, 0x00],
                ),
                sender,
                r,
            ),
            old(chan).wf() ==> final(chan).wf(),
    {
        chan.call_short(self.device_index, self.feature_index, 2, [index, 0x00, 0x00], sender)
    }

    /// Reads the response to [`Self::get_default_friendly_name`].
    pub fn get_default_friendly_name_reply(response: HidppMessage) -> (r: Result<[u8; 15], Hidpp20Error>)
        ensures
            r == spec_name_chunk_reply(response),
    {
        let payload = v20::reply_payload(response)?;
        Ok([payload[1], payload[2], payload[3], payload[4], payload[5], payload[6], payload[7], payload[8], payload[9], payload[10], payload[11], payload[12], payload[13], payload[14], payload[15]])
    }

    /// Starts to set a chunk of the friendly device name, starting at a specific
    /// index (inclusive). [`Self::set_friendly_name_reply`] reads the response.
    ///
    /// If the index and chunk combination would exceed the
    /// [`DeviceFriendlyNameLength::name_max_length`], the name is automatically
    /// truncated by the device.
    pub fn set_friendly_name<S>(&self, chan: &mut HidppChannel<S>, index: u8, chunk: [u8; 15], sender: S) -> (r: Result<
        Vec<u8>,
        Hidpp20Error,
    >)
        ensures
            v20::spec_function_called(
                old(chan)@,
                final(chan)@,
                v20::Message::Long(
                    v20::spec_request_header(self.device_index, self.feature_index, 3, old(chan)@.fresh_sw_id()),
                    [index, chunk[0], chunk[1], chunk[2], chunk[3], chunk[4], chunk[5], chunk[6], chunk[7], chunk[8], chunk[9], chunk[10], chunk[11], chunk[12], chunk[13], chunk[14]],
                ),
                sender,
                r,
            ),
            old(chan).wf() ==> final(chan).wf(),
    {
        chan.call_long(self.device_index, self.feature_index, 3, [index, chunk[0], chunk[1], chunk[2], chunk[3], chunk[4], chunk[5], chunk[6], chunk[7], chunk[8], chunk[9], chunk[10], chunk[11], chunk[12], chunk[13], chunk[14]], sender)
    }

    /// Reads the response to [`Self::set_friendly_name`]: the new total length of
    /// the friendly device name.
    pub fn set_friendly_name_reply(response: HidppMessage) -> (r: Result<u8, Hidpp20Error>)
        ensures
            r == spec_name_length_reply(response),
    {
        let payload = v20::reply_payload(response)?;
        Ok(payload[0])
    }

    /// Goes on with the retrieval of the whole friendly name of the device.
    /// 
    /// A caller retrieves the length of the name with
    /// [`Self::get_friendly_name_length`], starts a [`NameReader`] with it, and
    /// then calls this function until it hands out `None`. Each time it hands out
    /// a frame, it has started to retrieve the chunk that the reader lacks next,
    /// and the caller gives the bytes of [`Self::get_friendly_name_reply`] to the
    /// reader. The name is what the reader holds without the zeroes at its end.
    pub fn get_whole_friendly_name<S>(&self, chan: &mut HidppChannel<S>, reader: &NameReader, sender: S) -> (r:
        Result<Option<Vec<u8>>, Hidpp20Error>)
        ensures
            reader.bytes().len() >= reader.count() ==> r == Ok::<Option<Vec<u8>>, Hidpp20Error>(
                None,
            ) && final(chan)@ == old(chan)@,
            reader.bytes().len() < reader.count() ==> v20::spec_step_called(
                old(chan)@,
                final(chan)@,
                v20::Message::Short(
                    v20::spec_request_header(
                        self.device_index,
                        self.feature_index,
                        1,
                        old(chan)@.fresh_sw_id(),
                    ),
                    [reader.bytes().len() as u8, 0x00, 0x00],
                ),
                sender,
                r,
            ),
            old(chan).wf() ==> final(chan).wf(),
    {
        match reader.next_index() {
            Some(index) => match chan.call_short(
                self.device_index,
                self.feature_index,
                1,
                [index, 0x00, 0x00],
                sender,
            ) {
                Ok(frame) => Ok(Some(frame)),
                Err(e) => Err(e),
            },
            None => Ok(None),
        }
    }

    /// Goes on with the retrieval of the whole default friendly name of the
    /// device.
    /// 
    /// Works as [`Self::get_whole_friendly_name`] does, with the length of the
    /// default name and with [`Self::get_default_friendly_name_reply`].
    pub fn get_whole_default_friendly_name<S>(&self, chan: &mut HidppChannel<S>, reader: &NameReader, sender: S) -> (r:
        Result<Option<Vec<u8>>, Hidpp20Error>)
        ensures
            reader.bytes().len() >= reader.count() ==> r == Ok::<Option<Vec<u8>>, Hidpp20Error>(
                None,
            ) && final(chan)@ == old(chan)@,
            reader.bytes().len() < reader.count() ==> v20::spec_step_called(
                old(chan)@,
                final(chan)@,
                v20::Message::Short(
                    v20::spec_request_header(
                        self.device_index,
                        self.feature_index,
                        2,
                        old(chan)@.fresh_sw_id(),
                    ),
                    [reader.bytes().len() as u8, 0x00, 0x00],
                ),
                sender,
                r,
            ),
            old(chan).wf() ==> final(chan).wf(),
    {
        match reader.next_index() {
            Some(index) => match chan.call_short(
                self.device_index,
                self.feature_index,
                2,
                [index, 0x00, 0x00],
                sender,
            ) {
                Ok(frame) => Ok(Some(frame)),
                Err(e) => Err(e),
            },
            None => Ok(None),
        }
    }

    /// Goes on with setting the whole friendly device name.
    ///
    /// A caller retrieves the maximum length of a name with
    /// [`Self::get_friendly_name_length`], starts a [`NameWriter`] with the
    /// name and that length, and then calls this function until it hands out
    /// `None`. Each time it hands out a frame, it has started to set the next
    /// chunk of the name, and the caller gives the length of
    /// [`Self::set_friendly_name_reply`] to the writer. The total length of
    /// the name after setting it is the total of the writer.
    pub fn set_whole_device_name<S>(&self, chan: &mut HidppChannel<S>, writer: &NameWriter, sender: S) -> (r:
        Result<Option<Vec<u8>>, Hidpp20Error>)
        requires
            writer.wf(),
        ensures
            writer.offset() >= writer.bytes().len() ==> r == Ok::<Option<Vec<u8>>, Hidpp20Error>(
                None,
            ) && final(chan)@ == old(chan)@,
            writer.offset() < writer.bytes().len() ==> v20::spec_step_called(
                old(chan)@,
                final(chan)@,
                v20::Message::Long(
                    v20::spec_request_header(
                        self.device_index,
                        self.feature_index,
                        3,
                        old(chan)@.fresh_sw_id(),
                    ),
                    spec_chunk_payload(
                        writer.index(),
                        spec_chunk(writer.bytes(), writer.offset()),
                    ),
                ),
                sender,
                r,
            ),
            old(chan).wf() ==> final(chan).wf(),
    {
        match writer.next_chunk() {
            Some((index, chunk)) => {
                let data = [index, chunk[0], chunk[1], chunk[2], chunk[3], chunk[4], chunk[5], chunk[6], chunk[7], chunk[8], chunk[9], chunk[10], chunk[11], chunk[12], chunk[13], chunk[14]];
                assert(data =~= spec_chunk_payload(index, chunk@));
                match chan.call_long(self.device_index, self.feature_index, 3, data, sender) {
                    Ok(frame) => Ok(Some(frame)),
                    Err(e) => Err(e),
                }
            },
            None => Ok(None),
        }
    }

    /// Starts to reset the friendly device name to the default one.
    /// [`Self::reset_friendly_name_reply`] reads the response.
    pub fn reset_friendly_name<S>(&self, chan: &mut HidppChannel<S>, sender: S) -> (r: Result<
        Vec<u8>,
        Hidpp20Error,
    >)
        ensures
            v20::spec_function_called(
                old(chan)@,
                final(chan)@,
                v20::Message::Short(
                    v20::spec_request_header(self.device_index, self.feature_index, 4, old(chan)@.fresh_sw_id()),
                    [0x00, 0x00, 0x00],
                ),
                sender,
                r,
            ),
            old(chan).wf() ==> final(chan).wf(),
    {
        chan.call_short(self.device_index, self.feature_index, 4, [0x00, 0x00, 0x00], sender)
    }

    /// Reads the response to [`Self::reset_friendly_name`]: the total length of
    /// the name after resetting it.
    pub fn reset_friendly_name_reply(response: HidppMessage) -> (r: Result<u8, Hidpp20Error>)
        ensures
            r == spec_name_length_reply(response),
    {
        let payload = v20::reply_payload(response)?;
        Ok(payload[0])
    }
}

} // verus!
