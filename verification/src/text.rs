//! Names that a device hands out, or takes, in chunks.
//!
//! A device tells its names piece by piece: the host asks for the chunk that
//! starts at a given index until it has as many bytes as the name is long.
//! The other way round, the host sets a name in chunks of 15 bytes.

use vstd::prelude::*;
use vstd::string::StringSliceAdditionalSpecFns;
use vstd::utf8::decode_utf8;
use vstd::utf8::is_char_boundary_iff_not_is_continuation_byte;
use vstd::utf8::is_continuation_byte;
use vstd::utf8::valid_utf8;
use vstd::utf8::valid_utf8_concat;
use vstd::utf8::valid_utf8_split;
use crate::primitive::copy_range;
use crate::primitive::string_from_utf8;
use crate::protocol::v20::Hidpp20Error;

verus! {

/// The bytes without the zero bytes at their end.
pub open spec fn spec_trim_zeros(bytes: Seq<u8>) -> Seq<u8>
    decreases bytes.len(),
{
    if bytes.len() > 0 && bytes.last() == 0 {
        spec_trim_zeros(bytes.drop_last())
    } else {
        bytes
    }
}

/// Collects the chunks of a name until the name is complete.
#[derive(Clone, PartialEq, Eq, Hash, Debug)]
pub struct NameReader {
    /// The number of bytes that the device announced for the name.
    count: u8,
    /// The bytes of the chunks that came in so far.
    bytes: Vec<u8>,
}

impl NameReader {
    /// The number of bytes that the device announced for the name.
    pub closed spec fn count(&self) -> u8 {
        self.count
    }

    /// The bytes of the chunks that came in so far.
    pub closed spec fn bytes(&self) -> Seq<u8> {
        self.bytes@
    }

    /// A reader is well-formed when what it holds is valid UTF-8.
    pub open spec fn wf(&self) -> bool {
        valid_utf8(self.bytes())
    }

    /// Starts to collect a name of `count` bytes.
    pub fn new(count: u8) -> (r: Self)
        ensures
            r.wf(),
            r.count() == count,
            r.bytes() == Seq::<u8>::empty(),
    {
        Self { count, bytes: Vec::new() }
    }

    /// The index at which the next chunk has to start, or `None` if the
    /// name is complete: the number of bytes that came in, as long as it is
    /// below the announced count.
    pub fn next_index(&self) -> (r: Option<u8>)
        ensures
            r == if self.bytes().len() < self.count() {
                Some(self.bytes().len() as u8)
            } else {
                None
            },
    {
        if self.bytes.len() < self.count as usize {
            Some(self.bytes.len() as u8)
        } else {
            None
        }
    }

    /// Takes the next chunk of the name.
    ///
    /// Fails with [`Hidpp20Error::UnsupportedResponse`], and takes nothing,
    /// exactly when the chunk is no valid UTF-8.
    pub fn push(&mut self, part: &[u8]) -> (r: Result<(), Hidpp20Error>)
        requires
            old(self).wf(),
        ensures
            final(self).wf(),
            final(self).count() == old(self).count(),
            valid_utf8(part@) ==> r is Ok && final(self).bytes() == old(self).bytes() + part@,
            !valid_utf8(part@) ==> r == Err::<(), Hidpp20Error>(Hidpp20Error::UnsupportedResponse)
                && final(self).bytes() == old(self).bytes(),
    {
        let chunk = copy_range(part, 0, part.len());
        assert(chunk@ =~= part@);
        if string_from_utf8(chunk).is_none() {
            return Err(Hidpp20Error::UnsupportedResponse);
        }
        let mut i: usize = 0;
        while i < part.len()
            invariant
                i <= part@.len(),
                self.count == old(self).count,
                self.bytes@ == old(self).bytes@ + part@.subrange(0, i as int),
            decreases part@.len() - i,
        {
            self.bytes.push(part[i]);
            i += 1;
            assert(self.bytes@ =~= old(self).bytes@ + part@.subrange(0, i as int));
        }
        proof {
            assert(part@.subrange(0, i as int) =~= part@);
            valid_utf8_concat(old(self).bytes@, part@);
        }
        Ok(())
    }

    /// Hands out the name that was collected.
    pub fn finish(self) -> (r: String)
        requires
            self.wf(),
        ensures
            r@ == decode_utf8(self.bytes()),
    {
        match string_from_utf8(self.bytes) {
            Some(name) => name,
            None => String::new(),
        }
    }

    /// Hands out the name that was collected, without the zero bytes that
    /// fill up its last chunk.
    pub fn finish_trimmed(self) -> (r: String)
        requires
            self.wf(),
        ensures
            r@ == decode_utf8(spec_trim_zeros(self.bytes())),
    {
        let mut bytes = self.bytes;
        while bytes.len() > 0 && bytes[bytes.len() - 1] == 0
            invariant
                valid_utf8(bytes@),
                spec_trim_zeros(bytes@) == spec_trim_zeros(self.bytes@),
            decreases bytes@.len(),
        {
            proof {
                let last = bytes@.len() - 1;
                assert(!is_continuation_byte(0u8)) by {
                    assert(0u8 & 0xC0 != 0x80) by (bit_vector);
                }
                is_char_boundary_iff_not_is_continuation_byte(bytes@, last);
                valid_utf8_split(bytes@, last);
                assert(bytes@.subrange(0, last) =~= bytes@.drop_last());
            }
            bytes.pop();
        }
        match string_from_utf8(bytes) {
            Some(name) => name,
            None => String::new(),
        }
    }
}

/// Cuts a name into the chunks in which it is set on a device.
#[derive(Clone, PartialEq, Eq, Hash, Debug)]
pub struct NameWriter {
    /// The bytes of the name that are to be set.
    bytes: Vec<u8>,
    /// The number of bytes that were handed out in chunks.
    offset: usize,
    /// The index at which the next chunk is set.
    index: u8,
}

/// The chunk of 15 bytes that starts at `offset`, filled up with zeroes.
pub open spec fn spec_chunk(bytes: Seq<u8>, offset: int) -> Seq<u8> {
    Seq::new(15, |j: int| if offset + j < bytes.len() { bytes[offset + j] } else { 0u8 })
}

/// The payload that sets a chunk at an index: the index, then the 15 bytes of
/// the chunk.
pub open spec fn spec_chunk_payload(index: u8, c: Seq<u8>) -> [u8; 16] {
    [index, c[0], c[1], c[2], c[3], c[4], c[5], c[6], c[7], c[8], c[9], c[10], c[11], c[12], c[13], c[14]]
}

impl NameWriter {
    /// The bytes of the name that are to be set.
    pub closed spec fn bytes(&self) -> Seq<u8> {
        self.bytes@
    }

    /// The number of bytes that were handed out in chunks.
    pub closed spec fn offset(&self) -> int {
        self.offset as int
    }

    /// The index at which the next chunk is set.
    pub closed spec fn index(&self) -> u8 {
        self.index
    }

    /// A writer is well-formed when its name has at most 255 bytes, and when
    /// it has handed out whole chunks only.
    pub open spec fn wf(&self) -> bool {
        &&& self.bytes().len() <= 255
        &&& 0 <= self.offset() <= self.bytes().len() + 14
        &&& self.offset() % 15 == 0
    }

    /// Starts to set the name `name`, truncated to a maximum of `max_len`
    /// bytes.
    pub fn new(name: &str, max_len: u8) -> (r: Self)
        ensures
            r.wf(),
            r.offset() == 0,
            r.index() == 0,
            r.bytes() == name.spec_bytes().take(
                if name.spec_bytes().len() < max_len {
                    name.spec_bytes().len() as int
                } else {
                    max_len as int
                },
            ),
    {
        let all = name.as_bytes();
        let len = if all.len() < max_len as usize {
            all.len()
        } else {
            max_len as usize
        };
        let bytes = copy_range(all, 0, len);
        Self { bytes, offset: 0, index: 0 }
    }

    /// The next chunk to set and the index to set it at, or `None` if the
    /// whole name was handed out.
    pub fn next_chunk(&self) -> (r: Option<(u8, [u8; 15])>)
        requires
            self.wf(),
        ensures
            self.offset() >= self.bytes().len() ==> r is None,
            self.offset() < self.bytes().len() ==> match r {
                Some((index, chunk)) => index == self.index() && chunk@ == spec_chunk(
                    self.bytes(),
                    self.offset(),
                ),
                None => false,
            },
    {
        if self.offset >= self.bytes.len() {
            return None;
        }
        let mut chunk = [0u8; 15];
        let mut j: usize = 0;
        while j < 15
            invariant
                j <= 15,
                self.offset + 15 <= 270,
                self.bytes@.len() <= 255,
                forall|k: int|
                    0 <= k < j ==> chunk@[k] == (if self.offset + k < self.bytes@.len() {
                        self.bytes@[self.offset + k]
                    } else {
                        0u8
                    }),
            decreases 15 - j,
        {
            if self.offset + j < self.bytes.len() {
                chunk[j] = self.bytes[self.offset + j];
            } else {
                chunk[j] = 0;
            }
            j += 1;
        }
        assert(chunk@ =~= spec_chunk(self.bytes@, self.offset as int));
        Some((self.index, chunk))
    }

    /// Takes the length that the device reported for the chunk that was handed
    /// out last: the next chunk is set that many bytes further on.
    ///
    /// Fails with [`Hidpp20Error::UnsupportedResponse`] exactly when that
    /// index does not fit into a byte.
    pub fn advance(&mut self, new_length: u8) -> (r: Result<(), Hidpp20Error>)
        requires
            old(self).wf(),
            old(self).offset() < old(self).bytes().len(),
        ensures
            final(self).wf(),
            final(self).bytes() == old(self).bytes(),
            final(self).offset() == old(self).offset() + 15,
            old(self).index() + new_length <= u8::MAX ==> r is Ok && final(self).index() == old(
                self,
            ).index() + new_length,
            old(self).index() + new_length > u8::MAX ==> r == Err::<(), Hidpp20Error>(
                Hidpp20Error::UnsupportedResponse,
            ) && final(self).index() == old(self).index(),
    {
        self.offset = self.offset + 15;
        match self.index.checked_add(new_length) {
            Some(index) => {
                self.index = index;
                Ok(())
            },
            None => Err(Hidpp20Error::UnsupportedResponse),
        }
    }

    /// The total that the lengths add up to which the device reported.
    pub fn total(&self) -> (r: u8)
        ensures
            r == self.index(),
    {
        self.index
    }
}

} // verus!
