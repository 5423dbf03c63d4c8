//! Link framing: frames are encoded, then byte-stuffed with COBS so that a zero byte ends each
//! frame on the stream and a reader can find the next frame after corrupt or missing bytes.
use vstd::prelude::*;
use core::ops::Range;
use corncobs::CobsError;
use crate::versions::{Version1, Version1DataFrame, VersionedDataFrame};
use crate::wire::{decode_from_slice, Codec, DecodeError};

verus! {

/// `corncobs::CobsError`, declared with its variants so that verified code can tell them apart.
#[verifier::external_type_specification]
pub struct ExCobsError(corncobs::CobsError);

/// The most bytes that COBS stuffing makes of `raw_len` bytes, the terminating zero included:
/// one byte of overhead per 254 bytes (one for an empty message), plus the terminator.
pub open spec fn max_encoded_len_spec(raw_len: nat) -> nat {
    raw_len + (if raw_len == 0 {
        1
    } else {
        (raw_len + 253) / 254
    }) + 1
}

/// The COBS encoding of `data` that `corncobs::encode_buf` writes, terminating zero included.
pub uninterp spec fn cobs_encoding(data: Seq<u8>) -> Seq<u8>;

/// What `corncobs::decode_in_place` decodes from the front of `frame`, if it succeeds.
pub uninterp spec fn cobs_decoding(frame: Seq<u8>) -> Option<Seq<u8>>;

/// `buffer` starts with the COBS encoding of `data`; any bytes may follow it.
pub open spec fn stuffed_prefix(buffer: Seq<u8>, data: Seq<u8>) -> bool {
    cobs_encoding(data).len() <= buffer.len() && buffer.take(cobs_encoding(data).len() as int)
        == cobs_encoding(data)
}

/// Relies on `corncobs::max_encoded_len`, which computes exactly this formula (its additions
/// do not overflow for lengths up to half of `usize::MAX`).
pub assume_specification[ corncobs::max_encoded_len ](raw_len: usize) -> (r: usize)
    requires
        raw_len <= usize::MAX / 2,
    ensures
        r == max_encoded_len_spec(raw_len as nat),
;

/// Relies on `corncobs::encode_buf`: given room for the worst case, it writes the encoding at
/// the front of `output`, leaves the rest of `output` unchanged, and returns the encoding's
/// length. The encoding holds no zero but the terminating one at its end, and takes at least an
/// overhead byte and the terminator.
pub assume_specification[ corncobs::encode_buf ](bytes: &[u8], output: &mut [u8]) -> (r: usize)
    requires
        bytes@.len() <= usize::MAX / 2,
        old(output)@.len() >= max_encoded_len_spec(bytes@.len()),
    ensures
        r == cobs_encoding(bytes@).len(),
        2 <= r <= max_encoded_len_spec(bytes@.len()),
        final(output)@ == cobs_encoding(bytes@) + old(output)@.skip(r as int),
        final(output)@[r - 1] == 0,
        forall|i: int| 0 <= i < r - 1 ==> final(output)@[i] != 0,
;

/// Relies on `corncobs::decode_in_place`: it decodes into the front of `bytes` and returns the
/// decoded length, which is no more than the input's; the only error it reports is
/// `Truncated`. Decoding what `encode_buf` wrote gives back the encoded bytes, whatever follows
/// the terminating zero (the crate's `fixture_round_trip_in_place` test).
pub assume_specification[ corncobs::decode_in_place ](bytes: &mut [u8]) -> (r: Result<usize, CobsError>)
    ensures
        match cobs_decoding(old(bytes)@) {
            Some(d) => r matches Ok(n) && n == d.len() && d.len() <= final(bytes)@.len()
                && final(bytes)@.take(d.len() as int) == d,
            None => r matches Err(e) && e == CobsError::Truncated,
        },
        forall|s: Seq<u8>|
            #[trigger] stuffed_prefix(old(bytes)@, s) ==> (r matches Ok(n) && n == s.len()
                && final(bytes)@.take(s.len() as int) == s),
;

/// A serialization error.
#[derive(Clone, Copy, Debug, PartialEq, Eq, Structural)]
pub enum SerializationError {
    /// The buffer cannot hold the encoded frame and its byte-stuffed form.
    /// At least the contained amount of bytes is required.
    WouldOverflow(usize),
}

/// A deserialization error.
#[derive(Clone, Copy, Debug, PartialEq, Eq, Structural)]
pub enum DeserializationError {
    /// The data buffer was truncated.
    Truncated,
    /// The data was corrupt.
    Corrupt,
    /// The un-stuffed bytes are not a frame.
    Decode(DecodeError),
}

impl From<CobsError> for DeserializationError {
    fn from(value: CobsError) -> (r: DeserializationError) {
        match value {
            CobsError::Truncated => DeserializationError::Truncated,
            CobsError::Corrupt => DeserializationError::Corrupt,
        }
    }
}

impl vstd::std_specs::convert::FromSpecImpl<CobsError> for DeserializationError {
    open spec fn obeys_from_spec() -> bool {
        true
    }

    open spec fn from_spec(v: CobsError) -> DeserializationError {
        match v {
            CobsError::Truncated => DeserializationError::Truncated,
            CobsError::Corrupt => DeserializationError::Corrupt,
        }
    }
}

impl From<DecodeError> for DeserializationError {
    fn from(value: DecodeError) -> (r: DeserializationError) {
        DeserializationError::Decode(value)
    }
}

impl vstd::std_specs::convert::FromSpecImpl<DecodeError> for DeserializationError {
    open spec fn obeys_from_spec() -> bool {
        true
    }

    open spec fn from_spec(v: DecodeError) -> DeserializationError {
        DeserializationError::Decode(v)
    }
}

/// The number of bytes that [`serialize`] needs for a frame whose encoding takes `n` bytes:
/// the encoding, then room for its byte-stuffed form.
pub open spec fn serialized_room(n: nat) -> nat {
    n + max_encoded_len_spec(n)
}

/// A frame's encoding takes at most 90 bytes.
pub proof fn lemma_frame_len(frame: VersionedDataFrame<Version1, Version1DataFrame>)
    ensures
        frame.spec_encode().len() <= 90,
{
    frame.data.value.lemma_payload_len();
}

/// Serializes a frame and applies byte stuffing.
///
/// The frame is encoded into the front of `buffer`, then byte-stuffed into the bytes after the
/// encoding; the returned range of `buffer` holds the stuffed frame, terminating zero included.
/// Fails, writing nothing, when `buffer` is shorter than the encoding plus the most that
/// stuffing can make of it; the error carries that length.
pub fn serialize(
    frame: VersionedDataFrame<Version1, Version1DataFrame>,
    buffer: &mut [u8],
) -> (r: Result<Range<usize>, SerializationError>)
    ensures
        final(buffer)@.len() == old(buffer)@.len(),
        r is Ok <==> serialized_room(frame.spec_encode().len()) <= old(buffer)@.len(),
        r matches Ok(range) ==> {
            &&& range.start == frame.spec_encode().len()
            &&& range.end == range.start + cobs_encoding(frame.spec_encode()).len()
            &&& range.end <= old(buffer)@.len()
            &&& final(buffer)@.subrange(range.start as int, range.end as int) == cobs_encoding(
                frame.spec_encode(),
            )
            &&& final(buffer)@.take(range.start as int) == frame.spec_encode()
        },
        r matches Err(e) ==> e == SerializationError::WouldOverflow(
            serialized_room(frame.spec_encode().len()) as usize,
        ) && final(buffer)@ == old(buffer)@,
{
    proof {
        lemma_frame_len(frame);
    }
    let num_serialized = frame.encoded_len();
    let length = corncobs::max_encoded_len(num_serialized);
    if buffer.len() < num_serialized + length {
        return Err(SerializationError::WouldOverflow(num_serialized + length));
    }
    let ghost encoded = frame.spec_encode();
    let end = frame.encode_to(buffer, 0);
    assert(buffer@.take(end as int) =~= encoded);
    let (source, target) = buffer.split_at_mut(num_serialized);
    let encoded_length = corncobs::encode_buf(source, target);
    assert(final(buffer)@.subrange(
        num_serialized as int,
        (num_serialized + encoded_length) as int,
    ) =~= cobs_encoding(encoded));
    Ok(num_serialized..num_serialized + encoded_length)
}

/// Deserializes a frame after undoing byte stuffing.
///
/// Un-stuffs `buffer` in place, then decodes a versioned frame from the un-stuffed bytes alone.
/// Returns the number of un-stuffed bytes with the frame. Bytes of `buffer` after the
/// un-stuffed ones are no longer valid input afterwards.
pub fn deserialize(buffer: &mut [u8]) -> (r: Result<
    (usize, VersionedDataFrame<Version1, Version1DataFrame>),
    DeserializationError,
>)
    ensures
        match cobs_decoding(old(buffer)@) {
            None => r == Err::<(usize, VersionedDataFrame<Version1, Version1DataFrame>), DeserializationError>(
                DeserializationError::Truncated,
            ),
            Some(d) => match VersionedDataFrame::<Version1, Version1DataFrame>::spec_decode(d) {
                Ok((frame, _)) => r == Ok::<(usize, VersionedDataFrame<Version1, Version1DataFrame>), DeserializationError>(
                    (d.len() as usize, frame),
                ),
                Err(e) => r == Err::<(usize, VersionedDataFrame<Version1, Version1DataFrame>), DeserializationError>(
                    DeserializationError::Decode(e),
                ),
            },
        },
        forall|frame: VersionedDataFrame<Version1, Version1DataFrame>|
            stuffed_prefix(old(buffer)@, #[trigger] frame.spec_encode()) ==> (r matches Ok((n, f))
                && n == frame.spec_encode().len() && f == frame),
{
    let ghost stuffed = buffer@;
    let read_length = match corncobs::decode_in_place(buffer) {
        Ok(n) => n,
        Err(e) => return Err(DeserializationError::from(e)),
    };
    let data = vstd::slice::slice_subrange(buffer, 0, read_length);
    assert(data@ =~= buffer@.take(read_length as int));
    let ghost d = data@;
    proof {
        assert forall|frame: VersionedDataFrame<Version1, Version1DataFrame>|
            stuffed_prefix(stuffed, #[trigger] frame.spec_encode()) implies d == frame.spec_encode()
            && VersionedDataFrame::<Version1, Version1DataFrame>::spec_decode(d) == Ok::<
                (VersionedDataFrame<Version1, Version1DataFrame>, nat),
                DecodeError,
            >((frame, frame.spec_encode().len())) by {
            assert(cobs_encoding(frame.spec_encode()).len() <= stuffed.len());
            frame.lemma_round_trip(Seq::empty());
            assert(frame.spec_encode() + Seq::<u8>::empty() =~= frame.spec_encode());
        }
    }
    match decode_from_slice::<VersionedDataFrame<Version1, Version1DataFrame>>(data) {
        Ok((frame, _)) => Ok((read_length, frame)),
        Err(e) => Err(DeserializationError::from(e)),
    }
}

} // verus!
