//! Fixed-width little-endian encoding of values into caller-provided byte buffers.
use vstd::prelude::*;

verus! {

/// Why bytes could not be decoded into a value.
#[derive(Clone, Copy, Debug, PartialEq, Eq, Structural)]
pub enum DecodeError {
    /// Fewer bytes remained than the value needs.
    Truncated,
    /// A tag byte named no known variant: an unknown value type or identifier code, or a
    /// (sensor type id, value type) pair that no reading is registered under.
    UnknownVariant,
    /// The frame's version byte is not the protocol version being decoded.
    InvalidVersion,
}

/// Why a value could not be encoded.
#[derive(Clone, Copy, Debug, PartialEq, Eq, Structural)]
pub enum EncodeError {
    /// The destination is too small; the encoding needs the given number of bytes.
    Overflow(usize),
}

/// `s` with the bytes from position `pos` on overwritten by `bytes`.
pub open spec fn spliced(s: Seq<u8>, pos: int, bytes: Seq<u8>) -> Seq<u8> {
    s.take(pos) + bytes + s.skip(pos + bytes.len())
}

/// Writing `a` and then `b` right after it is writing `a + b`.
pub proof fn lemma_spliced_twice(s: Seq<u8>, pos: int, a: Seq<u8>, b: Seq<u8>)
    requires
        0 <= pos,
        pos + a.len() + b.len() <= s.len(),
    ensures
        spliced(spliced(s, pos, a), pos + a.len(), b) == spliced(s, pos, a + b),
{
    assert(spliced(spliced(s, pos, a), pos + a.len(), b) =~= spliced(s, pos, a + b));
}

/// What a decoder that starts at `pos` returns, given what the value's spec decoder reads from
/// the bytes from `pos` on: the value and the position right after it.
pub open spec fn decoded_at<T>(d: Result<(T, nat), DecodeError>, pos: int) -> Result<
    (T, usize),
    DecodeError,
> {
    match d {
        Ok((v, n)) => Ok((v, (pos + n) as usize)),
        Err(e) => Err(e),
    }
}

/// A value with a fixed byte encoding.
///
/// `spec_encode` gives the bytes of a value; `spec_decode` gives what is read from the front of a
/// byte sequence, with the number of bytes taken. Decoding never looks past the bytes the value
/// takes, and decoding an encoding gives the value back.
pub trait Codec: Sized {
    spec fn spec_encode(&self) -> Seq<u8>;

    spec fn spec_decode(s: Seq<u8>) -> Result<(Self, nat), DecodeError>;

    /// Decoding the encoding of `self`, whatever follows it, gives `self` and takes exactly the
    /// encoding.
    proof fn lemma_round_trip(&self, rest: Seq<u8>)
        ensures
            Self::spec_decode(self.spec_encode() + rest) == Ok::<(Self, nat), DecodeError>(
                (*self, self.spec_encode().len()),
            ),
    ;

    /// A decoder takes no more bytes than there are.
    proof fn lemma_decode_within(s: Seq<u8>)
        ensures
            Self::spec_decode(s) matches Ok((_, n)) ==> n <= s.len(),
    ;

    /// The number of bytes that `self` encodes to.
    fn encoded_len(&self) -> (n: usize)
        ensures
            n == self.spec_encode().len(),
    ;

    /// Writes the encoding of `self` at `pos` and returns the position right after it.
    fn encode_to(&self, buf: &mut [u8], pos: usize) -> (end: usize)
        requires
            pos + self.spec_encode().len() <= old(buf)@.len(),
        ensures
            end == pos + self.spec_encode().len(),
            final(buf)@ == spliced(old(buf)@, pos as int, self.spec_encode()),
    ;

    /// Decodes a value from the bytes at `pos` on, returning it with the position right after it.
    fn decode_from(buf: &[u8], pos: usize) -> (r: Result<(Self, usize), DecodeError>)
        requires
            pos <= buf@.len(),
        ensures
            r == decoded_at(Self::spec_decode(buf@.skip(pos as int)), pos as int),
            r matches Ok((_, end)) ==> pos <= end <= buf@.len(),
    ;
}

/// A number that makes up one component of a reading: a few bytes, always the same number.
pub trait Component: Codec + Copy {
    proof fn lemma_small(&self)
        ensures
            self.spec_encode().len() <= 16,
    ;
}

/// The little-endian bytes of a 16-bit value.
pub open spec fn u16_le(v: u16) -> Seq<u8> {
    seq![v as u8, (v >> 8u16) as u8]
}

/// The 16-bit value with little-endian bytes `b0`, `b1`.
pub open spec fn u16_from_le(b0: u8, b1: u8) -> u16 {
    (b0 as u16) | ((b1 as u16) << 8u16)
}

/// The little-endian bytes of a 32-bit value.
pub open spec fn u32_le(v: u32) -> Seq<u8> {
    seq![v as u8, (v >> 8u32) as u8, (v >> 16u32) as u8, (v >> 24u32) as u8]
}

/// The 32-bit value with little-endian bytes `b0` to `b3`.
pub open spec fn u32_from_le(b0: u8, b1: u8, b2: u8, b3: u8) -> u32 {
    (b0 as u32) | ((b1 as u32) << 8u32) | ((b2 as u32) << 16u32) | ((b3 as u32) << 24u32)
}

proof fn lemma_u16_le(v: u16)
    ensures
        u16_from_le(v as u8, (v >> 8u16) as u8) == v,
{
    assert(((v as u8) as u16) | ((((v >> 8u16) as u8) as u16) << 8u16) == v) by (bit_vector);
}

proof fn lemma_u32_le(v: u32)
    ensures
        u32_from_le(v as u8, (v >> 8u32) as u8, (v >> 16u32) as u8, (v >> 24u32) as u8) == v,
{
    assert(((v as u8) as u32) | ((((v >> 8u32) as u8) as u32) << 8u32) | ((((v >> 16u32) as u8)
        as u32) << 16u32) | ((((v >> 24u32) as u8) as u32) << 24u32) == v) by (bit_vector);
}

proof fn lemma_i8_bits(v: i8)
    ensures
        (v as u8) as i8 == v,
{
    assert((v as u8) as i8 == v) by (bit_vector);
}

proof fn lemma_i16_bits(v: i16)
    ensures
        (v as u16) as i16 == v,
{
    assert((v as u16) as i16 == v) by (bit_vector);
}

proof fn lemma_i32_bits(v: i32)
    ensures
        (v as u32) as i32 == v,
{
    assert((v as u32) as i32 == v) by (bit_vector);
}

/// Decoding `width` bytes that stand for a whole number: they are there, or it is truncated.
pub open spec fn fixed<T>(s: Seq<u8>, width: nat, v: T) -> Result<(T, nat), DecodeError> {
    if s.len() < width {
        Err(DecodeError::Truncated)
    } else {
        Ok((v, width))
    }
}

impl Codec for u8 {
    open spec fn spec_encode(&self) -> Seq<u8> {
        seq![*self]
    }

    open spec fn spec_decode(s: Seq<u8>) -> Result<(u8, nat), DecodeError> {
        fixed(s, 1, s[0])
    }

    proof fn lemma_round_trip(&self, rest: Seq<u8>) {
    }

    proof fn lemma_decode_within(s: Seq<u8>) {
    }

    fn encoded_len(&self) -> (n: usize) {
        1
    }

    fn encode_to(&self, buf: &mut [u8], pos: usize) -> (end: usize) {
        buf[pos] = *self;
        assert(buf@ =~= spliced(old(buf)@, pos as int, self.spec_encode()));
        pos + 1
    }

    fn decode_from(buf: &[u8], pos: usize) -> (r: Result<(u8, usize), DecodeError>) {
        if buf.len() - pos < 1 {
            Err(DecodeError::Truncated)
        } else {
            Ok((buf[pos], pos + 1))
        }
    }
}

impl Component for u8 {
    proof fn lemma_small(&self) {
    }
}

impl Codec for i8 {
    open spec fn spec_encode(&self) -> Seq<u8> {
        seq![*self as u8]
    }

    open spec fn spec_decode(s: Seq<u8>) -> Result<(i8, nat), DecodeError> {
        fixed(s, 1, s[0] as i8)
    }

    proof fn lemma_round_trip(&self, rest: Seq<u8>) {
        lemma_i8_bits(*self);
    }

    proof fn lemma_decode_within(s: Seq<u8>) {
    }

    fn encoded_len(&self) -> (n: usize) {
        1
    }

    fn encode_to(&self, buf: &mut [u8], pos: usize) -> (end: usize) {
        buf[pos] = *self as u8;
        assert(buf@ =~= spliced(old(buf)@, pos as int, self.spec_encode()));
        pos + 1
    }

    fn decode_from(buf: &[u8], pos: usize) -> (r: Result<(i8, usize), DecodeError>) {
        if buf.len() - pos < 1 {
            Err(DecodeError::Truncated)
        } else {
            Ok((buf[pos] as i8, pos + 1))
        }
    }
}

impl Component for i8 {
    proof fn lemma_small(&self) {
    }
}

impl Codec for u16 {
    open spec fn spec_encode(&self) -> Seq<u8> {
        u16_le(*self)
    }

    open spec fn spec_decode(s: Seq<u8>) -> Result<(u16, nat), DecodeError> {
        fixed(s, 2, u16_from_le(s[0], s[1]))
    }

    proof fn lemma_round_trip(&self, rest: Seq<u8>) {
        lemma_u16_le(*self);
    }

    proof fn lemma_decode_within(s: Seq<u8>) {
    }

    fn encoded_len(&self) -> (n: usize) {
        2
    }

    fn encode_to(&self, buf: &mut [u8], pos: usize) -> (end: usize) {
        let v = *self;
        buf[pos] = v as u8;
        buf[pos + 1] = (v >> 8u16) as u8;
        assert(buf@ =~= spliced(old(buf)@, pos as int, self.spec_encode()));
        pos + 2
    }

    fn decode_from(buf: &[u8], pos: usize) -> (r: Result<(u16, usize), DecodeError>) {
        if buf.len() - pos < 2 {
            Err(DecodeError::Truncated)
        } else {
            let v = (buf[pos] as u16) | ((buf[pos + 1] as u16) << 8u16);
            Ok((v, pos + 2))
        }
    }
}

impl Component for u16 {
    proof fn lemma_small(&self) {
    }
}

impl Codec for i16 {
    open spec fn spec_encode(&self) -> Seq<u8> {
        u16_le(*self as u16)
    }

    open spec fn spec_decode(s: Seq<u8>) -> Result<(i16, nat), DecodeError> {
        fixed(s, 2, u16_from_le(s[0], s[1]) as i16)
    }

    proof fn lemma_round_trip(&self, rest: Seq<u8>) {
        lemma_u16_le(*self as u16);
        lemma_i16_bits(*self);
    }

    proof fn lemma_decode_within(s: Seq<u8>) {
    }

    fn encoded_len(&self) -> (n: usize) {
        2
    }

    fn encode_to(&self, buf: &mut [u8], pos: usize) -> (end: usize) {
        let v = *self as u16;
        buf[pos] = v as u8;
        buf[pos + 1] = (v >> 8u16) as u8;
        assert(buf@ =~= spliced(old(buf)@, pos as int, self.spec_encode()));
        pos + 2
    }

    fn decode_from(buf: &[u8], pos: usize) -> (r: Result<(i16, usize), DecodeError>) {
        if buf.len() - pos < 2 {
            Err(DecodeError::Truncated)
        } else {
            let v = (buf[pos] as u16) | ((buf[pos + 1] as u16) << 8u16);
            Ok((v as i16, pos + 2))
        }
    }
}

impl Component for i16 {
    proof fn lemma_small(&self) {
    }
}

impl Codec for u32 {
    open spec fn spec_encode(&self) -> Seq<u8> {
        u32_le(*self)
    }

    open spec fn spec_decode(s: Seq<u8>) -> Result<(u32, nat), DecodeError> {
        fixed(s, 4, u32_from_le(s[0], s[1], s[2], s[3]))
    }

    proof fn lemma_round_trip(&self, rest: Seq<u8>) {
        lemma_u32_le(*self);
    }

    proof fn lemma_decode_within(s: Seq<u8>) {
    }

    fn encoded_len(&self) -> (n: usize) {
        4
    }

    fn encode_to(&self, buf: &mut [u8], pos: usize) -> (end: usize) {
        let v = *self;
        buf[pos] = v as u8;
        buf[pos + 1] = (v >> 8u32) as u8;
        buf[pos + 2] = (v >> 16u32) as u8;
        buf[pos + 3] = (v >> 24u32) as u8;
        assert(buf@ =~= spliced(old(buf)@, pos as int, self.spec_encode()));
        pos + 4
    }

    fn decode_from(buf: &[u8], pos: usize) -> (r: Result<(u32, usize), DecodeError>) {
        if buf.len() - pos < 4 {
            Err(DecodeError::Truncated)
        } else {
            let v = (buf[pos] as u32) | ((buf[pos + 1] as u32) << 8u32) | ((buf[pos + 2] as u32)
                << 16u32) | ((buf[pos + 3] as u32) << 24u32);
            Ok((v, pos + 4))
        }
    }
}

impl Component for u32 {
    proof fn lemma_small(&self) {
    }
}

impl Codec for i32 {
    open spec fn spec_encode(&self) -> Seq<u8> {
        u32_le(*self as u32)
    }

    open spec fn spec_decode(s: Seq<u8>) -> Result<(i32, nat), DecodeError> {
        fixed(s, 4, u32_from_le(s[0], s[1], s[2], s[3]) as i32)
    }

    proof fn lemma_round_trip(&self, rest: Seq<u8>) {
        lemma_u32_le(*self as u32);
        lemma_i32_bits(*self);
    }

    proof fn lemma_decode_within(s: Seq<u8>) {
    }

    fn encoded_len(&self) -> (n: usize) {
        4
    }

    fn encode_to(&self, buf: &mut [u8], pos: usize) -> (end: usize) {
        let v = *self as u32;
        buf[pos] = v as u8;
        buf[pos + 1] = (v >> 8u32) as u8;
        buf[pos + 2] = (v >> 16u32) as u8;
        buf[pos + 3] = (v >> 24u32) as u8;
        assert(buf@ =~= spliced(old(buf)@, pos as int, self.spec_encode()));
        pos + 4
    }

    fn decode_from(buf: &[u8], pos: usize) -> (r: Result<(i32, usize), DecodeError>) {
        if buf.len() - pos < 4 {
            Err(DecodeError::Truncated)
        } else {
            let v = (buf[pos] as u32) | ((buf[pos + 1] as u32) << 8u32) | ((buf[pos + 2] as u32)
                << 16u32) | ((buf[pos + 3] as u32) << 24u32);
            Ok((v as i32, pos + 4))
        }
    }
}

impl Component for i32 {
    proof fn lemma_small(&self) {
    }
}

/// Encodes `value` into the front of `buf` and returns the number of bytes written.
///
/// Fails, leaving `buf` untouched, when `buf` is shorter than the encoding.
pub fn encode_into_slice<T: Codec>(value: &T, buf: &mut [u8]) -> (r: Result<usize, EncodeError>)
    ensures
        r is Ok <==> value.spec_encode().len() <= old(buf)@.len(),
        r matches Ok(n) ==> n == value.spec_encode().len() && final(buf)@ == spliced(
            old(buf)@,
            0,
            value.spec_encode(),
        ),
        r matches Err(e) ==> e == EncodeError::Overflow(value.spec_encode().len() as usize)
            && final(buf)@ == old(buf)@,
{
    let n = value.encoded_len();
    if n > buf.len() {
        Err(EncodeError::Overflow(n))
    } else {
        Ok(value.encode_to(buf, 0))
    }
}

/// Decodes a value from the front of `buf`, returning it with the number of bytes it took.
pub fn decode_from_slice<T: Codec>(buf: &[u8]) -> (r: Result<(T, usize), DecodeError>)
    ensures
        r == decoded_at(T::spec_decode(buf@), 0),
{
    assert(buf@.skip(0) =~= buf@);
    T::decode_from(buf, 0)
}

/// Encoding depends on the value alone: equal values encoded into any two buffers leave the
/// same bytes at the front of both.
pub proof fn lemma_encoding_deterministic<T: Codec>(a: T, b: T, buf1: Seq<u8>, buf2: Seq<u8>)
    requires
        a == b,
        a.spec_encode().len() <= buf1.len(),
        a.spec_encode().len() <= buf2.len(),
    ensures
        spliced(buf1, 0, a.spec_encode()).take(a.spec_encode().len() as int) == spliced(
            buf2,
            0,
            b.spec_encode(),
        ).take(b.spec_encode().len() as int),
{
    assert(spliced(buf1, 0, a.spec_encode()).take(a.spec_encode().len() as int) =~= a.spec_encode());
    assert(spliced(buf2, 0, b.spec_encode()).take(b.spec_encode().len() as int) =~= b.spec_encode());
}

/// Decoding what was encoded gives the value back, and takes exactly the bytes of the encoding,
/// whatever bytes follow them.
pub proof fn lemma_decode_encoded<T: Codec>(value: T, rest: Seq<u8>)
    ensures
        T::spec_decode(value.spec_encode() + rest) == Ok::<(T, nat), DecodeError>(
            (value, value.spec_encode().len()),
        ),
{
    value.lemma_round_trip(rest);
}

} // verus!

verus! {

/// Decoding a value whose encoding is followed by `tail` gives the value and leaves `tail`.
pub proof fn lemma_field<T: Codec>(v: T, tail: Seq<u8>)
    ensures
        T::spec_decode(v.spec_encode() + tail) == Ok::<(T, nat), DecodeError>(
            (v, v.spec_encode().len()),
        ),
        (v.spec_encode() + tail).skip(v.spec_encode().len() as int) == tail,
{
    v.lemma_round_trip(tail);
    assert((v.spec_encode() + tail).skip(v.spec_encode().len() as int) =~= tail);
}

/// Skipping `a` bytes and then `b` more is skipping `a + b`.
pub proof fn lemma_skip_skip(s: Seq<u8>, a: int, b: int)
    requires
        0 <= a,
        0 <= b,
        a + b <= s.len(),
    ensures
        s.skip(a).skip(b) == s.skip(a + b),
{
    assert(s.skip(a).skip(b) =~= s.skip(a + b));
}

} // verus!
