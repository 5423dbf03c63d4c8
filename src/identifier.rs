//! Identification strings: a fixed number of bytes, padded with spaces.
use vstd::prelude::*;
use vstd::string::StringSliceAdditionalSpecFns;
use vstd::utf8::valid_utf8;
use crate::sensor_id::SensorId;
use crate::value_type::ValueType;
use crate::wire::{lemma_field, lemma_skip_skip, lemma_spliced_twice, spliced, Codec, DecodeError};

verus! {

/// `core::str::Utf8Error`, carried through as an opaque value.
#[verifier::external_type_specification]
#[verifier::external_body]
pub struct ExUtf8Error(core::str::Utf8Error);

/// Relies on `core::str::from_utf8`: it succeeds exactly when the bytes are valid UTF-8, and the
/// string it returns is made of those bytes.
pub assume_specification<'a>[ core::str::from_utf8 ](v: &'a [u8]) -> (r: Result<
    &'a str,
    core::str::Utf8Error,
>)
    ensures
        r is Ok <==> valid_utf8(v@),
        r matches Ok(s) ==> s.spec_bytes() == v@,
;

/// Identifies the type of identifier.
#[derive(Clone, Copy, Debug, PartialEq, Eq, Hash, PartialOrd, Ord, Structural)]
pub enum IdentifierCode {
    /// Generic identification.
    Generic,
    /// Identifies the maker.
    Maker,
    /// Identifies the product.
    Product,
    /// Identifies the revision.
    Revision,
}

impl IdentifierCode {
    /// The byte that stands for this code on the wire.
    pub open spec fn spec_to_u8(self) -> u8 {
        match self {
            IdentifierCode::Generic => 0x00,
            IdentifierCode::Maker => 0x01,
            IdentifierCode::Product => 0x02,
            IdentifierCode::Revision => 0x03,
        }
    }

    /// The code that a byte stands for, if any.
    pub open spec fn spec_from_u8(b: u8) -> Option<IdentifierCode> {
        if b == 0x00 {
            Some(IdentifierCode::Generic)
        } else if b == 0x01 {
            Some(IdentifierCode::Maker)
        } else if b == 0x02 {
            Some(IdentifierCode::Product)
        } else if b == 0x03 {
            Some(IdentifierCode::Revision)
        } else {
            None
        }
    }

    /// The byte that stands for this code on the wire.
    pub fn to_u8(self) -> (r: u8)
        ensures
            r == self.spec_to_u8(),
    {
        match self {
            IdentifierCode::Generic => 0x00,
            IdentifierCode::Maker => 0x01,
            IdentifierCode::Product => 0x02,
            IdentifierCode::Revision => 0x03,
        }
    }

    /// The code that a byte stands for, if any.
    pub fn from_u8(b: u8) -> (r: Option<IdentifierCode>)
        ensures
            r == IdentifierCode::spec_from_u8(b),
    {
        match b {
            0x00 => Some(IdentifierCode::Generic),
            0x01 => Some(IdentifierCode::Maker),
            0x02 => Some(IdentifierCode::Product),
            0x03 => Some(IdentifierCode::Revision),
            _ => None,
        }
    }
}

impl Codec for IdentifierCode {
    open spec fn spec_encode(&self) -> Seq<u8> {
        seq![self.spec_to_u8()]
    }

    open spec fn spec_decode(s: Seq<u8>) -> Result<(IdentifierCode, nat), DecodeError> {
        if s.len() < 1 {
            Err(DecodeError::Truncated)
        } else {
            match IdentifierCode::spec_from_u8(s[0]) {
                Some(c) => Ok((c, 1)),
                None => Err(DecodeError::UnknownVariant),
            }
        }
    }

    proof fn lemma_round_trip(&self, rest: Seq<u8>) {
    }

    proof fn lemma_decode_within(s: Seq<u8>) {
    }

    fn encoded_len(&self) -> (n: usize) {
        1
    }

    fn encode_to(&self, buf: &mut [u8], pos: usize) -> (end: usize) {
        buf[pos] = self.to_u8();
        assert(buf@ =~= spliced(old(buf)@, pos as int, self.spec_encode()));
        pos + 1
    }

    fn decode_from(buf: &[u8], pos: usize) -> (r: Result<(IdentifierCode, usize), DecodeError>) {
        if buf.len() - pos < 1 {
            Err(DecodeError::Truncated)
        } else {
            match IdentifierCode::from_u8(buf[pos]) {
                Some(c) => Ok((c, pos + 1)),
                None => Err(DecodeError::UnknownVariant),
            }
        }
    }
}

/// The first `n` bytes of `bytes`, padded with ASCII spaces to `n` bytes where it is shorter.
pub open spec fn space_padded(bytes: Seq<u8>, n: nat) -> Seq<u8> {
    Seq::new(n, |i: int| if i < bytes.len() { bytes[i] } else { 0x20u8 })
}

/// The array whose bytes are `s`.
pub open spec fn array_of<const N: usize>(s: Seq<u8>) -> [u8; N] {
    choose|a: [u8; N]| a@ == s
}

/// Identification data as UTF-8 bytes, describing the sensor `target`.
#[derive(Clone, Copy, Debug, PartialEq, Eq, Hash, PartialOrd, Ord)]
pub struct Identifier<const N: usize> {
    /// Which sensor does this identify?
    pub target: SensorId,
    /// The type of identifier.
    pub code: IdentifierCode,
    /// The value (UTF-8).
    pub value: [u8; N],
}

impl<const N: usize> Identifier<N> {
    /// Initializes a new [`Identifier`]: the bytes of `value`, cut to `N` bytes, or padded with
    /// spaces to `N` bytes.
    pub fn new(target: SensorId, code: IdentifierCode, value: &str) -> (r: Self)
        ensures
            r.target == target,
            r.code == code,
            r.value@ == space_padded(value.spec_bytes(), N as nat),
    {
        let mut array = [0x20u8; N];
        let bytes = value.as_bytes();
        let mut i: usize = 0;
        while i < N && i < bytes.len()
            invariant
                i <= N,
                i <= bytes@.len(),
                bytes@ == value.spec_bytes(),
                array@.len() == N,
                forall|j: int| 0 <= j < i ==> array@[j] == bytes@[j],
                forall|j: int| i <= j < N ==> array@[j] == 0x20u8,
            decreases N - i,
        {
            array[i] = bytes[i];
            i = i + 1;
        }
        assert(array@ =~= space_padded(value.spec_bytes(), N as nat));
        Identifier { target, code, value: array }
    }

    /// Returns the value as a string.
    ///
    /// Fails when the value is not valid UTF-8.
    pub fn as_str(&self) -> (r: Result<&str, core::str::Utf8Error>)
        ensures
            r is Ok <==> valid_utf8(self.value@),
            r matches Ok(s) ==> s.spec_bytes() == self.value@,
    {
        core::str::from_utf8(self.value.as_slice())
    }
}

impl<const N: usize> Default for Identifier<N> {
    fn default() -> (r: Identifier<N>)
        ensures
            r.target == SensorId(0, 0, ValueType::Identifier),
            r.code == IdentifierCode::Generic,
            r.value@ == Seq::new(N as nat, |i: int| 0x20u8),
    {
        let value = [0x20u8; N];
        assert(value@ =~= Seq::new(N as nat, |i: int| 0x20u8));
        Identifier { target: SensorId(0, 0, ValueType::Identifier), code: IdentifierCode::Generic, value }
    }
}

impl<'a, const N: usize> From<&'a str> for Identifier<N> {
    fn from(value: &'a str) -> (r: Identifier<N>) {
        let r = Identifier::new(SensorId(0, 0, ValueType::Identifier), IdentifierCode::Generic, value);
        assert(r.value =~= array_of::<N>(space_padded(value.spec_bytes(), N as nat)));
        r
    }
}

impl<'a, const N: usize> vstd::std_specs::convert::FromSpecImpl<&'a str> for Identifier<N> {
    open spec fn obeys_from_spec() -> bool {
        true
    }

    open spec fn from_spec(v: &'a str) -> Identifier<N> {
        Identifier {
            target: SensorId(0, 0, ValueType::Identifier),
            code: IdentifierCode::Generic,
            value: array_of::<N>(space_padded(v.spec_bytes(), N as nat)),
        }
    }
}

impl<const N: usize> core::ops::Deref for Identifier<N> {
    type Target = [u8; N];

    fn deref(&self) -> &[u8; N] {
        &self.value
    }
}

impl<const N: usize> core::ops::DerefMut for Identifier<N> {
    fn deref_mut(&mut self) -> &mut [u8; N] {
        &mut self.value
    }
}

/// The number of bytes in the identification strings that go on the wire.
pub const IDENTIFIER_LEN: usize = 64;

impl Codec for Identifier<64> {
    open spec fn spec_encode(&self) -> Seq<u8> {
        self.target.spec_encode() + self.code.spec_encode() + self.value@
    }

    open spec fn spec_decode(s: Seq<u8>) -> Result<(Identifier<64>, nat), DecodeError> {
        match SensorId::spec_decode(s) {
            Err(e) => Err(e),
            Ok((target, n0)) => match IdentifierCode::spec_decode(s.skip(n0 as int)) {
                Err(e) => Err(e),
                Ok((code, n1)) => {
                    let s2 = s.skip(n0 as int).skip(n1 as int);
                    if s2.len() < 64 {
                        Err(DecodeError::Truncated)
                    } else {
                        Ok((Identifier { target, code, value: array_of::<64>(s2.take(64)) }, n0 + n1 + 64))
                    }
                },
            },
        }
    }

    proof fn lemma_round_trip(&self, rest: Seq<u8>) {
        let (e0, e1, e2) = (self.target.spec_encode(), self.code.spec_encode(), self.value@);
        assert(e0 + e1 + e2 + rest =~= e0 + (e1 + (e2 + rest)));
        lemma_field(self.target, e1 + (e2 + rest));
        lemma_field(self.code, e2 + rest);
        assert((e2 + rest).take(64) =~= e2);
        let a = array_of::<64>(e2);
        assert(a =~= self.value);
    }

    proof fn lemma_decode_within(s: Seq<u8>) {
        SensorId::lemma_decode_within(s);
        if let Ok((_, n0)) = SensorId::spec_decode(s) {
            IdentifierCode::lemma_decode_within(s.skip(n0 as int));
        }
    }

    fn encoded_len(&self) -> (n: usize) {
        69
    }

    fn encode_to(&self, buf: &mut [u8], pos: usize) -> (end: usize) {
        let ghost s0 = buf@;
        let p1 = self.target.encode_to(buf, pos);
        let p2 = self.code.encode_to(buf, p1);
        let ghost s2 = buf@;
        assert(buf@.len() == buf.len());
        let mut i: usize = 0;
        while i < IDENTIFIER_LEN
            invariant
                p2 + 64 <= buf@.len(),
                buf@.len() == s2.len(),
                s2.len() <= usize::MAX,
                forall|j: int| 0 <= j < p2 ==> buf@[j] == s2[j],
                forall|j: int| p2 + 64 <= j < s2.len() ==> buf@[j] == s2[j],
                forall|j: int| 0 <= j < i ==> buf@[p2 + j] == self.value@[j],
                i <= 64,
            decreases 64 - i,
        {
            buf[p2 + i] = self.value[i];
            i = i + 1;
        }
        proof {
            assert(buf@ =~= spliced(s2, p2 as int, self.value@));
            lemma_spliced_twice(s0, pos as int, self.target.spec_encode(), self.code.spec_encode());
            lemma_spliced_twice(
                s0,
                pos as int,
                self.target.spec_encode() + self.code.spec_encode(),
                self.value@,
            );
        }
        p2 + IDENTIFIER_LEN
    }

    fn decode_from(buf: &[u8], pos: usize) -> (r: Result<(Identifier<64>, usize), DecodeError>) {
        assert(buf@.len() == buf.len());
        let (target, p1) = match SensorId::decode_from(buf, pos) {
            Ok(v) => v,
            Err(e) => return Err(e),
        };
        proof {
            SensorId::lemma_decode_within(buf@.skip(pos as int));
            lemma_skip_skip(buf@, pos as int, p1 - pos);
        }
        let (code, p2) = match IdentifierCode::decode_from(buf, p1) {
            Ok(v) => v,
            Err(e) => return Err(e),
        };
        proof {
            IdentifierCode::lemma_decode_within(buf@.skip(p1 as int));
            lemma_skip_skip(buf@, p1 as int, p2 - p1);
        }
        if buf.len() - p2 < IDENTIFIER_LEN {
            return Err(DecodeError::Truncated);
        }
        let mut value = [0u8; 64];
        let mut i: usize = 0;
        while i < IDENTIFIER_LEN
            invariant
                p2 + 64 <= buf@.len(),
                value@.len() == 64,
                forall|j: int| 0 <= j < i ==> value@[j] == buf@[p2 + j],
                i <= 64,
            decreases 64 - i,
        {
            value[i] = buf[p2 + i];
            i = i + 1;
        }
        proof {
            let bytes = buf@.skip(p2 as int).take(64);
            assert(value@ =~= bytes);
            let a = array_of::<64>(bytes);
            assert(a =~= value);
        }
        Ok((Identifier { target, code, value }, p2 + IDENTIFIER_LEN))
    }
}

} // verus!
