//! The one-byte tag that says how the components of a reading are represented on the wire.
use vstd::prelude::*;
use crate::wire::{spliced, Codec, DecodeError};

verus! {

/// How each component of a reading is represented.
#[derive(Clone, Copy, Debug, PartialEq, Eq, Hash, PartialOrd, Ord, Structural)]
pub enum ValueType {
    /// Unsigned 8-bit integer per component
    UInt8,
    /// Signed 8-bit integer per component
    SInt8,
    /// Unsigned 16-bit integer per component
    UInt16,
    /// Signed 16-bit integer per component
    SInt16,
    /// Unsigned 32-bit integer per component
    UInt32,
    /// Signed 32-bit integer per component
    SInt32,
    /// Unsigned 64-bit integer per component
    UInt64,
    /// Signed 64-bit integer per component
    SInt64,
    /// Unsigned 128-bit integer per component
    UInt128,
    /// Signed 128-bit integer per component
    SInt128,
    /// 32-bit floating point per component
    Float32,
    /// 64-bit floating point per component
    Float64,
    /// 16-bit fixed-point format, Q8.8 (I8F8)
    Q8_8,
    /// 32-bit fixed-point format, Q16.16 (I16F16)
    Q16_16,
    /// 64-bit fixed-point format, Q32.32 (I32F32)
    Q32_32,
    /// A value range description.
    LinearRange,
    /// An identifier.
    Identifier,
}

impl ValueType {
    /// The byte that stands for this value type on the wire.
    pub open spec fn spec_to_u8(self) -> u8 {
        match self {
            ValueType::UInt8 => 0x01,
            ValueType::SInt8 => 0x02,
            ValueType::UInt16 => 0x03,
            ValueType::SInt16 => 0x04,
            ValueType::UInt32 => 0x05,
            ValueType::SInt32 => 0x06,
            ValueType::UInt64 => 0x07,
            ValueType::SInt64 => 0x08,
            ValueType::UInt128 => 0x09,
            ValueType::SInt128 => 0x0A,
            ValueType::Float32 => 0x0B,
            ValueType::Float64 => 0x0C,
            ValueType::Q8_8 => 0x0D,
            ValueType::Q16_16 => 0x0E,
            ValueType::Q32_32 => 0x0F,
            ValueType::LinearRange => 0xFE,
            ValueType::Identifier => 0xFF,
        }
    }

    /// The value type that a byte stands for, if any.
    pub open spec fn spec_from_u8(b: u8) -> Option<ValueType> {
        if b == 0x01 {
            Some(ValueType::UInt8)
        } else if b == 0x02 {
            Some(ValueType::SInt8)
        } else if b == 0x03 {
            Some(ValueType::UInt16)
        } else if b == 0x04 {
            Some(ValueType::SInt16)
        } else if b == 0x05 {
            Some(ValueType::UInt32)
        } else if b == 0x06 {
            Some(ValueType::SInt32)
        } else if b == 0x07 {
            Some(ValueType::UInt64)
        } else if b == 0x08 {
            Some(ValueType::SInt64)
        } else if b == 0x09 {
            Some(ValueType::UInt128)
        } else if b == 0x0A {
            Some(ValueType::SInt128)
        } else if b == 0x0B {
            Some(ValueType::Float32)
        } else if b == 0x0C {
            Some(ValueType::Float64)
        } else if b == 0x0D {
            Some(ValueType::Q8_8)
        } else if b == 0x0E {
            Some(ValueType::Q16_16)
        } else if b == 0x0F {
            Some(ValueType::Q32_32)
        } else if b == 0xFE {
            Some(ValueType::LinearRange)
        } else if b == 0xFF {
            Some(ValueType::Identifier)
        } else {
            None
        }
    }

    /// Reading back the byte of a value type gives that value type.
    pub proof fn lemma_from_to_u8(self)
        ensures
            ValueType::spec_from_u8(self.spec_to_u8()) == Some(self),
    {
    }

    /// The byte that stands for this value type on the wire.
    pub fn to_u8(self) -> (r: u8)
        ensures
            r == self.spec_to_u8(),
    {
        match self {
            ValueType::UInt8 => 0x01,
            ValueType::SInt8 => 0x02,
            ValueType::UInt16 => 0x03,
            ValueType::SInt16 => 0x04,
            ValueType::UInt32 => 0x05,
            ValueType::SInt32 => 0x06,
            ValueType::UInt64 => 0x07,
            ValueType::SInt64 => 0x08,
            ValueType::UInt128 => 0x09,
            ValueType::SInt128 => 0x0A,
            ValueType::Float32 => 0x0B,
            ValueType::Float64 => 0x0C,
            ValueType::Q8_8 => 0x0D,
            ValueType::Q16_16 => 0x0E,
            ValueType::Q32_32 => 0x0F,
            ValueType::LinearRange => 0xFE,
            ValueType::Identifier => 0xFF,
        }
    }

    /// The value type that a byte stands for, if any.
    pub fn from_u8(b: u8) -> (r: Option<ValueType>)
        ensures
            r == ValueType::spec_from_u8(b),
    {
        match b {
            0x01 => Some(ValueType::UInt8),
            0x02 => Some(ValueType::SInt8),
            0x03 => Some(ValueType::UInt16),
            0x04 => Some(ValueType::SInt16),
            0x05 => Some(ValueType::UInt32),
            0x06 => Some(ValueType::SInt32),
            0x07 => Some(ValueType::UInt64),
            0x08 => Some(ValueType::SInt64),
            0x09 => Some(ValueType::UInt128),
            0x0A => Some(ValueType::SInt128),
            0x0B => Some(ValueType::Float32),
            0x0C => Some(ValueType::Float64),
            0x0D => Some(ValueType::Q8_8),
            0x0E => Some(ValueType::Q16_16),
            0x0F => Some(ValueType::Q32_32),
            0xFE => Some(ValueType::LinearRange),
            0xFF => Some(ValueType::Identifier),
            _ => None,
        }
    }
}

impl TryFrom<u8> for ValueType {
    type Error = ();

    fn try_from(value: u8) -> (r: Result<ValueType, ()>) {
        match ValueType::from_u8(value) {
            Some(v) => Ok(v),
            None => Err(()),
        }
    }
}

impl vstd::std_specs::convert::TryFromSpecImpl<u8> for ValueType {
    open spec fn obeys_try_from_spec() -> bool {
        true
    }

    open spec fn try_from_spec(v: u8) -> Result<ValueType, ()> {
        match ValueType::spec_from_u8(v) {
            Some(t) => Ok(t),
            None => Err(()),
        }
    }
}

impl Default for ValueType {
    fn default() -> (r: ValueType)
        ensures
            r == ValueType::Identifier,
    {
        ValueType::Identifier
    }
}

impl Codec for ValueType {
    open spec fn spec_encode(&self) -> Seq<u8> {
        seq![self.spec_to_u8()]
    }

    open spec fn spec_decode(s: Seq<u8>) -> Result<(ValueType, nat), DecodeError> {
        if s.len() < 1 {
            Err(DecodeError::Truncated)
        } else {
            match ValueType::spec_from_u8(s[0]) {
                Some(v) => Ok((v, 1)),
                None => Err(DecodeError::UnknownVariant),
            }
        }
    }

    proof fn lemma_round_trip(&self, rest: Seq<u8>) {
        self.lemma_from_to_u8();
    }

    proof fn lemma_decode_within(s: Seq<u8>) {
    }

    fn encoded_len(&self) -> (n: usize) {
        1
    }

    fn encode_to(&self, buf: &mut [u8], pos: usize) -> (end: usize) {
        buf[pos] = self.to_u8();
        assert(buf@ =~= spliced(old(buf)@, pos as int, self.spec_encode()));
        pos + 1
    }

    fn decode_from(buf: &[u8], pos: usize) -> (r: Result<(ValueType, usize), DecodeError>) {
        if buf.len() - pos < 1 {
            Err(DecodeError::Truncated)
        } else {
            match ValueType::from_u8(buf[pos]) {
                Some(v) => Ok((v, pos + 1)),
                None => Err(DecodeError::UnknownVariant),
            }
        }
    }
}

} // verus!
