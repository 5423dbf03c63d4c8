//! The identity of one physical sensor.
use vstd::prelude::*;
use crate::value_type::ValueType;
use crate::wire::{lemma_field, lemma_skip_skip, lemma_spliced_twice, Codec, DecodeError};

verus! {

/// Identifies a sensor: a device-specific tag, the sensor type id and the value type.
///
/// The tag tells apart sensors of the same type on one device.
#[derive(Clone, Copy, Debug, PartialEq, Eq, Hash, PartialOrd, Ord, Structural)]
pub struct SensorId(pub u16, pub u8, pub ValueType);

impl SensorId {
    /// Constructs a new sensor ID.
    pub fn new_with(sensor_tag: u16, sensor_type_id: u8, value_type: ValueType) -> (r: SensorId)
        ensures
            r == SensorId(sensor_tag, sensor_type_id, value_type),
    {
        SensorId(sensor_tag, sensor_type_id, value_type)
    }

    /// Returns the sensor tag.
    pub fn tag(&self) -> (r: u16)
        ensures
            r == self.0,
    {
        self.0
    }

    /// Returns the sensor type id.
    pub fn id(&self) -> (r: u8)
        ensures
            r == self.1,
    {
        self.1
    }

    /// Returns the sensor's value type.
    pub fn value_type(&self) -> (r: ValueType)
        ensures
            r == self.2,
    {
        self.2
    }
}

impl Default for SensorId {
    fn default() -> (r: SensorId)
        ensures
            r == SensorId(0, 0, ValueType::Identifier),
    {
        SensorId(0, 0, ValueType::Identifier)
    }
}

impl Codec for SensorId {
    open spec fn spec_encode(&self) -> Seq<u8> {
        self.0.spec_encode() + self.1.spec_encode() + self.2.spec_encode()
    }

    open spec fn spec_decode(s: Seq<u8>) -> Result<(SensorId, nat), DecodeError> {
        match u16::spec_decode(s) {
            Err(e) => Err(e),
            Ok((tag, n0)) => match u8::spec_decode(s.skip(n0 as int)) {
                Err(e) => Err(e),
                Ok((id, n1)) => match ValueType::spec_decode(s.skip(n0 as int).skip(n1 as int)) {
                    Err(e) => Err(e),
                    Ok((vt, n2)) => Ok((SensorId(tag, id, vt), n0 + n1 + n2)),
                },
            },
        }
    }

    proof fn lemma_round_trip(&self, rest: Seq<u8>) {
        let (e0, e1, e2) = (self.0.spec_encode(), self.1.spec_encode(), self.2.spec_encode());
        assert(e0 + e1 + e2 + rest =~= e0 + (e1 + (e2 + rest)));
        lemma_field(self.0, e1 + (e2 + rest));
        lemma_field(self.1, e2 + rest);
        lemma_field(self.2, rest);
    }

    proof fn lemma_decode_within(s: Seq<u8>) {
        u16::lemma_decode_within(s);
        if let Ok((_, n0)) = u16::spec_decode(s) {
            u8::lemma_decode_within(s.skip(n0 as int));
            if let Ok((_, n1)) = u8::spec_decode(s.skip(n0 as int)) {
                ValueType::lemma_decode_within(s.skip(n0 as int).skip(n1 as int));
            }
        }
    }

    fn encoded_len(&self) -> (n: usize) {
        4
    }

    fn encode_to(&self, buf: &mut [u8], pos: usize) -> (end: usize) {
        let ghost s0 = buf@;
        let p1 = self.0.encode_to(buf, pos);
        let p2 = self.1.encode_to(buf, p1);
        let p3 = self.2.encode_to(buf, p2);
        proof {
            lemma_spliced_twice(s0, pos as int, self.0.spec_encode(), self.1.spec_encode());
            lemma_spliced_twice(
                s0,
                pos as int,
                self.0.spec_encode() + self.1.spec_encode(),
                self.2.spec_encode(),
            );
        }
        p3
    }

    fn decode_from(buf: &[u8], pos: usize) -> (r: Result<(SensorId, usize), DecodeError>) {
        let ghost s = buf@.skip(pos as int);
        assert(buf@.len() == buf.len());
        let (tag, p1) = match u16::decode_from(buf, pos) {
            Ok(v) => v,
            Err(e) => return Err(e),
        };
        proof {
            u16::lemma_decode_within(s);
            lemma_skip_skip(buf@, pos as int, p1 - pos);
        }
        let (id, p2) = match u8::decode_from(buf, p1) {
            Ok(v) => v,
            Err(e) => return Err(e),
        };
        proof {
            u8::lemma_decode_within(buf@.skip(p1 as int));
            lemma_skip_skip(buf@, p1 as int, p2 - p1);
        }
        let (vt, p3) = match ValueType::decode_from(buf, p2) {
            Ok(v) => v,
            Err(e) => return Err(e),
        };
        Ok((SensorId(tag, id, vt), p3))
    }
}

} // verus!
