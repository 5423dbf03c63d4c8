//! The envelope that holds one reading of any registered type, and what identifies it.
use vstd::prelude::*;
use crate::data_types::{ScalarData, Vector3Data, Vector4Data};
use crate::identifier::Identifier;
use crate::linear_ranges::LinearRanges;
use crate::registry::{
    lemma_lookup_unique, lemma_registry_ids_unique, lookup, registry, registry_spec, spec_lookup,
    ComponentLookupError, RegistryEntry,
};
use crate::sensor_id::SensorId;
use crate::types;
use crate::value_type::ValueType;
use crate::wire::{lemma_skip_skip, lemma_spliced_twice, spliced, Codec, DecodeError};

verus! {

/// Sensor type information that a reading type carries as constants.
pub trait CompileTimeTypeInformation: Default {
    /// The sensor type id.
    const TYPE_ID: u8;

    /// The value type.
    const VALUE_TYPE: ValueType;

    /// The number of components of the vector.
    const NUM_COMPONENTS: u8;
}

/// Sensor type information of a value whose reading type is known only when it runs.
pub trait RuntimeTypeInformation {
    spec fn spec_sensor_type_id(&self) -> u8;

    spec fn spec_value_type(&self) -> ValueType;

    spec fn spec_num_components(&self) -> u8;

    /// Returns the sensor type ID.
    fn sensor_type_id(&self) -> (r: u8)
        ensures
            r == self.spec_sensor_type_id(),
    ;

    /// Returns the field value type.
    fn value_type(&self) -> (r: ValueType)
        ensures
            r == self.spec_value_type(),
    ;

    /// The number of components
    fn num_components(&self) -> (r: u8)
        ensures
            r == self.spec_num_components(),
    ;
}

/// One reading of any registered type.
///
/// On the wire it is the sensor type id, the value type byte, then the reading's own bytes; the
/// two discriminator bytes say which reading follows.
#[derive(Clone, Copy, Debug, PartialEq)]
pub enum SensorData {
    /// The system clock frequency, expressed in Hertz (Hz).
    SystemClockFrequency(types::SystemClockFrequency),
    /// A sensor that measures the gravity vector, typically expressed in "g".
    AccelerometerI16(types::AccelerometerI16),
    /// A sensor that measures magnetic field strength, typically expressed in milligauss (mG).
    MagnetometerI16(types::MagnetometerI16),
    /// A sensor that measures temperature, typically expressed in degrees Celsius.
    TemperatureI16(types::TemperatureI16),
    /// A sensor that measures angular velocity, typically expressed in degrees/second.
    GyroscopeI16(types::GyroscopeI16),
    /// A sensor that measures heading, i.e. the direction towards magnetic north.
    HeadingI16(types::HeadingI16),
    /// Euler angles, in radians.
    EulerAnglesF32(types::EulerAnglesF32),
    /// An orientation quaternion.
    OrientationQuaternionF32(types::OrientationQuaternionF32),
    /// Calibration ranges of another sensor.
    LinearRanges(types::LinearRanges),
    /// Identification data of another sensor.
    Identification(types::Identification),
}

/// The variant that a pair of discriminators selects, by its position in the registry.
pub open spec fn variant_index(sensor_type_id: u8, value_type: ValueType) -> Option<u8> {
    if sensor_type_id == 0x02 && value_type == ValueType::UInt32 {
        Some(0)
    } else if sensor_type_id == 0x42 && value_type == ValueType::SInt16 {
        Some(1)
    } else if sensor_type_id == 0x43 && value_type == ValueType::SInt16 {
        Some(2)
    } else if sensor_type_id == 0x44 && value_type == ValueType::SInt16 {
        Some(3)
    } else if sensor_type_id == 0x45 && value_type == ValueType::SInt16 {
        Some(4)
    } else if sensor_type_id == 0x46 && value_type == ValueType::UInt8 {
        Some(5)
    } else if sensor_type_id == 0xF0 && value_type == ValueType::Float32 {
        Some(6)
    } else if sensor_type_id == 0xF1 && value_type == ValueType::Float32 {
        Some(7)
    } else if sensor_type_id == 0xFE && value_type == ValueType::LinearRange {
        Some(8)
    } else if sensor_type_id == 0xFF && value_type == ValueType::Identifier {
        Some(9)
    } else {
        None
    }
}

/// What decoding the payload of a reading gives, with the two discriminator bytes counted in.
pub open spec fn payload_decoded<P>(
    r: Result<(P, nat), DecodeError>,
    wrap: spec_fn(P) -> SensorData,
) -> Result<(SensorData, nat), DecodeError> {
    match r {
        Ok((p, n)) => Ok((wrap(p), n + 2)),
        Err(e) => Err(e),
    }
}

/// What decoding gives when the discriminators select the variant at `index` and `rest` are
/// the bytes after them.
pub open spec fn decode_payload(index: Option<u8>, rest: Seq<u8>) -> Result<(SensorData, nat), DecodeError> {
    match index {
        Some(0) => payload_decoded(
            ScalarData::<u32>::spec_decode(rest),
            |p: ScalarData<u32>| SensorData::SystemClockFrequency(types::SystemClockFrequency(p)),
        ),
        Some(1) => payload_decoded(
            Vector3Data::<i16>::spec_decode(rest),
            |p: Vector3Data<i16>| SensorData::AccelerometerI16(types::AccelerometerI16(p)),
        ),
        Some(2) => payload_decoded(
            Vector3Data::<i16>::spec_decode(rest),
            |p: Vector3Data<i16>| SensorData::MagnetometerI16(types::MagnetometerI16(p)),
        ),
        Some(3) => payload_decoded(
            ScalarData::<i16>::spec_decode(rest),
            |p: ScalarData<i16>| SensorData::TemperatureI16(types::TemperatureI16(p)),
        ),
        Some(4) => payload_decoded(
            Vector3Data::<i16>::spec_decode(rest),
            |p: Vector3Data<i16>| SensorData::GyroscopeI16(types::GyroscopeI16(p)),
        ),
        Some(5) => payload_decoded(
            ScalarData::<u8>::spec_decode(rest),
            |p: ScalarData<u8>| SensorData::HeadingI16(types::HeadingI16(p)),
        ),
        Some(6) => payload_decoded(
            Vector3Data::<u32>::spec_decode(rest),
            |p: Vector3Data<u32>| SensorData::EulerAnglesF32(types::EulerAnglesF32(p)),
        ),
        Some(7) => payload_decoded(
            Vector4Data::<u32>::spec_decode(rest),
            |p: Vector4Data<u32>| SensorData::OrientationQuaternionF32(types::OrientationQuaternionF32(p)),
        ),
        Some(8) => payload_decoded(
            LinearRanges::spec_decode(rest),
            |p: LinearRanges| SensorData::LinearRanges(types::LinearRanges(p)),
        ),
        Some(9) => payload_decoded(
            Identifier::<64>::spec_decode(rest),
            |p: Identifier<64>| SensorData::Identification(types::Identification(p)),
        ),
        _ => Err(DecodeError::UnknownVariant),
    }
}

/// What decoding a reading from the front of `s` gives: the two discriminator bytes, then the
/// payload of the variant they select.
#[verifier::opaque]
pub open spec fn decode_sensor_data(s: Seq<u8>) -> Result<(SensorData, nat), DecodeError> {
    if s.len() < 2 {
        Err(DecodeError::Truncated)
    } else {
        let id = s[0];
        let rest = s.skip(2);
        match ValueType::spec_from_u8(s[1]) {
            None => Err(DecodeError::UnknownVariant),
            Some(vt) => decode_payload(variant_index(id, vt), rest),
        }
    }
}

impl SensorData {
    /// The position of the variant's entry in the registry.
    pub open spec fn kind(&self) -> int {
        match self {
            SensorData::SystemClockFrequency(_) => 0,
            SensorData::AccelerometerI16(_) => 1,
            SensorData::MagnetometerI16(_) => 2,
            SensorData::TemperatureI16(_) => 3,
            SensorData::GyroscopeI16(_) => 4,
            SensorData::HeadingI16(_) => 5,
            SensorData::EulerAnglesF32(_) => 6,
            SensorData::OrientationQuaternionF32(_) => 7,
            SensorData::LinearRanges(_) => 8,
            SensorData::Identification(_) => 9,
        }
    }

    /// The registry entry of the variant: its sensor type id, value type and number of
    /// components.
    pub open spec fn entry(&self) -> RegistryEntry {
        registry_spec()[self.kind()]
    }

    /// The bytes of the reading itself, after the two discriminator bytes.
    pub open spec fn spec_payload(&self) -> Seq<u8> {
        match self {
            SensorData::SystemClockFrequency(r) => r.0.spec_encode(),
            SensorData::AccelerometerI16(r) => r.0.spec_encode(),
            SensorData::MagnetometerI16(r) => r.0.spec_encode(),
            SensorData::TemperatureI16(r) => r.0.spec_encode(),
            SensorData::GyroscopeI16(r) => r.0.spec_encode(),
            SensorData::HeadingI16(r) => r.0.spec_encode(),
            SensorData::EulerAnglesF32(r) => r.0.spec_encode(),
            SensorData::OrientationQuaternionF32(r) => r.0.spec_encode(),
            SensorData::LinearRanges(r) => r.0.spec_encode(),
            SensorData::Identification(r) => r.0.spec_encode(),
        }
    }

    /// Returns the sensor type ID.
    pub fn sensor_type_id(&self) -> (r: u8)
        ensures
            r == self.entry().sensor_type_id,
    {
        match self {
            SensorData::SystemClockFrequency(_) => 0x02,
            SensorData::AccelerometerI16(_) => 0x42,
            SensorData::MagnetometerI16(_) => 0x43,
            SensorData::TemperatureI16(_) => 0x44,
            SensorData::GyroscopeI16(_) => 0x45,
            SensorData::HeadingI16(_) => 0x46,
            SensorData::EulerAnglesF32(_) => 0xF0,
            SensorData::OrientationQuaternionF32(_) => 0xF1,
            SensorData::LinearRanges(_) => 0xFE,
            SensorData::Identification(_) => 0xFF,
        }
    }

    /// Returns the value type.
    pub fn value_type(&self) -> (r: ValueType)
        ensures
            r == self.entry().value_type,
    {
        match self {
            SensorData::SystemClockFrequency(_) => ValueType::UInt32,
            SensorData::AccelerometerI16(_) => ValueType::SInt16,
            SensorData::MagnetometerI16(_) => ValueType::SInt16,
            SensorData::TemperatureI16(_) => ValueType::SInt16,
            SensorData::GyroscopeI16(_) => ValueType::SInt16,
            SensorData::HeadingI16(_) => ValueType::UInt8,
            SensorData::EulerAnglesF32(_) => ValueType::Float32,
            SensorData::OrientationQuaternionF32(_) => ValueType::Float32,
            SensorData::LinearRanges(_) => ValueType::LinearRange,
            SensorData::Identification(_) => ValueType::Identifier,
        }
    }

    /// The number of components.
    pub fn num_components(&self) -> (r: u8)
        ensures
            r == self.entry().num_components,
    {
        match self {
            SensorData::SystemClockFrequency(_) => 1,
            SensorData::AccelerometerI16(_) => 3,
            SensorData::MagnetometerI16(_) => 3,
            SensorData::TemperatureI16(_) => 1,
            SensorData::GyroscopeI16(_) => 3,
            SensorData::HeadingI16(_) => 1,
            SensorData::EulerAnglesF32(_) => 3,
            SensorData::OrientationQuaternionF32(_) => 4,
            SensorData::LinearRanges(_) => 1,
            SensorData::Identification(_) => 64,
        }
    }

    /// The number of components of the reading registered under `(sensor_type_id, value_type)`.
    ///
    /// Fails for a pair under which no reading is registered.
    pub fn components(sensor_type_id: u8, value_type: ValueType) -> (r: Result<u8, ComponentLookupError>)
        ensures
            r == match spec_lookup(registry_spec(), sensor_type_id, value_type) {
                Some(n) => Ok::<u8, ComponentLookupError>(n),
                None => Err(ComponentLookupError::UnknownType),
            },
    {
        let entries = registry();
        match lookup(entries.as_slice(), sensor_type_id, value_type) {
            Some(n) => Ok(n),
            None => Err(ComponentLookupError::UnknownType),
        }
    }

    /// Whether the reading is metadata about another sensor: calibration ranges or
    /// identification.
    pub open spec fn spec_is_meta(&self) -> bool {
        self is LinearRanges || self is Identification
    }

    /// The sensor that a metadata reading describes.
    pub open spec fn spec_meta_target(&self) -> Option<SensorId> {
        match self {
            SensorData::LinearRanges(r) => Some(r.0.target),
            SensorData::Identification(r) => Some(r.0.target),
            _ => None,
        }
    }

    /// Indicates whether the data resembles metadata.
    pub fn is_meta(&self) -> (r: bool)
        ensures
            r == self.spec_is_meta(),
    {
        match self {
            SensorData::LinearRanges(_) | SensorData::Identification(_) => true,
            _ => false,
        }
    }

    /// Gets the embedded [`SensorId`] target of a metadata reading; none for a live reading.
    pub fn meta_target(&self) -> (r: Option<&SensorId>)
        ensures
            match r {
                Some(t) => self.spec_meta_target() == Some(*t),
                None => self.spec_meta_target() is None,
            },
    {
        match self {
            SensorData::LinearRanges(meta) => Some(&meta.0.target),
            SensorData::Identification(meta) => Some(&meta.0.target),
            _ => None,
        }
    }

    /// A reading's payload takes at most 69 bytes.
    pub proof fn lemma_payload_len(&self)
        ensures
            self.spec_payload().len() <= 69,
    {
    }
}

/// Every reading reports the identity of its registry entry: the registry maps the reading's
/// sensor type id and value type to the reading's number of components, and decoding that pair
/// of discriminators selects the reading's own variant.
pub proof fn lemma_discriminators_registered(d: SensorData)
    ensures
        0 <= d.kind() < registry_spec().len(),
        spec_lookup(registry_spec(), d.entry().sensor_type_id, d.entry().value_type) == Some(
            d.entry().num_components,
        ),
        variant_index(d.entry().sensor_type_id, d.entry().value_type) == Some(d.kind() as u8),
{
    lemma_registry_ids_unique();
    lemma_lookup_unique(registry_spec(), d.kind());
}

/// Decoding rejects, as an unknown variant, the discriminator pairs that no reading is
/// registered under, and only those, whatever bytes follow the pair.
pub proof fn lemma_unregistered_pairs_rejected(
    sensor_type_id: u8,
    value_type: ValueType,
    rest: Seq<u8>,
)
    ensures
        variant_index(sensor_type_id, value_type) is None <==> spec_lookup(
            registry_spec(),
            sensor_type_id,
            value_type,
        ) is None,
        variant_index(sensor_type_id, value_type) is None ==> SensorData::spec_decode(
            seq![sensor_type_id, value_type.spec_to_u8()] + rest,
        ) == Err::<(SensorData, nat), DecodeError>(DecodeError::UnknownVariant),
{
    reveal_with_fuel(spec_lookup, 11);
    reveal(decode_sensor_data);
    value_type.lemma_from_to_u8();
    let s = seq![sensor_type_id, value_type.spec_to_u8()] + rest;
    assert(s[0] == sensor_type_id && s[1] == value_type.spec_to_u8());
}

impl RuntimeTypeInformation for SensorData {
    open spec fn spec_sensor_type_id(&self) -> u8 {
        self.entry().sensor_type_id
    }

    open spec fn spec_value_type(&self) -> ValueType {
        self.entry().value_type
    }

    open spec fn spec_num_components(&self) -> u8 {
        self.entry().num_components
    }

    fn sensor_type_id(&self) -> (r: u8) {
        SensorData::sensor_type_id(self)
    }

    fn value_type(&self) -> (r: ValueType) {
        SensorData::value_type(self)
    }

    fn num_components(&self) -> (r: u8) {
        SensorData::num_components(self)
    }
}

impl SensorId {
    /// Returns the number of components of the sensor's readings.
    ///
    /// Fails when no reading is registered under the sensor's type id and value type.
    pub fn num_components(&self) -> (r: Result<u8, ComponentLookupError>)
        ensures
            r == match spec_lookup(registry_spec(), self.1, self.2) {
                Some(n) => Ok::<u8, ComponentLookupError>(n),
                None => Err(ComponentLookupError::UnknownType),
            },
    {
        SensorData::components(self.1, self.2)
    }
}

impl Codec for SensorData {
    open spec fn spec_encode(&self) -> Seq<u8> {
        seq![self.entry().sensor_type_id, self.entry().value_type.spec_to_u8()] + self.spec_payload()
    }

    open spec fn spec_decode(s: Seq<u8>) -> Result<(SensorData, nat), DecodeError> {
        decode_sensor_data(s)
    }

    #[verifier::rlimit(60)]
    proof fn lemma_round_trip(&self, rest: Seq<u8>) {
        reveal(decode_sensor_data);
        let header = seq![self.entry().sensor_type_id, self.entry().value_type.spec_to_u8()];
        let s = header + self.spec_payload() + rest;
        assert(s.skip(2) =~= self.spec_payload() + rest);
        assert(s[0] == self.entry().sensor_type_id);
        assert(s[1] == self.entry().value_type.spec_to_u8());
        self.entry().value_type.lemma_from_to_u8();
        assert(variant_index(self.entry().sensor_type_id, self.entry().value_type) == Some(self.kind() as u8));
        match self {
            SensorData::SystemClockFrequency(r) => {
                r.0.lemma_round_trip(rest);
                assert(decode_payload(Some(0), self.spec_payload() + rest) == Ok::<(SensorData, nat), DecodeError>((*self, self.spec_encode().len())));
            },
            SensorData::AccelerometerI16(r) => {
                r.0.lemma_round_trip(rest);
                assert(decode_payload(Some(1), self.spec_payload() + rest) == Ok::<(SensorData, nat), DecodeError>((*self, self.spec_encode().len())));
            },
            SensorData::MagnetometerI16(r) => {
                r.0.lemma_round_trip(rest);
                assert(decode_payload(Some(2), self.spec_payload() + rest) == Ok::<(SensorData, nat), DecodeError>((*self, self.spec_encode().len())));
            },
            SensorData::TemperatureI16(r) => {
                r.0.lemma_round_trip(rest);
                assert(decode_payload(Some(3), self.spec_payload() + rest) == Ok::<(SensorData, nat), DecodeError>((*self, self.spec_encode().len())));
            },
            SensorData::GyroscopeI16(r) => {
                r.0.lemma_round_trip(rest);
                assert(decode_payload(Some(4), self.spec_payload() + rest) == Ok::<(SensorData, nat), DecodeError>((*self, self.spec_encode().len())));
            },
            SensorData::HeadingI16(r) => {
                r.0.lemma_round_trip(rest);
                assert(decode_payload(Some(5), self.spec_payload() + rest) == Ok::<(SensorData, nat), DecodeError>((*self, self.spec_encode().len())));
            },
            SensorData::EulerAnglesF32(r) => {
                r.0.lemma_round_trip(rest);
                assert(decode_payload(Some(6), self.spec_payload() + rest) == Ok::<(SensorData, nat), DecodeError>((*self, self.spec_encode().len())));
            },
            SensorData::OrientationQuaternionF32(r) => {
                r.0.lemma_round_trip(rest);
                assert(decode_payload(Some(7), self.spec_payload() + rest) == Ok::<(SensorData, nat), DecodeError>((*self, self.spec_encode().len())));
            },
            SensorData::LinearRanges(r) => {
                r.0.lemma_round_trip(rest);
                assert(decode_payload(Some(8), self.spec_payload() + rest) == Ok::<(SensorData, nat), DecodeError>((*self, self.spec_encode().len())));
            },
            SensorData::Identification(r) => {
                r.0.lemma_round_trip(rest);
                assert(decode_payload(Some(9), self.spec_payload() + rest) == Ok::<(SensorData, nat), DecodeError>((*self, self.spec_encode().len())));
            },
        }
    }

    proof fn lemma_decode_within(s: Seq<u8>) {
        reveal(decode_sensor_data);
        if s.len() >= 2 {
            let rest = s.skip(2);
            ScalarData::<u32>::lemma_decode_within(rest);
            Vector3Data::<i16>::lemma_decode_within(rest);
            ScalarData::<i16>::lemma_decode_within(rest);
            ScalarData::<u8>::lemma_decode_within(rest);
            Vector3Data::<u32>::lemma_decode_within(rest);
            Vector4Data::<u32>::lemma_decode_within(rest);
            LinearRanges::lemma_decode_within(rest);
            Identifier::<64>::lemma_decode_within(rest);
        }
    }

    fn encoded_len(&self) -> (n: usize) {
        proof {
            self.lemma_payload_len();
        }
        let payload = match self {
            SensorData::SystemClockFrequency(r) => r.0.encoded_len(),
            SensorData::AccelerometerI16(r) => r.0.encoded_len(),
            SensorData::MagnetometerI16(r) => r.0.encoded_len(),
            SensorData::TemperatureI16(r) => r.0.encoded_len(),
            SensorData::GyroscopeI16(r) => r.0.encoded_len(),
            SensorData::HeadingI16(r) => r.0.encoded_len(),
            SensorData::EulerAnglesF32(r) => r.0.encoded_len(),
            SensorData::OrientationQuaternionF32(r) => r.0.encoded_len(),
            SensorData::LinearRanges(r) => r.0.encoded_len(),
            SensorData::Identification(r) => r.0.encoded_len(),
        };
        2 + payload
    }

    fn encode_to(&self, buf: &mut [u8], pos: usize) -> (end: usize) {
        let ghost s0 = buf@;
        let ghost header = seq![self.entry().sensor_type_id, self.entry().value_type.spec_to_u8()];
        buf[pos] = self.sensor_type_id();
        buf[pos + 1] = self.value_type().to_u8();
        assert(buf@ =~= spliced(s0, pos as int, header));
        let end = match self {
            SensorData::SystemClockFrequency(r) => r.0.encode_to(buf, pos + 2),
            SensorData::AccelerometerI16(r) => r.0.encode_to(buf, pos + 2),
            SensorData::MagnetometerI16(r) => r.0.encode_to(buf, pos + 2),
            SensorData::TemperatureI16(r) => r.0.encode_to(buf, pos + 2),
            SensorData::GyroscopeI16(r) => r.0.encode_to(buf, pos + 2),
            SensorData::HeadingI16(r) => r.0.encode_to(buf, pos + 2),
            SensorData::EulerAnglesF32(r) => r.0.encode_to(buf, pos + 2),
            SensorData::OrientationQuaternionF32(r) => r.0.encode_to(buf, pos + 2),
            SensorData::LinearRanges(r) => r.0.encode_to(buf, pos + 2),
            SensorData::Identification(r) => r.0.encode_to(buf, pos + 2),
        };
        proof {
            lemma_spliced_twice(s0, pos as int, header, self.spec_payload());
        }
        end
    }

    #[verifier::rlimit(60)]
    fn decode_from(buf: &[u8], pos: usize) -> (r: Result<(SensorData, usize), DecodeError>) {
        reveal(decode_sensor_data);
        assert(buf@.len() == buf.len());
        if buf.len() - pos < 2 {
            return Err(DecodeError::Truncated);
        }
        let id = buf[pos];
        let vt = match ValueType::from_u8(buf[pos + 1]) {
            Some(v) => v,
            None => return Err(DecodeError::UnknownVariant),
        };
        proof {
            lemma_skip_skip(buf@, pos as int, 2);
        }
        match (id, vt) {
            (0x02, ValueType::UInt32) => {
                assert(variant_index(id, vt) == Some(0u8));
                match ScalarData::<u32>::decode_from(buf, pos + 2) {
                    Ok((p, end)) => Ok((SensorData::SystemClockFrequency(types::SystemClockFrequency(p)), end)),
                    Err(e) => Err(e),
                }
            },
            (0x42, ValueType::SInt16) => {
                assert(variant_index(id, vt) == Some(1u8));
                match Vector3Data::<i16>::decode_from(buf, pos + 2) {
                    Ok((p, end)) => Ok((SensorData::AccelerometerI16(types::AccelerometerI16(p)), end)),
                    Err(e) => Err(e),
                }
            },
            (0x43, ValueType::SInt16) => {
                assert(variant_index(id, vt) == Some(2u8));
                match Vector3Data::<i16>::decode_from(buf, pos + 2) {
                    Ok((p, end)) => Ok((SensorData::MagnetometerI16(types::MagnetometerI16(p)), end)),
                    Err(e) => Err(e),
                }
            },
            (0x44, ValueType::SInt16) => {
                assert(variant_index(id, vt) == Some(3u8));
                match ScalarData::<i16>::decode_from(buf, pos + 2) {
                    Ok((p, end)) => Ok((SensorData::TemperatureI16(types::TemperatureI16(p)), end)),
                    Err(e) => Err(e),
                }
            },
            (0x45, ValueType::SInt16) => {
                assert(variant_index(id, vt) == Some(4u8));
                match Vector3Data::<i16>::decode_from(buf, pos + 2) {
                    Ok((p, end)) => Ok((SensorData::GyroscopeI16(types::GyroscopeI16(p)), end)),
                    Err(e) => Err(e),
                }
            },
            (0x46, ValueType::UInt8) => {
                assert(variant_index(id, vt) == Some(5u8));
                match ScalarData::<u8>::decode_from(buf, pos + 2) {
                    Ok((p, end)) => Ok((SensorData::HeadingI16(types::HeadingI16(p)), end)),
                    Err(e) => Err(e),
                }
            },
            (0xF0, ValueType::Float32) => {
                assert(variant_index(id, vt) == Some(6u8));
                match Vector3Data::<u32>::decode_from(buf, pos + 2) {
                    Ok((p, end)) => Ok((SensorData::EulerAnglesF32(types::EulerAnglesF32(p)), end)),
                    Err(e) => Err(e),
                }
            },
            (0xF1, ValueType::Float32) => {
                assert(variant_index(id, vt) == Some(7u8));
                match Vector4Data::<u32>::decode_from(buf, pos + 2) {
                    Ok((p, end)) => Ok((SensorData::OrientationQuaternionF32(types::OrientationQuaternionF32(p)), end)),
                    Err(e) => Err(e),
                }
            },
            (0xFE, ValueType::LinearRange) => {
                assert(variant_index(id, vt) == Some(8u8));
                match LinearRanges::decode_from(buf, pos + 2) {
                    Ok((p, end)) => Ok((SensorData::LinearRanges(types::LinearRanges(p)), end)),
                    Err(e) => Err(e),
                }
            },
            (0xFF, ValueType::Identifier) => {
                assert(variant_index(id, vt) == Some(9u8));
                match Identifier::<64>::decode_from(buf, pos + 2) {
                    Ok((p, end)) => Ok((SensorData::Identification(types::Identification(p)), end)),
                    Err(e) => Err(e),
                }
            },
            _ => {
                assert(variant_index(id, vt) is None);
                Err(DecodeError::UnknownVariant)
            },
        }
    }
}

impl From<types::SystemClockFrequency> for SensorData {
    fn from(value: types::SystemClockFrequency) -> (r: SensorData) {
        SensorData::SystemClockFrequency(value)
    }
}

impl vstd::std_specs::convert::FromSpecImpl<types::SystemClockFrequency> for SensorData {
    open spec fn obeys_from_spec() -> bool {
        true
    }

    open spec fn from_spec(v: types::SystemClockFrequency) -> SensorData {
        SensorData::SystemClockFrequency(v)
    }
}

impl TryFrom<SensorData> for types::SystemClockFrequency {
    type Error = ();

    fn try_from(value: SensorData) -> (r: Result<types::SystemClockFrequency, ()>) {
        match value {
            SensorData::SystemClockFrequency(v) => Ok(v),
            _ => Err(()),
        }
    }
}

impl vstd::std_specs::convert::TryFromSpecImpl<SensorData> for types::SystemClockFrequency {
    open spec fn obeys_try_from_spec() -> bool {
        true
    }

    open spec fn try_from_spec(v: SensorData) -> Result<types::SystemClockFrequency, ()> {
        match v {
            SensorData::SystemClockFrequency(r) => Ok(r),
            _ => Err(()),
        }
    }
}

impl From<types::AccelerometerI16> for SensorData {
    fn from(value: types::AccelerometerI16) -> (r: SensorData) {
        SensorData::AccelerometerI16(value)
    }
}

impl vstd::std_specs::convert::FromSpecImpl<types::AccelerometerI16> for SensorData {
    open spec fn obeys_from_spec() -> bool {
        true
    }

    open spec fn from_spec(v: types::AccelerometerI16) -> SensorData {
        SensorData::AccelerometerI16(v)
    }
}

impl TryFrom<SensorData> for types::AccelerometerI16 {
    type Error = ();

    fn try_from(value: SensorData) -> (r: Result<types::AccelerometerI16, ()>) {
        match value {
            SensorData::AccelerometerI16(v) => Ok(v),
            _ => Err(()),
        }
    }
}

impl vstd::std_specs::convert::TryFromSpecImpl<SensorData> for types::AccelerometerI16 {
    open spec fn obeys_try_from_spec() -> bool {
        true
    }

    open spec fn try_from_spec(v: SensorData) -> Result<types::AccelerometerI16, ()> {
        match v {
            SensorData::AccelerometerI16(r) => Ok(r),
            _ => Err(()),
        }
    }
}

impl From<types::MagnetometerI16> for SensorData {
    fn from(value: types::MagnetometerI16) -> (r: SensorData) {
        SensorData::MagnetometerI16(value)
    }
}

impl vstd::std_specs::convert::FromSpecImpl<types::MagnetometerI16> for SensorData {
    open spec fn obeys_from_spec() -> bool {
        true
    }

    open spec fn from_spec(v: types::MagnetometerI16) -> SensorData {
        SensorData::MagnetometerI16(v)
    }
}

impl TryFrom<SensorData> for types::MagnetometerI16 {
    type Error = ();

    fn try_from(value: SensorData) -> (r: Result<types::MagnetometerI16, ()>) {
        match value {
            SensorData::MagnetometerI16(v) => Ok(v),
            _ => Err(()),
        }
    }
}

impl vstd::std_specs::convert::TryFromSpecImpl<SensorData> for types::MagnetometerI16 {
    open spec fn obeys_try_from_spec() -> bool {
        true
    }

    open spec fn try_from_spec(v: SensorData) -> Result<types::MagnetometerI16, ()> {
        match v {
            SensorData::MagnetometerI16(r) => Ok(r),
            _ => Err(()),
        }
    }
}

impl From<types::TemperatureI16> for SensorData {
    fn from(value: types::TemperatureI16) -> (r: SensorData) {
        SensorData::TemperatureI16(value)
    }
}

impl vstd::std_specs::convert::FromSpecImpl<types::TemperatureI16> for SensorData {
    open spec fn obeys_from_spec() -> bool {
        true
    }

    open spec fn from_spec(v: types::TemperatureI16) -> SensorData {
        SensorData::TemperatureI16(v)
    }
}

impl TryFrom<SensorData> for types::TemperatureI16 {
    type Error = ();

    fn try_from(value: SensorData) -> (r: Result<types::TemperatureI16, ()>) {
        match value {
            SensorData::TemperatureI16(v) => Ok(v),
            _ => Err(()),
        }
    }
}

impl vstd::std_specs::convert::TryFromSpecImpl<SensorData> for types::TemperatureI16 {
    open spec fn obeys_try_from_spec() -> bool {
        true
    }

    open spec fn try_from_spec(v: SensorData) -> Result<types::TemperatureI16, ()> {
        match v {
            SensorData::TemperatureI16(r) => Ok(r),
            _ => Err(()),
        }
    }
}

impl From<types::GyroscopeI16> for SensorData {
    fn from(value: types::GyroscopeI16) -> (r: SensorData) {
        SensorData::GyroscopeI16(value)
    }
}

impl vstd::std_specs::convert::FromSpecImpl<types::GyroscopeI16> for SensorData {
    open spec fn obeys_from_spec() -> bool {
        true
    }

    open spec fn from_spec(v: types::GyroscopeI16) -> SensorData {
        SensorData::GyroscopeI16(v)
    }
}

impl TryFrom<SensorData> for types::GyroscopeI16 {
    type Error = ();

    fn try_from(value: SensorData) -> (r: Result<types::GyroscopeI16, ()>) {
        match value {
            SensorData::GyroscopeI16(v) => Ok(v),
            _ => Err(()),
        }
    }
}

impl vstd::std_specs::convert::TryFromSpecImpl<SensorData> for types::GyroscopeI16 {
    open spec fn obeys_try_from_spec() -> bool {
        true
    }

    open spec fn try_from_spec(v: SensorData) -> Result<types::GyroscopeI16, ()> {
        match v {
            SensorData::GyroscopeI16(r) => Ok(r),
            _ => Err(()),
        }
    }
}

impl From<types::HeadingI16> for SensorData {
    fn from(value: types::HeadingI16) -> (r: SensorData) {
        SensorData::HeadingI16(value)
    }
}

impl vstd::std_specs::convert::FromSpecImpl<types::HeadingI16> for SensorData {
    open spec fn obeys_from_spec() -> bool {
        true
    }

    open spec fn from_spec(v: types::HeadingI16) -> SensorData {
        SensorData::HeadingI16(v)
    }
}

impl TryFrom<SensorData> for types::HeadingI16 {
    type Error = ();

    fn try_from(value: SensorData) -> (r: Result<types::HeadingI16, ()>) {
        match value {
            SensorData::HeadingI16(v) => Ok(v),
            _ => Err(()),
        }
    }
}

impl vstd::std_specs::convert::TryFromSpecImpl<SensorData> for types::HeadingI16 {
    open spec fn obeys_try_from_spec() -> bool {
        true
    }

    open spec fn try_from_spec(v: SensorData) -> Result<types::HeadingI16, ()> {
        match v {
            SensorData::HeadingI16(r) => Ok(r),
            _ => Err(()),
        }
    }
}

impl From<types::EulerAnglesF32> for SensorData {
    fn from(value: types::EulerAnglesF32) -> (r: SensorData) {
        SensorData::EulerAnglesF32(value)
    }
}

impl vstd::std_specs::convert::FromSpecImpl<types::EulerAnglesF32> for SensorData {
    open spec fn obeys_from_spec() -> bool {
        true
    }

    open spec fn from_spec(v: types::EulerAnglesF32) -> SensorData {
        SensorData::EulerAnglesF32(v)
    }
}

impl TryFrom<SensorData> for types::EulerAnglesF32 {
    type Error = ();

    fn try_from(value: SensorData) -> (r: Result<types::EulerAnglesF32, ()>) {
        match value {
            SensorData::EulerAnglesF32(v) => Ok(v),
            _ => Err(()),
        }
    }
}

impl vstd::std_specs::convert::TryFromSpecImpl<SensorData> for types::EulerAnglesF32 {
    open spec fn obeys_try_from_spec() -> bool {
        true
    }

    open spec fn try_from_spec(v: SensorData) -> Result<types::EulerAnglesF32, ()> {
        match v {
            SensorData::EulerAnglesF32(r) => Ok(r),
            _ => Err(()),
        }
    }
}

impl From<types::OrientationQuaternionF32> for SensorData {
    fn from(value: types::OrientationQuaternionF32) -> (r: SensorData) {
        SensorData::OrientationQuaternionF32(value)
    }
}

impl vstd::std_specs::convert::FromSpecImpl<types::OrientationQuaternionF32> for SensorData {
    open spec fn obeys_from_spec() -> bool {
        true
    }

    open spec fn from_spec(v: types::OrientationQuaternionF32) -> SensorData {
        SensorData::OrientationQuaternionF32(v)
    }
}

impl TryFrom<SensorData> for types::OrientationQuaternionF32 {
    type Error = ();

    fn try_from(value: SensorData) -> (r: Result<types::OrientationQuaternionF32, ()>) {
        match value {
            SensorData::OrientationQuaternionF32(v) => Ok(v),
            _ => Err(()),
        }
    }
}

impl vstd::std_specs::convert::TryFromSpecImpl<SensorData> for types::OrientationQuaternionF32 {
    open spec fn obeys_try_from_spec() -> bool {
        true
    }

    open spec fn try_from_spec(v: SensorData) -> Result<types::OrientationQuaternionF32, ()> {
        match v {
            SensorData::OrientationQuaternionF32(r) => Ok(r),
            _ => Err(()),
        }
    }
}

impl From<types::LinearRanges> for SensorData {
    fn from(value: types::LinearRanges) -> (r: SensorData) {
        SensorData::LinearRanges(value)
    }
}

impl vstd::std_specs::convert::FromSpecImpl<types::LinearRanges> for SensorData {
    open spec fn obeys_from_spec() -> bool {
        true
    }

    open spec fn from_spec(v: types::LinearRanges) -> SensorData {
        SensorData::LinearRanges(v)
    }
}

impl TryFrom<SensorData> for types::LinearRanges {
    type Error = ();

    fn try_from(value: SensorData) -> (r: Result<types::LinearRanges, ()>) {
        match value {
            SensorData::LinearRanges(v) => Ok(v),
            _ => Err(()),
        }
    }
}

impl vstd::std_specs::convert::TryFromSpecImpl<SensorData> for types::LinearRanges {
    open spec fn obeys_try_from_spec() -> bool {
        true
    }

    open spec fn try_from_spec(v: SensorData) -> Result<types::LinearRanges, ()> {
        match v {
            SensorData::LinearRanges(r) => Ok(r),
            _ => Err(()),
        }
    }
}

impl From<types::Identification> for SensorData {
    fn from(value: types::Identification) -> (r: SensorData) {
        SensorData::Identification(value)
    }
}

impl vstd::std_specs::convert::FromSpecImpl<types::Identification> for SensorData {
    open spec fn obeys_from_spec() -> bool {
        true
    }

    open spec fn from_spec(v: types::Identification) -> SensorData {
        SensorData::Identification(v)
    }
}

impl TryFrom<SensorData> for types::Identification {
    type Error = ();

    fn try_from(value: SensorData) -> (r: Result<types::Identification, ()>) {
        match value {
            SensorData::Identification(v) => Ok(v),
            _ => Err(()),
        }
    }
}

impl vstd::std_specs::convert::TryFromSpecImpl<SensorData> for types::Identification {
    open spec fn obeys_try_from_spec() -> bool {
        true
    }

    open spec fn try_from_spec(v: SensorData) -> Result<types::Identification, ()> {
        match v {
            SensorData::Identification(r) => Ok(r),
            _ => Err(()),
        }
    }
}

} // verus!

