//! Data frames: a fixed header and one reading, wrapped with the protocol version.
use vstd::prelude::*;
use crate::sensor_data::SensorData;
use crate::sensor_id::SensorId;
use crate::types;
use crate::wire::{lemma_field, lemma_skip_skip, lemma_spliced_twice, spliced, Codec, DecodeError};

verus! {

/// A protocol version.
pub trait ProtocolVersion: Default {
    /// The protocol version
    const VERSION: usize;

    /// Returns the protocol version
    fn version(&self) -> (r: usize)
        ensures
            r == Self::VERSION,
    ;
}

/// A data frame: what a protocol version carries after its version byte.
pub trait DataFrame: Sized {
    /// The protocol version used by this data frame.
    type ProtocolVersion: ProtocolVersion;

    spec fn spec_is_meta(&self) -> bool;

    spec fn spec_target(&self) -> SensorId;

    /// Wraps this data frame into a [`VersionedDataFrame`] of its protocol version.
    fn into_versioned(self) -> (r: VersionedDataFrame<Self::ProtocolVersion, Self>)
        ensures
            r.data == self,
    ;

    /// Indicates whether the data resembles metadata.
    fn is_meta(&self) -> (r: bool)
        ensures
            r == self.spec_is_meta(),
    ;

    /// Gets the target sensor ID of this frame: the sensor that a metadata reading describes,
    /// or else the sensor that took the reading.
    fn target(&self) -> (r: SensorId)
        ensures
            r == self.spec_target(),
    ;
}

/// A versioned data frame.
#[derive(Clone, Copy, Debug, PartialEq)]
pub struct VersionedDataFrame<V, D> where V: ProtocolVersion, D: DataFrame {
    /// The protocol version; one byte on the wire.
    pub version: V,
    /// The data frame.
    pub data: D,
}

/// Protocol version 1.
#[derive(Clone, Copy, Debug, Default, PartialEq, Eq, Structural)]
pub struct Version1;

impl ProtocolVersion for Version1 {
    const VERSION: usize = 1;

    fn version(&self) -> (r: usize) {
        1
    }
}

impl Version1 {
    /// Wraps the specified data frame into a [`VersionedDataFrame`] of version 1.
    pub fn frame<D: DataFrame>(data: D) -> (r: VersionedDataFrame<Version1, D>)
        ensures
            r.version == Version1,
            r.data == data,
    {
        VersionedDataFrame { version: Version1, data }
    }
}

impl<D: DataFrame> From<D> for VersionedDataFrame<Version1, D> {
    fn from(value: D) -> (r: VersionedDataFrame<Version1, D>) {
        Version1::frame(value)
    }
}

impl<D: DataFrame> vstd::std_specs::convert::FromSpecImpl<D> for VersionedDataFrame<Version1, D> {
    open spec fn obeys_from_spec() -> bool {
        true
    }

    open spec fn from_spec(v: D) -> VersionedDataFrame<Version1, D> {
        VersionedDataFrame { version: Version1, data: v }
    }
}

impl Codec for Version1 {
    open spec fn spec_encode(&self) -> Seq<u8> {
        seq![1u8]
    }

    open spec fn spec_decode(s: Seq<u8>) -> Result<(Version1, nat), DecodeError> {
        if s.len() < 1 {
            Err(DecodeError::Truncated)
        } else if s[0] != 1 {
            Err(DecodeError::InvalidVersion)
        } else {
            Ok((Version1, 1))
        }
    }

    proof fn lemma_round_trip(&self, rest: Seq<u8>) {
    }

    proof fn lemma_decode_within(s: Seq<u8>) {
    }

    fn encoded_len(&self) -> (n: usize) {
        1
    }

    fn encode_to(&self, buf: &mut [u8], pos: usize) -> (end: usize) {
        buf[pos] = 1;
        assert(buf@ =~= spliced(old(buf)@, pos as int, self.spec_encode()));
        pos + 1
    }

    fn decode_from(buf: &[u8], pos: usize) -> (r: Result<(Version1, usize), DecodeError>) {
        if buf.len() - pos < 1 {
            Err(DecodeError::Truncated)
        } else if buf[pos] != 1 {
            Err(DecodeError::InvalidVersion)
        } else {
            Ok((Version1, pos + 1))
        }
    }
}

/// A sensor data frame of protocol version 1: a header and one reading.
#[derive(Clone, Copy, Debug, PartialEq)]
pub struct Version1DataFrame {
    /// A time in seconds since begin of a measurement, or since startup time.
    ///
    /// If unsupported, set to [`u32::MAX`].
    pub system_secs: u32,
    /// The sub-second milliseconds.
    ///
    /// If unsupported, set to [`u16::MAX`].
    pub system_millis: u16,
    /// The sub-millisecond nanoseconds.
    ///
    /// If unsupported, set to [`u16::MAX`].
    pub system_nanos: u16,
    /// A sequence identifier, monotonically increasing across all sensors.
    ///
    /// This value can be used to detect package loss on the receiver side.
    ///
    /// If unsupported, set to [`u32::MAX`].
    pub global_sequence: u32,
    /// A sensor sequence identifier, monotonically increasing.
    ///
    /// This value should increase whenever new data became available for the specific
    /// sensor, not when it was actually transmitted.
    ///
    /// If unsupported, set to [`u32::MAX`].
    pub sensor_sequence: u32,
    /// A device-specific tag for a specific sensor.
    ///
    /// It tells apart several sensors of the same type, e.g. several accelerometers.
    pub sensor_tag: u16,
    /// The sensor reading.
    pub value: SensorData,
}

impl Version1DataFrame {
    /// Creates a new instance of the version 1 data frame from any reading.
    pub fn new<D: Into<SensorData>>(
        system_secs: u32,
        system_millis: u16,
        system_nanos: u16,
        global_sequence: u32,
        sensor_sequence: u32,
        sensor_tag: u16,
        value: D,
    ) -> (r: Self)
        ensures
            r.system_secs == system_secs,
            r.system_millis == system_millis,
            r.system_nanos == system_nanos,
            r.global_sequence == global_sequence,
            r.sensor_sequence == sensor_sequence,
            r.sensor_tag == sensor_tag,
            call_ensures(D::into, (value,), r.value),
    {
        Self::new_with(
            system_secs,
            system_millis,
            system_nanos,
            global_sequence,
            sensor_sequence,
            sensor_tag,
            value.into(),
        )
    }

    /// Creates a new instance of the version 1 data frame.
    pub fn new_with(
        system_secs: u32,
        system_millis: u16,
        system_nanos: u16,
        global_sequence: u32,
        sensor_sequence: u32,
        sensor_tag: u16,
        value: SensorData,
    ) -> (r: Self)
        ensures
            r == (Version1DataFrame {
                system_secs,
                system_millis,
                system_nanos,
                global_sequence,
                sensor_sequence,
                sensor_tag,
                value,
            }),
    {
        Version1DataFrame {
            system_secs,
            system_millis,
            system_nanos,
            global_sequence,
            sensor_sequence,
            sensor_tag,
            value,
        }
    }

    /// The bytes of the header, in the order of the fields.
    pub open spec fn spec_header(&self) -> Seq<u8> {
        self.system_secs.spec_encode() + self.system_millis.spec_encode()
            + self.system_nanos.spec_encode() + self.global_sequence.spec_encode()
            + self.sensor_sequence.spec_encode() + self.sensor_tag.spec_encode()
    }
}

impl SensorId {
    /// The sensor that took the reading of `frame`: its tag, and the reading's sensor type id
    /// and value type.
    pub open spec fn spec_from_frame(frame: &Version1DataFrame) -> SensorId {
        SensorId(frame.sensor_tag, frame.value.entry().sensor_type_id, frame.value.entry().value_type)
    }

    /// Constructs the ID of the sensor that took the reading of `frame`.
    pub fn from(frame: &Version1DataFrame) -> (r: SensorId)
        ensures
            r == SensorId::spec_from_frame(frame),
    {
        SensorId(frame.sensor_tag, frame.value.sensor_type_id(), frame.value.value_type())
    }
}

impl DataFrame for Version1DataFrame {
    type ProtocolVersion = Version1;

    open spec fn spec_is_meta(&self) -> bool {
        self.value.spec_is_meta()
    }

    open spec fn spec_target(&self) -> SensorId {
        match self.value.spec_meta_target() {
            Some(t) => t,
            None => SensorId::spec_from_frame(self),
        }
    }

    fn into_versioned(self) -> (r: VersionedDataFrame<Version1, Version1DataFrame>) {
        VersionedDataFrame { version: Version1, data: self }
    }

    fn is_meta(&self) -> (r: bool) {
        self.value.is_meta()
    }

    fn target(&self) -> (r: SensorId) {
        match self.value.meta_target() {
            Some(t) => *t,
            None => SensorId::from(self),
        }
    }
}

/// What decoding a version 1 data frame from the front of `s` gives: the header fields in order,
/// then the reading.
#[verifier::opaque]
pub open spec fn decode_version1_frame(s: Seq<u8>) -> Result<(Version1DataFrame, nat), DecodeError> {
    match u32::spec_decode(s) {
        Err(e) => Err(e),
        Ok((system_secs, n0)) => {
            let s1 = s.skip(n0 as int);
            match u16::spec_decode(s1) {
                Err(e) => Err(e),
                Ok((system_millis, n1)) => {
                    let s2 = s1.skip(n1 as int);
                    match u16::spec_decode(s2) {
                        Err(e) => Err(e),
                        Ok((system_nanos, n2)) => {
                            let s3 = s2.skip(n2 as int);
                            match u32::spec_decode(s3) {
                                Err(e) => Err(e),
                                Ok((global_sequence, n3)) => {
                                    let s4 = s3.skip(n3 as int);
                                    match u32::spec_decode(s4) {
                                        Err(e) => Err(e),
                                        Ok((sensor_sequence, n4)) => {
                                            let s5 = s4.skip(n4 as int);
                                            match u16::spec_decode(s5) {
                                                Err(e) => Err(e),
                                                Ok((sensor_tag, n5)) => {
                                                    let s6 = s5.skip(n5 as int);
                                                    match SensorData::spec_decode(s6) {
                                                        Err(e) => Err(e),
                                                        Ok((value, n6)) => Ok(
                                                            (
                                                                Version1DataFrame {
                                                                    system_secs,
                                                                    system_millis,
                                                                    system_nanos,
                                                                    global_sequence,
                                                                    sensor_sequence,
                                                                    sensor_tag,
                                                                    value,
                                                                },
                                                                n0 + n1 + n2 + n3 + n4 + n5
                                                                    + n6,
                                                            ),
                                                        ),
                                                    }
                                                },
                                            }
                                        },
                                    }
                                },
                            }
                        },
                    }
                },
            }
        },
    }
}

impl Codec for Version1DataFrame {
    open spec fn spec_encode(&self) -> Seq<u8> {
        self.spec_header() + self.value.spec_encode()
    }

    open spec fn spec_decode(s: Seq<u8>) -> Result<(Version1DataFrame, nat), DecodeError> {
        decode_version1_frame(s)
    }

    proof fn lemma_round_trip(&self, rest: Seq<u8>) {
        reveal(decode_version1_frame);
        let e0 = self.system_secs.spec_encode();
        let e1 = self.system_millis.spec_encode();
        let e2 = self.system_nanos.spec_encode();
        let e3 = self.global_sequence.spec_encode();
        let e4 = self.sensor_sequence.spec_encode();
        let e5 = self.sensor_tag.spec_encode();
        let e6 = self.value.spec_encode();
        assert(e0 + e1 + e2 + e3 + e4 + e5 + e6 + rest =~= e0 + (e1 + (e2 + (e3 + (e4 + (e5 + (
        e6 + rest)))))));
        lemma_field(self.system_secs, e1 + (e2 + (e3 + (e4 + (e5 + (e6 + rest))))));
        lemma_field(self.system_millis, e2 + (e3 + (e4 + (e5 + (e6 + rest)))));
        lemma_field(self.system_nanos, e3 + (e4 + (e5 + (e6 + rest))));
        lemma_field(self.global_sequence, e4 + (e5 + (e6 + rest)));
        lemma_field(self.sensor_sequence, e5 + (e6 + rest));
        lemma_field(self.sensor_tag, e6 + rest);
        lemma_field(self.value, rest);
    }

    proof fn lemma_decode_within(s: Seq<u8>) {
        reveal(decode_version1_frame);
        if let Ok((_, n0)) = u32::spec_decode(s) {
            let s1 = s.skip(n0 as int);
            if let Ok((_, n1)) = u16::spec_decode(s1) {
                let s2 = s1.skip(n1 as int);
                if let Ok((_, n2)) = u16::spec_decode(s2) {
                    let s3 = s2.skip(n2 as int);
                    if let Ok((_, n3)) = u32::spec_decode(s3) {
                        let s4 = s3.skip(n3 as int);
                        if let Ok((_, n4)) = u32::spec_decode(s4) {
                            let s5 = s4.skip(n4 as int);
                            if let Ok((_, n5)) = u16::spec_decode(s5) {
                                SensorData::lemma_decode_within(s5.skip(n5 as int));
                            }
                        }
                    }
                }
            }
        }
    }

    fn encoded_len(&self) -> (n: usize) {
        18 + self.value.encoded_len()
    }

    fn encode_to(&self, buf: &mut [u8], pos: usize) -> (end: usize) {
        let ghost s0 = buf@;
        let ghost e0 = self.system_secs.spec_encode();
        let ghost e1 = self.system_millis.spec_encode();
        let ghost e2 = self.system_nanos.spec_encode();
        let ghost e3 = self.global_sequence.spec_encode();
        let ghost e4 = self.sensor_sequence.spec_encode();
        let ghost e5 = self.sensor_tag.spec_encode();
        let ghost e6 = self.value.spec_encode();
        let p = self.system_secs.encode_to(buf, pos);
        let p = self.system_millis.encode_to(buf, p);
        proof {
            lemma_spliced_twice(s0, pos as int, e0, e1);
        }
        let p = self.system_nanos.encode_to(buf, p);
        proof {
            lemma_spliced_twice(s0, pos as int, e0 + e1, e2);
        }
        let p = self.global_sequence.encode_to(buf, p);
        proof {
            lemma_spliced_twice(s0, pos as int, e0 + e1 + e2, e3);
        }
        let p = self.sensor_sequence.encode_to(buf, p);
        proof {
            lemma_spliced_twice(s0, pos as int, e0 + e1 + e2 + e3, e4);
        }
        let p = self.sensor_tag.encode_to(buf, p);
        proof {
            lemma_spliced_twice(s0, pos as int, e0 + e1 + e2 + e3 + e4, e5);
        }
        let p = self.value.encode_to(buf, p);
        proof {
            lemma_spliced_twice(s0, pos as int, e0 + e1 + e2 + e3 + e4 + e5, e6);
        }
        p
    }

    #[verifier::rlimit(60)]
    fn decode_from(buf: &[u8], pos: usize) -> (r: Result<(Version1DataFrame, usize), DecodeError>) {
        reveal(decode_version1_frame);
        assert(buf@.len() == buf.len());
        let (system_secs, p1) = match u32::decode_from(buf, pos) {
            Ok(v) => v,
            Err(e) => return Err(e),
        };
        proof {
            lemma_skip_skip(buf@, pos as int, p1 - pos);
        }
        let (system_millis, p2) = match u16::decode_from(buf, p1) {
            Ok(v) => v,
            Err(e) => return Err(e),
        };
        proof {
            lemma_skip_skip(buf@, p1 as int, p2 - p1);
        }
        let (system_nanos, p3) = match u16::decode_from(buf, p2) {
            Ok(v) => v,
            Err(e) => return Err(e),
        };
        proof {
            lemma_skip_skip(buf@, p2 as int, p3 - p2);
        }
        let (global_sequence, p4) = match u32::decode_from(buf, p3) {
            Ok(v) => v,
            Err(e) => return Err(e),
        };
        proof {
            lemma_skip_skip(buf@, p3 as int, p4 - p3);
        }
        let (sensor_sequence, p5) = match u32::decode_from(buf, p4) {
            Ok(v) => v,
            Err(e) => return Err(e),
        };
        proof {
            lemma_skip_skip(buf@, p4 as int, p5 - p4);
        }
        let (sensor_tag, p6) = match u16::decode_from(buf, p5) {
            Ok(v) => v,
            Err(e) => return Err(e),
        };
        proof {
            lemma_skip_skip(buf@, p5 as int, p6 - p5);
        }
        let (value, p7) = match SensorData::decode_from(buf, p6) {
            Ok(v) => v,
            Err(e) => return Err(e),
        };
        Ok(
            (
                Version1DataFrame {
                    system_secs,
                    system_millis,
                    system_nanos,
                    global_sequence,
                    sensor_sequence,
                    sensor_tag,
                    value,
                },
                p7,
            ),
        )
    }
}

impl Codec for VersionedDataFrame<Version1, Version1DataFrame> {
    open spec fn spec_encode(&self) -> Seq<u8> {
        self.version.spec_encode() + self.data.spec_encode()
    }

    open spec fn spec_decode(s: Seq<u8>) -> Result<(VersionedDataFrame<Version1, Version1DataFrame>, nat), DecodeError> {
        match Version1::spec_decode(s) {
            Err(e) => Err(e),
            Ok((version, n0)) => match Version1DataFrame::spec_decode(s.skip(n0 as int)) {
                Err(e) => Err(e),
                Ok((data, n1)) => Ok((VersionedDataFrame { version, data }, n0 + n1)),
            },
        }
    }

    proof fn lemma_round_trip(&self, rest: Seq<u8>) {
        let (e0, e1) = (self.version.spec_encode(), self.data.spec_encode());
        assert(e0 + e1 + rest =~= e0 + (e1 + rest));
        lemma_field(self.version, e1 + rest);
        lemma_field(self.data, rest);
    }

    proof fn lemma_decode_within(s: Seq<u8>) {
        if let Ok((_, n0)) = Version1::spec_decode(s) {
            Version1DataFrame::lemma_decode_within(s.skip(n0 as int));
        }
    }

    fn encoded_len(&self) -> (n: usize) {
        1 + self.data.encoded_len()
    }

    fn encode_to(&self, buf: &mut [u8], pos: usize) -> (end: usize) {
        let ghost s0 = buf@;
        let p1 = self.version.encode_to(buf, pos);
        let p2 = self.data.encode_to(buf, p1);
        proof {
            lemma_spliced_twice(s0, pos as int, self.version.spec_encode(), self.data.spec_encode());
        }
        p2
    }

    fn decode_from(buf: &[u8], pos: usize) -> (r: Result<(VersionedDataFrame<Version1, Version1DataFrame>, usize), DecodeError>) {
        assert(buf@.len() == buf.len());
        let (version, p1) = match Version1::decode_from(buf, pos) {
            Ok(v) => v,
            Err(e) => return Err(e),
        };
        proof {
            lemma_skip_skip(buf@, pos as int, p1 - pos);
        }
        let (data, p2) = match Version1DataFrame::decode_from(buf, p1) {
            Ok(v) => v,
            Err(e) => return Err(e),
        };
        Ok((VersionedDataFrame { version, data }, p2))
    }
}

/// Decoding the encoding of a versioned frame gives back the frame, header fields and reading
/// alike, and takes exactly the encoded bytes, whatever bytes follow them.
pub proof fn lemma_versioned_frame_round_trip(
    frame: VersionedDataFrame<Version1, Version1DataFrame>,
    rest: Seq<u8>,
)
    ensures
        VersionedDataFrame::<Version1, Version1DataFrame>::spec_decode(frame.spec_encode() + rest)
            == Ok::<(VersionedDataFrame<Version1, Version1DataFrame>, nat), DecodeError>(
            (frame, frame.spec_encode().len()),
        ),
{
    frame.lemma_round_trip(rest);
}

/// A versioned frame whose version byte is not 1 is rejected as such, whatever bytes follow it.
pub proof fn lemma_other_version_rejected(s: Seq<u8>)
    requires
        s.len() >= 1,
        s[0] != 1,
    ensures
        VersionedDataFrame::<Version1, Version1DataFrame>::spec_decode(s) == Err::<
            (VersionedDataFrame<Version1, Version1DataFrame>, nat),
            DecodeError,
        >(DecodeError::InvalidVersion),
{
}

impl TryFrom<Version1DataFrame> for types::SystemClockFrequency {
    type Error = ();

    fn try_from(value: Version1DataFrame) -> (r: Result<types::SystemClockFrequency, ()>) {
        match value.value {
            SensorData::SystemClockFrequency(v) => Ok(v),
            _ => Err(()),
        }
    }
}

impl vstd::std_specs::convert::TryFromSpecImpl<Version1DataFrame> for types::SystemClockFrequency {
    open spec fn obeys_try_from_spec() -> bool {
        true
    }

    open spec fn try_from_spec(v: Version1DataFrame) -> Result<types::SystemClockFrequency, ()> {
        match v.value {
            SensorData::SystemClockFrequency(r) => Ok(r),
            _ => Err(()),
        }
    }
}

impl TryFrom<VersionedDataFrame<Version1, Version1DataFrame>> for types::SystemClockFrequency {
    type Error = ();

    fn try_from(value: VersionedDataFrame<Version1, Version1DataFrame>) -> (r: Result<types::SystemClockFrequency, ()>) {
        match value.data.value {
            SensorData::SystemClockFrequency(v) => Ok(v),
            _ => Err(()),
        }
    }
}

impl vstd::std_specs::convert::TryFromSpecImpl<VersionedDataFrame<Version1, Version1DataFrame>> for types::SystemClockFrequency {
    open spec fn obeys_try_from_spec() -> bool {
        true
    }

    open spec fn try_from_spec(v: VersionedDataFrame<Version1, Version1DataFrame>) -> Result<types::SystemClockFrequency, ()> {
        match v.data.value {
            SensorData::SystemClockFrequency(r) => Ok(r),
            _ => Err(()),
        }
    }
}

impl TryFrom<Version1DataFrame> for types::AccelerometerI16 {
    type Error = ();

    fn try_from(value: Version1DataFrame) -> (r: Result<types::AccelerometerI16, ()>) {
        match value.value {
            SensorData::AccelerometerI16(v) => Ok(v),
            _ => Err(()),
        }
    }
}

impl vstd::std_specs::convert::TryFromSpecImpl<Version1DataFrame> for types::AccelerometerI16 {
    open spec fn obeys_try_from_spec() -> bool {
        true
    }

    open spec fn try_from_spec(v: Version1DataFrame) -> Result<types::AccelerometerI16, ()> {
        match v.value {
            SensorData::AccelerometerI16(r) => Ok(r),
            _ => Err(()),
        }
    }
}

impl TryFrom<VersionedDataFrame<Version1, Version1DataFrame>> for types::AccelerometerI16 {
    type Error = ();

    fn try_from(value: VersionedDataFrame<Version1, Version1DataFrame>) -> (r: Result<types::AccelerometerI16, ()>) {
        match value.data.value {
            SensorData::AccelerometerI16(v) => Ok(v),
            _ => Err(()),
        }
    }
}

impl vstd::std_specs::convert::TryFromSpecImpl<VersionedDataFrame<Version1, Version1DataFrame>> for types::AccelerometerI16 {
    open spec fn obeys_try_from_spec() -> bool {
        true
    }

    open spec fn try_from_spec(v: VersionedDataFrame<Version1, Version1DataFrame>) -> Result<types::AccelerometerI16, ()> {
        match v.data.value {
            SensorData::AccelerometerI16(r) => Ok(r),
            _ => Err(()),
        }
    }
}

impl TryFrom<Version1DataFrame> for types::MagnetometerI16 {
    type Error = ();

    fn try_from(value: Version1DataFrame) -> (r: Result<types::MagnetometerI16, ()>) {
        match value.value {
            SensorData::MagnetometerI16(v) => Ok(v),
            _ => Err(()),
        }
    }
}

impl vstd::std_specs::convert::TryFromSpecImpl<Version1DataFrame> for types::MagnetometerI16 {
    open spec fn obeys_try_from_spec() -> bool {
        true
    }

    open spec fn try_from_spec(v: Version1DataFrame) -> Result<types::MagnetometerI16, ()> {
        match v.value {
            SensorData::MagnetometerI16(r) => Ok(r),
            _ => Err(()),
        }
    }
}

impl TryFrom<VersionedDataFrame<Version1, Version1DataFrame>> for types::MagnetometerI16 {
    type Error = ();

    fn try_from(value: VersionedDataFrame<Version1, Version1DataFrame>) -> (r: Result<types::MagnetometerI16, ()>) {
        match value.data.value {
            SensorData::MagnetometerI16(v) => Ok(v),
            _ => Err(()),
        }
    }
}

impl vstd::std_specs::convert::TryFromSpecImpl<VersionedDataFrame<Version1, Version1DataFrame>> for types::MagnetometerI16 {
    open spec fn obeys_try_from_spec() -> bool {
        true
    }

    open spec fn try_from_spec(v: VersionedDataFrame<Version1, Version1DataFrame>) -> Result<types::MagnetometerI16, ()> {
        match v.data.value {
            SensorData::MagnetometerI16(r) => Ok(r),
            _ => Err(()),
        }
    }
}

impl TryFrom<Version1DataFrame> for types::TemperatureI16 {
    type Error = ();

    fn try_from(value: Version1DataFrame) -> (r: Result<types::TemperatureI16, ()>) {
        match value.value {
            SensorData::TemperatureI16(v) => Ok(v),
            _ => Err(()),
        }
    }
}

impl vstd::std_specs::convert::TryFromSpecImpl<Version1DataFrame> for types::TemperatureI16 {
    open spec fn obeys_try_from_spec() -> bool {
        true
    }

    open spec fn try_from_spec(v: Version1DataFrame) -> Result<types::TemperatureI16, ()> {
        match v.value {
            SensorData::TemperatureI16(r) => Ok(r),
            _ => Err(()),
        }
    }
}

impl TryFrom<VersionedDataFrame<Version1, Version1DataFrame>> for types::TemperatureI16 {
    type Error = ();

    fn try_from(value: VersionedDataFrame<Version1, Version1DataFrame>) -> (r: Result<types::TemperatureI16, ()>) {
        match value.data.value {
            SensorData::TemperatureI16(v) => Ok(v),
            _ => Err(()),
        }
    }
}

impl vstd::std_specs::convert::TryFromSpecImpl<VersionedDataFrame<Version1, Version1DataFrame>> for types::TemperatureI16 {
    open spec fn obeys_try_from_spec() -> bool {
        true
    }

    open spec fn try_from_spec(v: VersionedDataFrame<Version1, Version1DataFrame>) -> Result<types::TemperatureI16, ()> {
        match v.data.value {
            SensorData::TemperatureI16(r) => Ok(r),
            _ => Err(()),
        }
    }
}

impl TryFrom<Version1DataFrame> for types::GyroscopeI16 {
    type Error = ();

    fn try_from(value: Version1DataFrame) -> (r: Result<types::GyroscopeI16, ()>) {
        match value.value {
            SensorData::GyroscopeI16(v) => Ok(v),
            _ => Err(()),
        }
    }
}

impl vstd::std_specs::convert::TryFromSpecImpl<Version1DataFrame> for types::GyroscopeI16 {
    open spec fn obeys_try_from_spec() -> bool {
        true
    }

    open spec fn try_from_spec(v: Version1DataFrame) -> Result<types::GyroscopeI16, ()> {
        match v.value {
            SensorData::GyroscopeI16(r) => Ok(r),
            _ => Err(()),
        }
    }
}

impl TryFrom<VersionedDataFrame<Version1, Version1DataFrame>> for types::GyroscopeI16 {
    type Error = ();

    fn try_from(value: VersionedDataFrame<Version1, Version1DataFrame>) -> (r: Result<types::GyroscopeI16, ()>) {
        match value.data.value {
            SensorData::GyroscopeI16(v) => Ok(v),
            _ => Err(()),
        }
    }
}

impl vstd::std_specs::convert::TryFromSpecImpl<VersionedDataFrame<Version1, Version1DataFrame>> for types::GyroscopeI16 {
    open spec fn obeys_try_from_spec() -> bool {
        true
    }

    open spec fn try_from_spec(v: VersionedDataFrame<Version1, Version1DataFrame>) -> Result<types::GyroscopeI16, ()> {
        match v.data.value {
            SensorData::GyroscopeI16(r) => Ok(r),
            _ => Err(()),
        }
    }
}

impl TryFrom<Version1DataFrame> for types::HeadingI16 {
    type Error = ();

    fn try_from(value: Version1DataFrame) -> (r: Result<types::HeadingI16, ()>) {
        match value.value {
            SensorData::HeadingI16(v) => Ok(v),
            _ => Err(()),
        }
    }
}

impl vstd::std_specs::convert::TryFromSpecImpl<Version1DataFrame> for types::HeadingI16 {
    open spec fn obeys_try_from_spec() -> bool {
        true
    }

    open spec fn try_from_spec(v: Version1DataFrame) -> Result<types::HeadingI16, ()> {
        match v.value {
            SensorData::HeadingI16(r) => Ok(r),
            _ => Err(()),
        }
    }
}

impl TryFrom<VersionedDataFrame<Version1, Version1DataFrame>> for types::HeadingI16 {
    type Error = ();

    fn try_from(value: VersionedDataFrame<Version1, Version1DataFrame>) -> (r: Result<types::HeadingI16, ()>) {
        match value.data.value {
            SensorData::HeadingI16(v) => Ok(v),
            _ => Err(()),
        }
    }
}

impl vstd::std_specs::convert::TryFromSpecImpl<VersionedDataFrame<Version1, Version1DataFrame>> for types::HeadingI16 {
    open spec fn obeys_try_from_spec() -> bool {
        true
    }

    open spec fn try_from_spec(v: VersionedDataFrame<Version1, Version1DataFrame>) -> Result<types::HeadingI16, ()> {
        match v.data.value {
            SensorData::HeadingI16(r) => Ok(r),
            _ => Err(()),
        }
    }
}

impl TryFrom<Version1DataFrame> for types::EulerAnglesF32 {
    type Error = ();

    fn try_from(value: Version1DataFrame) -> (r: Result<types::EulerAnglesF32, ()>) {
        match value.value {
            SensorData::EulerAnglesF32(v) => Ok(v),
            _ => Err(()),
        }
    }
}

impl vstd::std_specs::convert::TryFromSpecImpl<Version1DataFrame> for types::EulerAnglesF32 {
    open spec fn obeys_try_from_spec() -> bool {
        true
    }

    open spec fn try_from_spec(v: Version1DataFrame) -> Result<types::EulerAnglesF32, ()> {
        match v.value {
            SensorData::EulerAnglesF32(r) => Ok(r),
            _ => Err(()),
        }
    }
}

impl TryFrom<VersionedDataFrame<Version1, Version1DataFrame>> for types::EulerAnglesF32 {
    type Error = ();

    fn try_from(value: VersionedDataFrame<Version1, Version1DataFrame>) -> (r: Result<types::EulerAnglesF32, ()>) {
        match value.data.value {
            SensorData::EulerAnglesF32(v) => Ok(v),
            _ => Err(()),
        }
    }
}

impl vstd::std_specs::convert::TryFromSpecImpl<VersionedDataFrame<Version1, Version1DataFrame>> for types::EulerAnglesF32 {
    open spec fn obeys_try_from_spec() -> bool {
        true
    }

    open spec fn try_from_spec(v: VersionedDataFrame<Version1, Version1DataFrame>) -> Result<types::EulerAnglesF32, ()> {
        match v.data.value {
            SensorData::EulerAnglesF32(r) => Ok(r),
            _ => Err(()),
        }
    }
}

impl TryFrom<Version1DataFrame> for types::OrientationQuaternionF32 {
    type Error = ();

    fn try_from(value: Version1DataFrame) -> (r: Result<types::OrientationQuaternionF32, ()>) {
        match value.value {
            SensorData::OrientationQuaternionF32(v) => Ok(v),
            _ => Err(()),
        }
    }
}

impl vstd::std_specs::convert::TryFromSpecImpl<Version1DataFrame> for types::OrientationQuaternionF32 {
    open spec fn obeys_try_from_spec() -> bool {
        true
    }

    open spec fn try_from_spec(v: Version1DataFrame) -> Result<types::OrientationQuaternionF32, ()> {
        match v.value {
            SensorData::OrientationQuaternionF32(r) => Ok(r),
            _ => Err(()),
        }
    }
}

impl TryFrom<VersionedDataFrame<Version1, Version1DataFrame>> for types::OrientationQuaternionF32 {
    type Error = ();

    fn try_from(value: VersionedDataFrame<Version1, Version1DataFrame>) -> (r: Result<types::OrientationQuaternionF32, ()>) {
        match value.data.value {
            SensorData::OrientationQuaternionF32(v) => Ok(v),
            _ => Err(()),
        }
    }
}

impl vstd::std_specs::convert::TryFromSpecImpl<VersionedDataFrame<Version1, Version1DataFrame>> for types::OrientationQuaternionF32 {
    open spec fn obeys_try_from_spec() -> bool {
        true
    }

    open spec fn try_from_spec(v: VersionedDataFrame<Version1, Version1DataFrame>) -> Result<types::OrientationQuaternionF32, ()> {
        match v.data.value {
            SensorData::OrientationQuaternionF32(r) => Ok(r),
            _ => Err(()),
        }
    }
}

impl TryFrom<Version1DataFrame> for types::LinearRanges {
    type Error = ();

    fn try_from(value: Version1DataFrame) -> (r: Result<types::LinearRanges, ()>) {
        match value.value {
            SensorData::LinearRanges(v) => Ok(v),
            _ => Err(()),
        }
    }
}

impl vstd::std_specs::convert::TryFromSpecImpl<Version1DataFrame> for types::LinearRanges {
    open spec fn obeys_try_from_spec() -> bool {
        true
    }

    open spec fn try_from_spec(v: Version1DataFrame) -> Result<types::LinearRanges, ()> {
        match v.value {
            SensorData::LinearRanges(r) => Ok(r),
            _ => Err(()),
        }
    }
}

impl TryFrom<VersionedDataFrame<Version1, Version1DataFrame>> for types::LinearRanges {
    type Error = ();

    fn try_from(value: VersionedDataFrame<Version1, Version1DataFrame>) -> (r: Result<types::LinearRanges, ()>) {
        match value.data.value {
            SensorData::LinearRanges(v) => Ok(v),
            _ => Err(()),
        }
    }
}

impl vstd::std_specs::convert::TryFromSpecImpl<VersionedDataFrame<Version1, Version1DataFrame>> for types::LinearRanges {
    open spec fn obeys_try_from_spec() -> bool {
        true
    }

    open spec fn try_from_spec(v: VersionedDataFrame<Version1, Version1DataFrame>) -> Result<types::LinearRanges, ()> {
        match v.data.value {
            SensorData::LinearRanges(r) => Ok(r),
            _ => Err(()),
        }
    }
}

impl TryFrom<Version1DataFrame> for types::Identification {
    type Error = ();

    fn try_from(value: Version1DataFrame) -> (r: Result<types::Identification, ()>) {
        match value.value {
            SensorData::Identification(v) => Ok(v),
            _ => Err(()),
        }
    }
}

impl vstd::std_specs::convert::TryFromSpecImpl<Version1DataFrame> for types::Identification {
    open spec fn obeys_try_from_spec() -> bool {
        true
    }

    open spec fn try_from_spec(v: Version1DataFrame) -> Result<types::Identification, ()> {
        match v.value {
            SensorData::Identification(r) => Ok(r),
            _ => Err(()),
        }
    }
}

impl TryFrom<VersionedDataFrame<Version1, Version1DataFrame>> for types::Identification {
    type Error = ();

    fn try_from(value: VersionedDataFrame<Version1, Version1DataFrame>) -> (r: Result<types::Identification, ()>) {
        match value.data.value {
            SensorData::Identification(v) => Ok(v),
            _ => Err(()),
        }
    }
}

impl vstd::std_specs::convert::TryFromSpecImpl<VersionedDataFrame<Version1, Version1DataFrame>> for types::Identification {
    open spec fn obeys_try_from_spec() -> bool {
        true
    }

    open spec fn try_from_spec(v: VersionedDataFrame<Version1, Version1DataFrame>) -> Result<types::Identification, ()> {
        match v.data.value {
            SensorData::Identification(r) => Ok(r),
            _ => Err(()),
        }
    }
}

} // verus!
