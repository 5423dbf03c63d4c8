//! The reading types of the protocol, each bound to one sensor type id and value type.
use vstd::prelude::*;
use crate::data_types::{ScalarData, Vector3Data, Vector4Data};
use crate::identifier::Identifier;
use crate::sensor_data::CompileTimeTypeInformation;
use crate::value_type::ValueType;

verus! {

/// System clock frequency in Hz.
#[derive(Clone, Copy, Debug, Default, PartialEq, Eq, Hash, PartialOrd, Ord)]
pub struct SystemClockFrequency(pub ScalarData<u32>);

impl SystemClockFrequency {
    /// Constructs a new instance from its value.
    pub fn new(value: ScalarData<u32>) -> (r: Self)
        ensures
            r.0 == value,
    {
        SystemClockFrequency(value)
    }
}

impl core::ops::Deref for SystemClockFrequency {
    type Target = ScalarData<u32>;

    fn deref(&self) -> &ScalarData<u32> {
        &self.0
    }
}

impl core::ops::DerefMut for SystemClockFrequency {
    fn deref_mut(&mut self) -> &mut ScalarData<u32> {
        &mut self.0
    }
}

impl CompileTimeTypeInformation for SystemClockFrequency {
    const TYPE_ID: u8 = 0x02;
    const VALUE_TYPE: ValueType = ValueType::UInt32;
    const NUM_COMPONENTS: u8 = 1;
}

/// Acceleration / gravity data, 3×`i16`.
#[derive(Clone, Copy, Debug, Default, PartialEq, Eq, Hash, PartialOrd, Ord)]
pub struct AccelerometerI16(pub Vector3Data<i16>);

impl AccelerometerI16 {
    /// Constructs a new instance from its value.
    pub fn new(value: Vector3Data<i16>) -> (r: Self)
        ensures
            r.0 == value,
    {
        AccelerometerI16(value)
    }
}

impl core::ops::Deref for AccelerometerI16 {
    type Target = Vector3Data<i16>;

    fn deref(&self) -> &Vector3Data<i16> {
        &self.0
    }
}

impl core::ops::DerefMut for AccelerometerI16 {
    fn deref_mut(&mut self) -> &mut Vector3Data<i16> {
        &mut self.0
    }
}

impl CompileTimeTypeInformation for AccelerometerI16 {
    const TYPE_ID: u8 = 0x42;
    const VALUE_TYPE: ValueType = ValueType::SInt16;
    const NUM_COMPONENTS: u8 = 3;
}

/// Magnetic field strength data, 3×`i16`.
#[derive(Clone, Copy, Debug, Default, PartialEq, Eq, Hash, PartialOrd, Ord)]
pub struct MagnetometerI16(pub Vector3Data<i16>);

impl MagnetometerI16 {
    /// Constructs a new instance from its value.
    pub fn new(value: Vector3Data<i16>) -> (r: Self)
        ensures
            r.0 == value,
    {
        MagnetometerI16(value)
    }
}

impl core::ops::Deref for MagnetometerI16 {
    type Target = Vector3Data<i16>;

    fn deref(&self) -> &Vector3Data<i16> {
        &self.0
    }
}

impl core::ops::DerefMut for MagnetometerI16 {
    fn deref_mut(&mut self) -> &mut Vector3Data<i16> {
        &mut self.0
    }
}

impl CompileTimeTypeInformation for MagnetometerI16 {
    const TYPE_ID: u8 = 0x43;
    const VALUE_TYPE: ValueType = ValueType::SInt16;
    const NUM_COMPONENTS: u8 = 3;
}

/// Temperature data, 1×`i16`.
#[derive(Clone, Copy, Debug, Default, PartialEq, Eq, Hash, PartialOrd, Ord)]
pub struct TemperatureI16(pub ScalarData<i16>);

impl TemperatureI16 {
    /// Constructs a new instance from its value.
    pub fn new(value: ScalarData<i16>) -> (r: Self)
        ensures
            r.0 == value,
    {
        TemperatureI16(value)
    }
}

impl core::ops::Deref for TemperatureI16 {
    type Target = ScalarData<i16>;

    fn deref(&self) -> &ScalarData<i16> {
        &self.0
    }
}

impl core::ops::DerefMut for TemperatureI16 {
    fn deref_mut(&mut self) -> &mut ScalarData<i16> {
        &mut self.0
    }
}

impl CompileTimeTypeInformation for TemperatureI16 {
    const TYPE_ID: u8 = 0x44;
    const VALUE_TYPE: ValueType = ValueType::SInt16;
    const NUM_COMPONENTS: u8 = 1;
}

/// Angular velocity data, 3×`i16`.
#[derive(Clone, Copy, Debug, Default, PartialEq, Eq, Hash, PartialOrd, Ord)]
pub struct GyroscopeI16(pub Vector3Data<i16>);

impl GyroscopeI16 {
    /// Constructs a new instance from its value.
    pub fn new(value: Vector3Data<i16>) -> (r: Self)
        ensures
            r.0 == value,
    {
        GyroscopeI16(value)
    }
}

impl core::ops::Deref for GyroscopeI16 {
    type Target = Vector3Data<i16>;

    fn deref(&self) -> &Vector3Data<i16> {
        &self.0
    }
}

impl core::ops::DerefMut for GyroscopeI16 {
    fn deref_mut(&mut self) -> &mut Vector3Data<i16> {
        &mut self.0
    }
}

impl CompileTimeTypeInformation for GyroscopeI16 {
    const TYPE_ID: u8 = 0x45;
    const VALUE_TYPE: ValueType = ValueType::SInt16;
    const NUM_COMPONENTS: u8 = 3;
}

/// Heading data, 1×`u8`.
#[derive(Clone, Copy, Debug, Default, PartialEq, Eq, Hash, PartialOrd, Ord)]
pub struct HeadingI16(pub ScalarData<u8>);

impl HeadingI16 {
    /// Constructs a new instance from its value.
    pub fn new(value: ScalarData<u8>) -> (r: Self)
        ensures
            r.0 == value,
    {
        HeadingI16(value)
    }
}

impl core::ops::Deref for HeadingI16 {
    type Target = ScalarData<u8>;

    fn deref(&self) -> &ScalarData<u8> {
        &self.0
    }
}

impl core::ops::DerefMut for HeadingI16 {
    fn deref_mut(&mut self) -> &mut ScalarData<u8> {
        &mut self.0
    }
}

impl CompileTimeTypeInformation for HeadingI16 {
    const TYPE_ID: u8 = 0x46;
    const VALUE_TYPE: ValueType = ValueType::UInt8;
    const NUM_COMPONENTS: u8 = 1;
}

/// Euler angles, 3×`f32`, each held as the bit pattern of the `f32` (see `f32::to_bits`).
#[derive(Clone, Copy, Debug, Default, PartialEq, Eq, Hash, PartialOrd, Ord)]
pub struct EulerAnglesF32(pub Vector3Data<u32>);

impl EulerAnglesF32 {
    /// Constructs a new instance from its value.
    pub fn new(value: Vector3Data<u32>) -> (r: Self)
        ensures
            r.0 == value,
    {
        EulerAnglesF32(value)
    }
}

impl core::ops::Deref for EulerAnglesF32 {
    type Target = Vector3Data<u32>;

    fn deref(&self) -> &Vector3Data<u32> {
        &self.0
    }
}

impl core::ops::DerefMut for EulerAnglesF32 {
    fn deref_mut(&mut self) -> &mut Vector3Data<u32> {
        &mut self.0
    }
}

impl CompileTimeTypeInformation for EulerAnglesF32 {
    const TYPE_ID: u8 = 0xF0;
    const VALUE_TYPE: ValueType = ValueType::Float32;
    const NUM_COMPONENTS: u8 = 3;
}

/// Orientation quaternion, 4×`f32`, each held as the bit pattern of the `f32` (see `f32::to_bits`).
#[derive(Clone, Copy, Debug, Default, PartialEq, Eq, Hash, PartialOrd, Ord)]
pub struct OrientationQuaternionF32(pub Vector4Data<u32>);

impl OrientationQuaternionF32 {
    /// Constructs a new instance from its value.
    pub fn new(value: Vector4Data<u32>) -> (r: Self)
        ensures
            r.0 == value,
    {
        OrientationQuaternionF32(value)
    }
}

impl core::ops::Deref for OrientationQuaternionF32 {
    type Target = Vector4Data<u32>;

    fn deref(&self) -> &Vector4Data<u32> {
        &self.0
    }
}

impl core::ops::DerefMut for OrientationQuaternionF32 {
    fn deref_mut(&mut self) -> &mut Vector4Data<u32> {
        &mut self.0
    }
}

impl CompileTimeTypeInformation for OrientationQuaternionF32 {
    const TYPE_ID: u8 = 0xF1;
    const VALUE_TYPE: ValueType = ValueType::Float32;
    const NUM_COMPONENTS: u8 = 4;
}

/// Linear value range description of another sensor.
#[derive(Clone, Copy, Debug, Default, PartialEq, Eq, Hash, PartialOrd, Ord)]
pub struct LinearRanges(pub crate::linear_ranges::LinearRanges);

impl LinearRanges {
    /// Constructs a new instance from its value.
    pub fn new(value: crate::linear_ranges::LinearRanges) -> (r: Self)
        ensures
            r.0 == value,
    {
        LinearRanges(value)
    }
}

impl core::ops::Deref for LinearRanges {
    type Target = crate::linear_ranges::LinearRanges;

    fn deref(&self) -> &crate::linear_ranges::LinearRanges {
        &self.0
    }
}

impl core::ops::DerefMut for LinearRanges {
    fn deref_mut(&mut self) -> &mut crate::linear_ranges::LinearRanges {
        &mut self.0
    }
}

impl CompileTimeTypeInformation for LinearRanges {
    const TYPE_ID: u8 = 0xFE;
    const VALUE_TYPE: ValueType = ValueType::LinearRange;
    const NUM_COMPONENTS: u8 = 1;
}

/// An identifier of another sensor.
#[derive(Clone, Copy, Debug, Default, PartialEq, Eq, Hash, PartialOrd, Ord)]
pub struct Identification(pub Identifier<64>);

impl Identification {
    /// Constructs a new instance from its value.
    pub fn new(value: Identifier<64>) -> (r: Self)
        ensures
            r.0 == value,
    {
        Identification(value)
    }
}

impl core::ops::Deref for Identification {
    type Target = Identifier<64>;

    fn deref(&self) -> &Identifier<64> {
        &self.0
    }
}

impl core::ops::DerefMut for Identification {
    fn deref_mut(&mut self) -> &mut Identifier<64> {
        &mut self.0
    }
}

impl CompileTimeTypeInformation for Identification {
    const TYPE_ID: u8 = 0xFF;
    const VALUE_TYPE: ValueType = ValueType::Identifier;
    const NUM_COMPONENTS: u8 = 64;
}

} // verus!
