//! A compact binary wire format for MEMS sensor readings.
//!
//! Readings are wrapped in a tagged [`SensorData`] envelope, placed in a versioned frame with a
//! fixed header, encoded as fixed-width little-endian bytes and byte-stuffed with COBS so that a
//! zero byte delimits frames on a serial stream.
pub mod data_types;
pub mod identifier;
pub mod linear_ranges;
pub mod registry;
pub mod sensor_data;
pub mod sensor_id;
pub mod serializer;
pub mod types;
pub mod value_type;
pub mod versions;
pub mod wire;

pub use data_types::{ScalarData, Vector2Data, Vector3Data, Vector4Data};
pub use identifier::{Identifier, IdentifierCode};
pub use linear_ranges::{Calibrated, LinearRanges};
pub use registry::{ComponentLookupError, DuplicateSensorType, RegistryEntry};
pub use sensor_data::{CompileTimeTypeInformation, RuntimeTypeInformation, SensorData};
pub use sensor_id::SensorId;
pub use serializer::{deserialize, serialize, DeserializationError, SerializationError};
pub use value_type::ValueType;
pub use versions::{DataFrame, ProtocolVersion, Version1, Version1DataFrame, VersionedDataFrame};
pub use wire::{decode_from_slice, encode_into_slice, Codec, Component, DecodeError, EncodeError};
