use serial_sensors_proto::types::{
    AccelerometerI16, EulerAnglesF32, GyroscopeI16, HeadingI16, Identification, LinearRanges,
    MagnetometerI16, OrientationQuaternionF32, SystemClockFrequency, TemperatureI16,
};
use serial_sensors_proto::{
    decode_from_slice, encode_into_slice, CompileTimeTypeInformation, ComponentLookupError,
    DecodeError, Identifier, IdentifierCode, RuntimeTypeInformation, ScalarData, SensorData,
    SensorId, ValueType, Vector3Data, Vector4Data,
};

fn all_readings() -> Vec<SensorData> {
    vec![
        SystemClockFrequency::new(ScalarData::new(72_000_000)).into(),
        AccelerometerI16::new(Vector3Data::new(1, -2, 3)).into(),
        MagnetometerI16::new(Vector3Data::new(-100, 200, -300)).into(),
        TemperatureI16::new(ScalarData::new(-40)).into(),
        GyroscopeI16::new(Vector3Data::new(i16::MIN, 0, i16::MAX)).into(),
        HeadingI16::new(ScalarData::new(200)).into(),
        EulerAnglesF32::new(Vector3Data::new(1.5_f32.to_bits(), (-0.25_f32).to_bits(), 0)).into(),
        OrientationQuaternionF32::new(Vector4Data::new(
            1.0_f32.to_bits(),
            0,
            0.5_f32.to_bits(),
            (-2.0_f32).to_bits(),
        ))
        .into(),
        LinearRanges::new(serial_sensors_proto::LinearRanges {
            target: SensorId::new_with(3, 0x42, ValueType::SInt16),
            resolution_bits: 12,
            scale_op: 0,
            scale: 8,
            scale_decimals: 0,
            offset: 20,
            offset_decimals: 0,
        })
        .into(),
        Identification::new(Identifier::new(
            SensorId::new_with(4, 0x43, ValueType::SInt16),
            IdentifierCode::Product,
            "LSM303DLHC",
        ))
        .into(),
    ]
}

#[test]
fn lib_test() {
    let instance = SensorData::AccelerometerI16(AccelerometerI16::new(Vector3Data { x: 1, y: -2, z: 3 }));
    assert_eq!(instance.sensor_type_id(), 0x42);
    assert_eq!(instance.value_type(), ValueType::SInt16);
    assert_eq!(instance.num_components(), 3);

    let value: SensorData = AccelerometerI16::new(Vector3Data { x: 1, y: -2, z: 3 }).into();
    assert_eq!(instance, value);

    let inner: AccelerometerI16 = value.try_into().unwrap();
    assert_eq!(inner.x, 1);
    assert_eq!(inner.y, -2);
    assert_eq!(inner.z, 3);
}

#[test]
fn test_test() {
    let instance = SensorData::AccelerometerI16(AccelerometerI16::new(Vector3Data { x: 1, y: -2, z: 3 }));
    assert_eq!(instance.sensor_type_id(), 0x42);
    assert_eq!(instance.value_type(), ValueType::SInt16);
    assert_eq!(instance.num_components(), 3);

    let value: SensorData = AccelerometerI16::new(Vector3Data { x: 1, y: -2, z: 3 }).into();
    assert_eq!(instance, value);

    let inner: AccelerometerI16 = value.try_into().unwrap();
    assert_eq!(inner.x, 1);
    assert_eq!(inner.y, -2);
    assert_eq!(inner.z, 3);
}

#[test]
fn lib_test_serialize() {
    let value: SensorData = AccelerometerI16::new(Vector3Data { x: 1, y: -2, z: 3 }).into();

    // The deserialization target buffer.
    let mut buffer = [0_u8; 1024];

    // Serialize the data
    let num_serialized = encode_into_slice(&value, &mut buffer).expect("Failed to serialize");

    // Ensure the serialized length is correct
    assert_eq!(num_serialized, 2 + 3 * 2);

    // Ensure the serialized content is correct
    let expected_type_code = [0x42, 0x04];
    assert_eq!(&buffer[..2], &expected_type_code);

    // Deserialize the data
    let result = decode_from_slice::<SensorData>(&buffer).expect("Failed to deserialize");
    let deserialized: SensorData = result.0;
    let count = result.1;

    // Ensure the deserialized content is correct
    assert_eq!(deserialized.sensor_type_id(), 0x42);
    assert_eq!(count, 2 + 3 * 2);

    let into: AccelerometerI16 = deserialized.try_into().unwrap();
    assert_eq!(into.x, 1);
    assert_eq!(into.y, -2);
    assert_eq!(into.z, 3);
}

#[test]
fn test_test_serialize() {
    let value: SensorData = AccelerometerI16::new(Vector3Data { x: 1, y: -2, z: 3 }).into();

    // The deserialization target buffer.
    let mut buffer = [0_u8; 1024];

    // Serialize the data
    let num_serialized = encode_into_slice(&value, &mut buffer).expect("Failed to serialize");

    // Ensure the serialized length is correct
    assert_eq!(num_serialized, 2 + 3 * 2);

    // Ensure the serialized content is correct
    let expected_type_code = [0x42, 0x04];
    assert_eq!(&buffer[..2], &expected_type_code);

    // Deserialize the data
    let result = decode_from_slice::<SensorData>(&buffer).expect("Failed to deserialize");
    let deserialized: SensorData = result.0;
    let count = result.1;

    // Ensure the deserialized content is correct
    assert_eq!(deserialized.sensor_type_id(), 0x42);
    assert_eq!(count, 2 + 3 * 2);

    let into: AccelerometerI16 = deserialized.try_into().unwrap();
    assert_eq!(into.x, 1);
    assert_eq!(into.y, -2);
    assert_eq!(into.z, 3);
}

#[test]
fn accelerometer_reading_encodes_to_eight_bytes() {
    let value: SensorData = AccelerometerI16::new(Vector3Data::new(1, -2, 3)).into();
    let mut buffer = [0_u8; 16];
    assert_eq!(encode_into_slice(&value, &mut buffer), Ok(8));
    assert_eq!(&buffer[..8], &[0x42, 0x04, 0x01, 0x00, 0xFE, 0xFF, 0x03, 0x00]);
}

#[test]
fn every_reading_round_trips() {
    for reading in all_readings() {
        let mut buffer = [0xAA_u8; 128];
        let n = encode_into_slice(&reading, &mut buffer).expect("fits");
        let (decoded, taken) = decode_from_slice::<SensorData>(&buffer).expect("decodes");
        assert_eq!(decoded, reading);
        assert_eq!(taken, n);
    }
}

#[test]
fn encoding_twice_gives_identical_bytes() {
    for reading in all_readings() {
        let mut first = [0_u8; 128];
        let mut second = [0xFF_u8; 128];
        let n = encode_into_slice(&reading, &mut first).expect("fits");
        let m = encode_into_slice(&reading, &mut second).expect("fits");
        assert_eq!(n, m);
        assert_eq!(&first[..n], &second[..m]);
    }
}

#[test]
fn discriminators_agree_with_registered_constants() {
    let expected: [(u8, ValueType, u8); 10] = [
        (SystemClockFrequency::TYPE_ID, SystemClockFrequency::VALUE_TYPE, SystemClockFrequency::NUM_COMPONENTS),
        (AccelerometerI16::TYPE_ID, AccelerometerI16::VALUE_TYPE, AccelerometerI16::NUM_COMPONENTS),
        (MagnetometerI16::TYPE_ID, MagnetometerI16::VALUE_TYPE, MagnetometerI16::NUM_COMPONENTS),
        (TemperatureI16::TYPE_ID, TemperatureI16::VALUE_TYPE, TemperatureI16::NUM_COMPONENTS),
        (GyroscopeI16::TYPE_ID, GyroscopeI16::VALUE_TYPE, GyroscopeI16::NUM_COMPONENTS),
        (HeadingI16::TYPE_ID, HeadingI16::VALUE_TYPE, HeadingI16::NUM_COMPONENTS),
        (EulerAnglesF32::TYPE_ID, EulerAnglesF32::VALUE_TYPE, EulerAnglesF32::NUM_COMPONENTS),
        (
            OrientationQuaternionF32::TYPE_ID,
            OrientationQuaternionF32::VALUE_TYPE,
            OrientationQuaternionF32::NUM_COMPONENTS,
        ),
        (LinearRanges::TYPE_ID, LinearRanges::VALUE_TYPE, LinearRanges::NUM_COMPONENTS),
        (Identification::TYPE_ID, Identification::VALUE_TYPE, Identification::NUM_COMPONENTS),
    ];
    for (reading, (id, vt, n)) in all_readings().iter().zip(expected.iter()) {
        assert_eq!(reading.sensor_type_id(), *id);
        assert_eq!(reading.value_type(), *vt);
        assert_eq!(reading.num_components(), *n);
        assert_eq!(RuntimeTypeInformation::sensor_type_id(reading), *id);
        assert_eq!(RuntimeTypeInformation::value_type(reading), *vt);
        assert_eq!(RuntimeTypeInformation::num_components(reading), *n);
        assert_eq!(SensorData::components(*id, *vt), Ok(*n));
    }
    assert_eq!(AccelerometerI16::TYPE_ID, 0x42);
    assert_eq!(Identification::NUM_COMPONENTS, 64);
    assert_eq!(HeadingI16::VALUE_TYPE, ValueType::UInt8);
}

#[test]
fn unregistered_pairs_have_no_components() {
    assert_eq!(SensorData::components(0x42, ValueType::UInt8), Err(ComponentLookupError::UnknownType));
    assert_eq!(SensorData::components(0x01, ValueType::SInt8), Err(ComponentLookupError::UnknownType));
    assert_eq!(SensorData::components(0xF1, ValueType::Float32), Ok(4));
}

#[test]
fn decoding_rejects_unknown_discriminators() {
    // A registered sensor type id with the wrong value type.
    assert_eq!(
        decode_from_slice::<SensorData>(&[0x42, 0x01, 1, 0, 2, 0, 3, 0]),
        Err(DecodeError::UnknownVariant)
    );
    // A value type byte that names no value type.
    assert_eq!(decode_from_slice::<SensorData>(&[0x42, 0x99, 1, 0]), Err(DecodeError::UnknownVariant));
    // Too short for the discriminators, then for the payload.
    assert_eq!(decode_from_slice::<SensorData>(&[0x42]), Err(DecodeError::Truncated));
    assert_eq!(decode_from_slice::<SensorData>(&[0x42, 0x04, 1, 0, 2, 0, 3]), Err(DecodeError::Truncated));
}

#[test]
fn metadata_readings_name_their_target() {
    let readings = all_readings();
    for reading in &readings[..8] {
        assert!(!reading.is_meta());
        assert_eq!(reading.meta_target(), None);
    }
    assert!(readings[8].is_meta());
    assert_eq!(readings[8].meta_target(), Some(&SensorId::new_with(3, 0x42, ValueType::SInt16)));
    assert!(readings[9].is_meta());
    assert_eq!(readings[9].meta_target(), Some(&SensorId::new_with(4, 0x43, ValueType::SInt16)));
}

#[test]
fn unwrapping_the_wrong_reading_fails() {
    let value: SensorData = TemperatureI16::new(ScalarData::new(21)).into();
    let wrong: Result<AccelerometerI16, ()> = value.try_into();
    assert_eq!(wrong, Err(()));
    let right: TemperatureI16 = value.try_into().expect("temperature");
    assert_eq!(right.value, 21);
}

#[test]
fn sensor_id_accessors() {
    let id = SensorId::new_with(0x1234, 0x45, ValueType::SInt16);
    assert_eq!(id.tag(), 0x1234);
    assert_eq!(id.id(), 0x45);
    assert_eq!(id.value_type(), ValueType::SInt16);
    assert_eq!(id.num_components(), Ok(3));
    assert_eq!(
        SensorId::new_with(0, 0x45, ValueType::UInt8).num_components(),
        Err(ComponentLookupError::UnknownType)
    );
    assert_eq!(SensorId::default(), SensorId::new_with(0, 0, ValueType::Identifier));
    let mut buffer = [0_u8; 4];
    assert_eq!(encode_into_slice(&id, &mut buffer), Ok(4));
    assert_eq!(buffer, [0x34, 0x12, 0x45, 0x04]);
    assert_eq!(decode_from_slice::<SensorId>(&buffer), Ok((id, 4)));
}

#[test]
fn readings_give_mutable_access_to_their_value() {
    let mut accel = AccelerometerI16::default();
    accel.x = 5;
    accel.z = -5;
    assert_eq!(accel.0, Vector3Data::new(5, 0, -5));
    let mut id = Identifier::<4>::new(SensorId::default(), IdentifierCode::Generic, "ab");
    id[2] = b'c';
    assert_eq!(&id.value, b"abc ");
}
