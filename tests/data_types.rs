use serial_sensors_proto::{
    Calibrated, decode_from_slice, encode_into_slice, DecodeError, EncodeError, Identifier, IdentifierCode,
    LinearRanges, ScalarData, SensorId, ValueType, Vector2Data, Vector3Data, Vector4Data,
};

#[test]
fn test_identifier_serialization() {
    let input_data = Identifier::<64>::new(SensorId::default(), IdentifierCode::Product, "LSM303DLHC");

    // The deserialization target buffer.
    let mut buffer = [0_u8; 1024];

    // Serialize the data
    let num_serialized = encode_into_slice(&input_data, &mut buffer).expect("Failed to serialize");

    // Ensure the serialized length is correct
    assert_eq!(num_serialized, 69);

    // Deserialize the data
    let result = decode_from_slice::<Identifier<64>>(&buffer).expect("Failed to deserialize");
    let deserialized: Identifier<64> = result.0;
    let count = result.1;

    // Ensure the deserialized content is correct
    assert_eq!(deserialized, input_data);
    assert_eq!(count, 69);
}

#[test]
fn identifier_test_index() {
    let reading = Identifier::<64>::new(SensorId::default(), IdentifierCode::Generic, "abcde");

    let value = core::str::from_utf8(&reading.value).expect("invalid coding");

    assert_eq!(
        value,
        "abcde                                                           "
    );
    assert_eq!(reading.len(), 64);
    assert!(!reading.is_empty());
}

#[test]
fn identifier_truncates_long_values() {
    let reading = Identifier::<4>::new(SensorId::default(), IdentifierCode::Maker, "abcdefgh");
    assert_eq!(reading.value, *b"abcd");
    assert_eq!(reading.as_str().expect("valid"), "abcd");
}

#[test]
fn identifier_as_str_rejects_invalid_utf8() {
    let mut reading = Identifier::<4>::new(SensorId::default(), IdentifierCode::Maker, "ab");
    assert_eq!(reading.as_str().expect("valid"), "ab  ");
    reading.value[0] = 0xFF;
    assert!(reading.as_str().is_err());
}

#[test]
fn identifier_from_str_and_default() {
    let from: Identifier<8> = "xy".into();
    assert_eq!(from.target, SensorId::new_with(0, 0, ValueType::Identifier));
    assert_eq!(from.code, IdentifierCode::Generic);
    assert_eq!(&from.value, b"xy      ");
    let default = Identifier::<3>::default();
    assert_eq!(default.value, [0x20; 3]);
}

#[test]
fn identifier_decode_rejects_unknown_code() {
    let reading = Identifier::<64>::new(SensorId::new_with(7, 0x42, ValueType::SInt16), IdentifierCode::Revision, "r1");
    let mut buffer = [0_u8; 69];
    encode_into_slice(&reading, &mut buffer).expect("fits");
    assert_eq!(&buffer[..5], &[7, 0, 0x42, 0x04, 0x03]);
    buffer[4] = 0x04;
    assert_eq!(decode_from_slice::<Identifier<64>>(&buffer), Err(DecodeError::UnknownVariant));
    buffer[4] = 0x03;
    assert_eq!(decode_from_slice::<Identifier<64>>(&buffer), Ok((reading, 69)));
    assert_eq!(decode_from_slice::<Identifier<64>>(&buffer[..68]).map(|r| r.1), Err(DecodeError::Truncated));
}

#[test]
fn linear_ranges_test_accelerometer_data_i16_serialization() {
    let mag_data = LinearRanges {
        target: SensorId::default(),
        resolution_bits: 12,
        ..Default::default()
    };

    // The deserialization target buffer.
    let mut buffer = [0_u8; 1024];

    // Serialize the data
    let num_serialized = encode_into_slice(&mag_data, &mut buffer).expect("Failed to serialize");

    // Ensure the serialized length is correct
    assert_eq!(num_serialized, 17);

    // Deserialize the data
    let result = decode_from_slice::<LinearRanges>(&buffer).expect("Failed to deserialize");
    let deserialized: LinearRanges = result.0;
    let count = result.1;

    // Ensure the deserialized content is correct
    assert_eq!(deserialized.resolution_bits, 12);
    assert_eq!(count, 17);
}

#[test]
fn linear_ranges_wire_layout() {
    let ranges = LinearRanges {
        target: SensorId::new_with(0x0102, 0x42, ValueType::SInt16),
        resolution_bits: 12,
        scale_op: 1,
        scale: -2,
        scale_decimals: 3,
        offset: 20,
        offset_decimals: 4,
    };
    let mut buffer = [0_u8; 17];
    assert_eq!(encode_into_slice(&ranges, &mut buffer), Ok(17));
    assert_eq!(
        buffer,
        [0x02, 0x01, 0x42, 0x04, 12, 0, 1, 0xFE, 0xFF, 0xFF, 0xFF, 3, 20, 0, 0, 0, 4]
    );
    assert_eq!(decode_from_slice::<LinearRanges>(&buffer), Ok((ranges, 17)));
}

#[test]
fn scalar_test_accelerometer_data_i16_serialization() {
    let input_data = ScalarData::<i16>::new(100);

    // The deserialization target buffer.
    let mut buffer = [0_u8; 1024];

    // Serialize the data
    let num_serialized = encode_into_slice(&input_data, &mut buffer).expect("Failed to serialize");

    // Ensure the serialized length is correct
    assert_eq!(num_serialized, 2);

    // Ensure the serialized content is correct
    let expected_bytes: [u8; 2] = 100_i16.to_le_bytes();
    assert_eq!(&buffer[..num_serialized], &expected_bytes);

    // Deserialize the data
    let result = decode_from_slice::<ScalarData<i16>>(&buffer).expect("Failed to deserialize");
    let deserialized: ScalarData<i16> = result.0;
    let count = result.1;

    // Ensure the deserialized content is correct
    assert_eq!(deserialized, input_data);
    assert_eq!(count, 2);
}

#[test]
fn scalar_test_index() {
    let reading = ScalarData::<u32> { value: 12 };

    assert_eq!(reading[0], 12);
    assert_eq!(reading.len(), 1);
    assert!(!reading.is_empty());
}

#[test]
fn vector2_test_accelerometer_data_i16_serialization() {
    let accel_data = Vector2Data::<i16>::new(100, 200);

    // The deserialization target buffer.
    let mut buffer = [0_u8; 1024];

    // Serialize the data
    let num_serialized = encode_into_slice(&accel_data, &mut buffer).expect("Failed to serialize");

    // Ensure the serialized length is correct
    assert_eq!(num_serialized, 4);

    // Ensure the serialized content is correct
    let expected_bytes: [u8; 4] = [
        100_i16.to_le_bytes()[0],
        100_i16.to_le_bytes()[1],
        200_i16.to_le_bytes()[0],
        200_i16.to_le_bytes()[1],
    ];
    assert_eq!(&buffer[..num_serialized], &expected_bytes);

    // Deserialize the data
    let result = decode_from_slice::<Vector2Data<i16>>(&buffer).expect("Failed to deserialize");
    let deserialized: Vector2Data<i16> = result.0;
    let count = result.1;

    // Ensure the deserialized content is correct
    assert_eq!(deserialized, accel_data);
    assert_eq!(count, 4);
}

#[test]
fn vector2_test_index() {
    let reading = Vector2Data::<u32> { x: 1, y: 2 };

    assert_eq!(reading[0], 1);
    assert_eq!(reading[1], 2);
    assert_eq!(reading.len(), 2);
    assert!(!reading.is_empty());
}

#[test]
fn vector3_test_accelerometer_data_i16_serialization() {
    let accel_data = Vector3Data::<i16>::new(100, 200, -300);

    // The deserialization target buffer.
    let mut buffer = [0_u8; 1024];

    // Serialize the data
    let num_serialized = encode_into_slice(&accel_data, &mut buffer).expect("Failed to serialize");

    // Ensure the serialized length is correct
    assert_eq!(num_serialized, 6);

    // Ensure the serialized content is correct
    let expected_bytes: [u8; 6] = [
        100_i16.to_le_bytes()[0],
        100_i16.to_le_bytes()[1],
        200_i16.to_le_bytes()[0],
        200_i16.to_le_bytes()[1],
        (-300_i16).to_le_bytes()[0],
        (-300_i16).to_le_bytes()[1],
    ];
    assert_eq!(&buffer[..num_serialized], &expected_bytes);

    // Deserialize the data
    let result = decode_from_slice::<Vector3Data<i16>>(&buffer).expect("Failed to deserialize");
    let deserialized: Vector3Data<i16> = result.0;
    let count = result.1;

    // Ensure the deserialized content is correct
    assert_eq!(deserialized, accel_data);
    assert_eq!(count, 6);
}

#[test]
fn vector3_test_index() {
    let reading = Vector3Data::<u32> { x: 1, y: 2, z: 3 };

    assert_eq!(reading[0], 1);
    assert_eq!(reading[1], 2);
    assert_eq!(reading[2], 3);
    assert_eq!(reading.len(), 3);
    assert!(!reading.is_empty());
}

#[test]
fn vector4_test_accelerometer_data_i16_serialization() {
    let accel_data = Vector4Data::<i16> {
        a: 100,
        b: 200,
        c: -300,
        d: 12,
    };

    // The deserialization target buffer.
    let mut buffer = [0_u8; 1024];

    // Serialize the data
    let num_serialized = encode_into_slice(&accel_data, &mut buffer).expect("Failed to serialize");

    // Ensure the serialized length is correct
    assert_eq!(num_serialized, 8);

    // Ensure the serialized content is correct
    let expected_bytes: [u8; 8] = [
        100_i16.to_le_bytes()[0],
        100_i16.to_le_bytes()[1],
        200_i16.to_le_bytes()[0],
        200_i16.to_le_bytes()[1],
        (-300_i16).to_le_bytes()[0],
        (-300_i16).to_le_bytes()[1],
        (12_i16).to_le_bytes()[0],
        (12_i16).to_le_bytes()[1],
    ];
    assert_eq!(&buffer[..num_serialized], &expected_bytes);

    // Deserialize the data
    let result = decode_from_slice::<Vector4Data<i16>>(&buffer).expect("Failed to deserialize");
    let deserialized: Vector4Data<i16> = result.0;
    let count = result.1;

    // Ensure the deserialized content is correct
    assert_eq!(deserialized, accel_data);
    assert_eq!(count, 8);
}

#[test]
fn vector4_test_index() {
    let reading = Vector4Data::<u32> {
        a: 1,
        b: 2,
        c: 3,
        d: 42,
    };

    assert_eq!(reading[0], 1);
    assert_eq!(reading[1], 2);
    assert_eq!(reading[2], 3);
    assert_eq!(reading[3], 42);
}

#[test]
fn vectors_from_arrays() {
    assert_eq!(Vector2Data::from([1_u8, 2]), Vector2Data::new(1, 2));
    assert_eq!(Vector3Data::from([1_i16, -2, 3]), Vector3Data::new(1, -2, 3));
    assert_eq!(Vector4Data::from([1_u32, 2, 3, 4]), Vector4Data::new(1, 2, 3, 4));
    assert_eq!(ScalarData::from(7_u8), ScalarData::new(7));
}

#[test]
fn signed_and_wide_components_round_trip() {
    let v = Vector3Data::<i32>::new(i32::MIN, -1, i32::MAX);
    let mut buffer = [0_u8; 12];
    assert_eq!(encode_into_slice(&v, &mut buffer), Ok(12));
    assert_eq!(buffer, [0, 0, 0, 0x80, 0xFF, 0xFF, 0xFF, 0xFF, 0xFF, 0xFF, 0xFF, 0x7F]);
    assert_eq!(decode_from_slice::<Vector3Data<i32>>(&buffer), Ok((v, 12)));
    let w = Vector2Data::<i8>::new(-128, 127);
    let mut small = [0_u8; 2];
    assert_eq!(encode_into_slice(&w, &mut small), Ok(2));
    assert_eq!(small, [0x80, 0x7F]);
    assert_eq!(decode_from_slice::<Vector2Data<i8>>(&small), Ok((w, 2)));
    let u = ScalarData::<u16>::new(0xBEEF);
    assert_eq!(encode_into_slice(&u, &mut small), Ok(2));
    assert_eq!(small, [0xEF, 0xBE]);
}

#[test]
fn encoding_into_a_short_buffer_overflows() {
    let v = Vector3Data::<i16>::new(1, 2, 3);
    let mut buffer = [9_u8; 5];
    assert_eq!(encode_into_slice(&v, &mut buffer), Err(EncodeError::Overflow(6)));
    assert_eq!(buffer, [9; 5]);
}

#[test]
fn decoding_from_a_short_buffer_is_truncated() {
    assert_eq!(decode_from_slice::<Vector3Data<i16>>(&[1, 0, 2, 0, 3]), Err(DecodeError::Truncated));
    assert_eq!(decode_from_slice::<ScalarData<u32>>(&[]), Err(DecodeError::Truncated));
}

#[test]
fn value_type_bytes() {
    assert_eq!(ValueType::SInt16.to_u8(), 0x04);
    assert_eq!(ValueType::Identifier.to_u8(), 0xFF);
    assert_eq!(ValueType::try_from(0x0B), Ok(ValueType::Float32));
    assert_eq!(ValueType::try_from(0x10), Err(()));
    assert_eq!(ValueType::default(), ValueType::Identifier);
    assert_eq!(decode_from_slice::<ValueType>(&[0x00]), Err(DecodeError::UnknownVariant));
    assert_eq!(decode_from_slice::<ValueType>(&[0xFE]), Ok((ValueType::LinearRange, 1)));
}

#[test]
fn test_calibrate_temp() {
    let mag_data = LinearRanges {
        target: SensorId::default(),
        resolution_bits: 12,
        scale: 16384,
        ..Default::default()
    };

    let result = mag_data.calibrate(16640).expect("calibrates");
    assert_eq!(result.numerator as f32 / result.denominator as f32, 1.015625);
}

#[test]
fn test_calibrate_mag() {
    let mag_data = LinearRanges {
        target: SensorId::default(),
        resolution_bits: 12,
        scale: 1100,
        ..Default::default()
    };

    let result = mag_data.calibrate(384).expect("calibrates");
    assert_eq!(result.numerator as f32 / result.denominator as f32, 0.3490909);
}

#[test]
fn test_calibrate_accel() {
    let mag_data = LinearRanges {
        target: SensorId::default(),
        resolution_bits: 12,
        scale: 8,
        offset: 20,
        ..Default::default()
    };

    let result = mag_data.calibrate(73).expect("calibrates");
    assert_eq!(result, Calibrated { numerator: 233, denominator: 8 });
    assert_eq!(result.numerator as f32 / result.denominator as f32, 29.125);
}

#[test]
fn calibration_with_decimals() {
    // A scale of 0.5 and an offset of -1.25: 3 / 0.5 - 1.25 = 4.75.
    let ranges = LinearRanges {
        scale: 5,
        scale_decimals: 1,
        offset: -125,
        offset_decimals: 2,
        ..Default::default()
    };
    let c = ranges.calibrate(3).expect("calibrates");
    assert_eq!(c, Calibrated { numerator: 3 * 1000 - 625, denominator: 500 });
    assert_eq!(c.numerator as f64 / c.denominator as f64, 4.75);
    // No scale, or too many decimal places, give no value.
    assert_eq!(LinearRanges { scale: 0, ..Default::default() }.calibrate(1), None);
    let many = LinearRanges { scale: 1, scale_decimals: 20, offset_decimals: 5, ..Default::default() };
    assert_eq!(many.calibrate(1), None);
    let most = LinearRanges { scale: -1, scale_decimals: 20, offset_decimals: 4, ..Default::default() };
    assert_eq!(
        most.calibrate(i32::MIN),
        Some(Calibrated { numerator: i32::MIN as i128 * 10_i128.pow(24), denominator: -10_000 })
    );
}
