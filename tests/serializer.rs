use serial_sensors_proto::types::{
    AccelerometerI16, EulerAnglesF32, GyroscopeI16, HeadingI16, Identification, LinearRanges,
    MagnetometerI16, OrientationQuaternionF32, SystemClockFrequency, TemperatureI16,
};
use serial_sensors_proto::{
    deserialize, serialize, DecodeError, DeserializationError, Identifier, IdentifierCode,
    ScalarData, SensorData, SensorId, SerializationError, ValueType, Vector3Data, Vector4Data,
    Version1, Version1DataFrame, VersionedDataFrame,
};

fn accelerometer_frame() -> VersionedDataFrame<Version1, Version1DataFrame> {
    let value = AccelerometerI16::new(Vector3Data { x: 1, y: -2, z: 3 });
    Version1DataFrame::new(u32::MAX, u16::MAX, u16::MAX, u32::MAX, 12, 0, value).into()
}

#[test]
fn serializer_test_serialize() {
    let value = AccelerometerI16::new(Vector3Data { x: 1, y: -2, z: 3 });
    let frame = Version1DataFrame::new(u32::MAX, u16::MAX, u16::MAX, u32::MAX, 12, 0, value);

    // The serialization target buffer: the encoded frame and room for its stuffed form.
    let mut buffer = [0_u8; 56];

    let range = serialize(frame.into(), &mut buffer).unwrap();
    assert_eq!(range.len(), 29);

    // The deserialization target buffer.
    let (_read, data) = deserialize(&mut buffer[range]).unwrap();
    assert_eq!(data.version, Version1);
    assert_eq!(data.data.global_sequence, u32::MAX);
    assert_eq!(data.data.sensor_sequence, 12);
    assert_eq!(data.data.sensor_tag, 0);

    let data: AccelerometerI16 = data.try_into().unwrap();
    assert_eq!(data.x, 1);
    assert_eq!(data.y, -2);
    assert_eq!(data.z, 3);
}

#[test]
fn stuffed_frame_bytes() {
    let mut buffer = [0_u8; 56];
    let range = serialize(accelerometer_frame(), &mut buffer).expect("fits");
    assert_eq!(range, 27..56);
    assert_eq!(
        &buffer[range.clone()],
        &[
            15, 1, 255, 255, 255, 255, 255, 255, 255, 255, 255, 255, 255, 255, 12, 1, 1, 1, 1, 4,
            66, 4, 1, 4, 254, 255, 3, 1, 0
        ]
    );
    // Only the terminator is zero: a reader can find the frame's end by scanning for it.
    assert!(buffer[range.start..range.end - 1].iter().all(|&b| b != 0));
    let (read, frame) = deserialize(&mut buffer[range]).expect("decodes");
    assert_eq!(read, 27);
    assert_eq!(frame, accelerometer_frame());
}

#[test]
fn one_byte_too_few_overflows() {
    let mut buffer = [0_u8; 55];
    assert_eq!(
        serialize(accelerometer_frame(), &mut buffer),
        Err(SerializationError::WouldOverflow(56))
    );
    // Nothing was written.
    assert_eq!(buffer, [0_u8; 55]);
    let mut empty: [u8; 0] = [];
    assert_eq!(
        serialize(accelerometer_frame(), &mut empty),
        Err(SerializationError::WouldOverflow(56))
    );
}

#[test]
fn round_trip_through_the_link() {
    let readings: Vec<SensorData> = vec![
        SystemClockFrequency::new(ScalarData::new(16_000_000)).into(),
        AccelerometerI16::new(Vector3Data::new(1, -2, 3)).into(),
        MagnetometerI16::new(Vector3Data::new(0, 0, 0)).into(),
        TemperatureI16::new(ScalarData::new(0)).into(),
        GyroscopeI16::new(Vector3Data::new(-1, 256, -256)).into(),
        HeadingI16::new(ScalarData::new(0)).into(),
        EulerAnglesF32::new(Vector3Data::new(0, u32::MAX, 0x3F80_0000)).into(),
        OrientationQuaternionF32::new(Vector4Data::new(0x3F80_0000, 0, 0, 0)).into(),
        LinearRanges::new(serial_sensors_proto::LinearRanges {
            target: SensorId::new_with(1, 0x43, ValueType::SInt16),
            resolution_bits: 12,
            scale_op: 0,
            scale: 1100,
            scale_decimals: 0,
            offset: 0,
            offset_decimals: 0,
        })
        .into(),
        Identification::new(Identifier::new(
            SensorId::new_with(1, 0x42, ValueType::SInt16),
            IdentifierCode::Maker,
            "ST",
        ))
        .into(),
    ];
    for (i, reading) in readings.into_iter().enumerate() {
        let frame: VersionedDataFrame<Version1, Version1DataFrame> =
            Version1DataFrame::new_with(5, 6, 7, i as u32, 9, 10, reading).into();
        let mut buffer = [0xEE_u8; 256];
        let range = serialize(frame, &mut buffer).expect("fits");
        // Bytes after the terminator do not matter to the reader.
        let (read, decoded) = deserialize(&mut buffer[range.start..]).expect("decodes");
        assert_eq!(decoded, frame);
        assert_eq!(read, range.start);
    }
}

#[test]
fn corrupting_a_payload_byte_never_panics() {
    let mut clean = [0_u8; 56];
    let range = serialize(accelerometer_frame(), &mut clean).expect("fits");
    for i in range.start..range.end - 1 {
        for flip in [0x01_u8, 0x80, 0xFF] {
            let mut buffer = clean;
            buffer[i] ^= flip;
            match deserialize(&mut buffer[range.clone()]) {
                Ok((read, frame)) => {
                    assert!(read <= range.len());
                    assert_eq!(frame.version, Version1);
                }
                Err(e) => assert!(matches!(
                    e,
                    DeserializationError::Truncated
                        | DeserializationError::Corrupt
                        | DeserializationError::Decode(_)
                )),
            }
        }
    }
    // Changing the x component's low byte keeps the frame well-formed with another value.
    let mut buffer = clean;
    buffer[range.start + 22] = 7;
    let (_, frame) = deserialize(&mut buffer[range.clone()]).expect("decodes");
    let accel: AccelerometerI16 = frame.try_into().expect("accelerometer");
    assert_eq!((accel.x, accel.y, accel.z), (7, -2, 3));
}

#[test]
fn stuffed_version_two_is_rejected() {
    let mut buffer = [0_u8; 56];
    let range = serialize(accelerometer_frame(), &mut buffer).expect("fits");
    // The version byte is the first data byte after the leading overhead byte.
    assert_eq!(buffer[range.start + 1], 1);
    buffer[range.start + 1] = 2;
    assert_eq!(
        deserialize(&mut buffer[range]).map(|r| r.0),
        Err(DeserializationError::Decode(DecodeError::InvalidVersion))
    );
}

#[test]
fn truncated_stuffing_is_reported() {
    // The overhead byte announces four data bytes, but only two follow.
    let mut buffer = [5_u8, 1, 2];
    assert_eq!(deserialize(&mut buffer).map(|r| r.0), Err(DeserializationError::Truncated));
    // An empty frame decodes to no bytes, which are too few for a frame.
    let mut empty = [0_u8];
    assert_eq!(
        deserialize(&mut empty).map(|r| r.0),
        Err(DeserializationError::Decode(DecodeError::Truncated))
    );
}

#[test]
fn cobs_errors_convert() {
    assert_eq!(DeserializationError::from(corncobs::CobsError::Corrupt), DeserializationError::Corrupt);
    assert_eq!(DeserializationError::from(corncobs::CobsError::Truncated), DeserializationError::Truncated);
    assert_eq!(
        DeserializationError::from(DecodeError::UnknownVariant),
        DeserializationError::Decode(DecodeError::UnknownVariant)
    );
}
