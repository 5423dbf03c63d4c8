use serial_sensors_proto::types::{AccelerometerI16, LinearRanges};
use serial_sensors_proto::{
    decode_from_slice, encode_into_slice, DataFrame, DecodeError, ProtocolVersion, SensorData,
    SensorId, ValueType, Vector3Data, Version1, Version1DataFrame, VersionedDataFrame,
};

#[test]
fn lib_frame_from_version() {
    let _frame = Version1::frame(Version1DataFrame {
        system_secs: u32::MAX,
        system_millis: u16::MAX,
        system_nanos: u16::MAX,
        global_sequence: u32::MAX,
        sensor_sequence: u32::MAX,
        sensor_tag: 0,
        value: AccelerometerI16::new(Vector3Data { x: 0, y: -1, z: 2 }).into(),
    });
}

#[test]
fn lib_into_versioned() {
    let frame = Version1DataFrame::new(
        u32::MAX,
        u16::MAX,
        u16::MAX,
        u32::MAX,
        12,
        0,
        AccelerometerI16::new(Vector3Data { x: 0, y: -1, z: 2 }),
    );

    let versioned = frame.into_versioned();
    assert_eq!(versioned.version, Version1);

    // The serialization target buffer.
    let mut buffer = [0_u8; 1024];

    // Encode
    let num_serialized = encode_into_slice(&versioned, &mut buffer).expect("Failed to encode");
    assert_eq!(
        num_serialized,
        8 // time
            + 1 // version
            + 4 // global sequence
            + 4 // sensor sequence
            + 2 // sensor tag
            + 1 // sensor type
            + 1 // data type
            + 3 * 2 // 3-axis data
    );

    // Decode
    let (value, num_read) =
        decode_from_slice::<VersionedDataFrame<Version1, Version1DataFrame>>(&buffer).expect("Failed to decode");
    assert_eq!(num_read, 27);
    assert_eq!(value.version, Version1);
    assert_eq!(value.data.global_sequence, u32::MAX);
    assert_eq!(value.data.sensor_sequence, 12);
    assert_eq!(value.data.sensor_tag, 0);

    let accel: AccelerometerI16 = value.try_into().expect("failed to unwrap");
    assert_eq!(accel.x, 0);
    assert_eq!(accel.y, -1);
    assert_eq!(accel.z, 2);
}

#[test]
fn sentinel_header_frame_round_trips() {
    let frame = Version1DataFrame::new_with(
        u32::MAX,
        u16::MAX,
        u16::MAX,
        u32::MAX,
        u32::MAX,
        u16::MAX,
        AccelerometerI16::new(Vector3Data::new(1, -2, 3)).into(),
    );
    let mut buffer = [0_u8; 64];
    let n = encode_into_slice(&frame, &mut buffer).expect("fits");
    // An 18-byte header, the two discriminator bytes and three 16-bit components.
    assert_eq!(n, 18 + 2 + 6);
    assert_eq!(&buffer[..18], &[0xFF; 18]);
    assert_eq!(&buffer[18..26], &[0x42, 0x04, 0x01, 0x00, 0xFE, 0xFF, 0x03, 0x00]);
    let (decoded, taken) = decode_from_slice::<Version1DataFrame>(&buffer).expect("decodes");
    assert_eq!(taken, 26);
    assert_eq!(decoded, frame);
    assert_eq!(decoded.system_secs, u32::MAX);
    assert_eq!(decoded.system_millis, u16::MAX);
    assert_eq!(decoded.system_nanos, u16::MAX);
    assert_eq!(decoded.global_sequence, u32::MAX);
    assert_eq!(decoded.sensor_sequence, u32::MAX);
    assert_eq!(decoded.sensor_tag, u16::MAX);
    let accel: AccelerometerI16 = decoded.try_into().expect("accelerometer");
    assert_eq!((accel.x, accel.y, accel.z), (1, -2, 3));
}

#[test]
fn version_two_is_rejected() {
    let frame = Version1DataFrame::new(1, 2, 3, 4, 5, 6, AccelerometerI16::new(Vector3Data::new(1, 2, 3)));
    let mut buffer = [0_u8; 64];
    let n = encode_into_slice(&Version1::frame(frame), &mut buffer).expect("fits");
    assert_eq!(buffer[0], 1);
    buffer[0] = 2;
    assert_eq!(
        decode_from_slice::<VersionedDataFrame<Version1, Version1DataFrame>>(&buffer[..n]),
        Err(DecodeError::InvalidVersion)
    );
    // The version byte alone decides, whatever follows it.
    assert_eq!(
        decode_from_slice::<VersionedDataFrame<Version1, Version1DataFrame>>(&[2]),
        Err(DecodeError::InvalidVersion)
    );
    assert_eq!(
        decode_from_slice::<VersionedDataFrame<Version1, Version1DataFrame>>(&[]),
        Err(DecodeError::Truncated)
    );
}

#[test]
fn protocol_version_is_one() {
    assert_eq!(Version1.version(), 1);
    assert_eq!(<Version1 as ProtocolVersion>::VERSION, 1);
    let frame = Version1DataFrame::new(0, 0, 0, 0, 0, 0, AccelerometerI16::default());
    let versioned: VersionedDataFrame<Version1, Version1DataFrame> = frame.into();
    assert_eq!(versioned.data, frame);
}

#[test]
fn frame_target_of_live_and_meta_readings() {
    let live = Version1DataFrame::new(0, 0, 0, 1, 1, 7, AccelerometerI16::default());
    assert!(!live.is_meta());
    assert_eq!(live.target(), SensorId::new_with(7, 0x42, ValueType::SInt16));
    assert_eq!(SensorId::from(&live), SensorId::new_with(7, 0x42, ValueType::SInt16));

    let described = SensorId::new_with(3, 0x43, ValueType::SInt16);
    let meta_value: SensorData = LinearRanges::new(serial_sensors_proto::LinearRanges {
        target: described,
        scale: 1100,
        ..Default::default()
    })
    .into();
    let meta = Version1DataFrame::new_with(0, 0, 0, 2, 2, 9, meta_value);
    assert!(meta.is_meta());
    assert_eq!(meta.target(), described);
    assert_eq!(SensorId::from(&meta), SensorId::new_with(9, 0xFE, ValueType::LinearRange));
}
