use serial_sensors_proto::registry::{check_registry, lookup, registry};
use serial_sensors_proto::{DuplicateSensorType, RegistryEntry, ValueType};

#[test]
fn the_protocol_registry_has_unique_ids() {
    let entries = registry();
    assert_eq!(entries.len(), 10);
    assert_eq!(check_registry(&entries), Ok(()));
    assert_eq!(lookup(&entries, 0x46, ValueType::UInt8), Some(1));
    assert_eq!(lookup(&entries, 0xFF, ValueType::Identifier), Some(64));
    assert_eq!(lookup(&entries, 0xFF, ValueType::UInt8), None);
}

#[test]
fn registering_one_id_twice_fails() {
    let entries = [
        RegistryEntry { sensor_type_id: 0x10, value_type: ValueType::UInt8, num_components: 1 },
        RegistryEntry { sensor_type_id: 0x42, value_type: ValueType::SInt16, num_components: 3 },
        RegistryEntry { sensor_type_id: 0x11, value_type: ValueType::UInt8, num_components: 1 },
        RegistryEntry { sensor_type_id: 0x42, value_type: ValueType::UInt32, num_components: 2 },
    ];
    assert_eq!(
        check_registry(&entries),
        Err(DuplicateSensorType { sensor_type_id: 0x42, first: 1, second: 3 })
    );
    assert_eq!(check_registry(&entries[..3]), Ok(()));
    assert_eq!(check_registry(&[]), Ok(()));
}

#[test]
fn lookup_takes_the_first_match() {
    let entries = [
        RegistryEntry { sensor_type_id: 0x42, value_type: ValueType::SInt16, num_components: 3 },
        RegistryEntry { sensor_type_id: 0x42, value_type: ValueType::SInt16, num_components: 9 },
    ];
    assert_eq!(lookup(&entries, 0x42, ValueType::SInt16), Some(3));
    assert!(check_registry(&entries).is_err());
}
