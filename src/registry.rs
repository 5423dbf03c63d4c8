//! The table of reading types: which (sensor type id, value type) pair each reading travels
//! under, and how many components it has.
use vstd::prelude::*;
use crate::value_type::ValueType;

verus! {

/// One registered reading type: the discriminator pair that goes on the wire, and the number
/// of components that the pair stands for.
#[derive(Clone, Copy, Debug, PartialEq, Eq, Hash, Structural)]
pub struct RegistryEntry {
    /// The sensor type id.
    pub sensor_type_id: u8,
    /// How each component is represented.
    pub value_type: ValueType,
    /// The number of components.
    pub num_components: u8,
}

/// Two entries of a registry share one sensor type id.
#[derive(Clone, Copy, Debug, PartialEq, Eq, Structural)]
pub struct DuplicateSensorType {
    /// The sensor type id that both entries claim.
    pub sensor_type_id: u8,
    /// The position of the earlier entry.
    pub first: usize,
    /// The position of the later entry.
    pub second: usize,
}

/// A component lookup error.
#[derive(Clone, Copy, Debug, PartialEq, Eq, Structural)]
pub enum ComponentLookupError {
    /// The type was unknown.
    UnknownType,
}

/// No two entries share a sensor type id.
pub open spec fn ids_unique(entries: Seq<RegistryEntry>) -> bool {
    forall|a: int, b: int|
        0 <= a < b < entries.len() ==> #[trigger] entries[a].sensor_type_id
            != #[trigger] entries[b].sensor_type_id
}

/// The number of components registered under `(sensor_type_id, value_type)`: that of the first
/// entry with this pair, if there is one.
pub open spec fn spec_lookup(entries: Seq<RegistryEntry>, sensor_type_id: u8, value_type: ValueType) -> Option<u8>
    decreases entries.len(),
{
    if entries.len() == 0 {
        None
    } else if entries[0].sensor_type_id == sensor_type_id && entries[0].value_type == value_type {
        Some(entries[0].num_components)
    } else {
        spec_lookup(entries.skip(1), sensor_type_id, value_type)
    }
}

/// The reading types of this protocol version, in the order of [`crate::SensorData`]'s variants.
pub open spec fn registry_spec() -> Seq<RegistryEntry> {
    seq![
        RegistryEntry { sensor_type_id: 0x02, value_type: ValueType::UInt32, num_components: 1 },
        RegistryEntry { sensor_type_id: 0x42, value_type: ValueType::SInt16, num_components: 3 },
        RegistryEntry { sensor_type_id: 0x43, value_type: ValueType::SInt16, num_components: 3 },
        RegistryEntry { sensor_type_id: 0x44, value_type: ValueType::SInt16, num_components: 1 },
        RegistryEntry { sensor_type_id: 0x45, value_type: ValueType::SInt16, num_components: 3 },
        RegistryEntry { sensor_type_id: 0x46, value_type: ValueType::UInt8, num_components: 1 },
        RegistryEntry { sensor_type_id: 0xF0, value_type: ValueType::Float32, num_components: 3 },
        RegistryEntry { sensor_type_id: 0xF1, value_type: ValueType::Float32, num_components: 4 },
        RegistryEntry { sensor_type_id: 0xFE, value_type: ValueType::LinearRange, num_components: 1 },
        RegistryEntry { sensor_type_id: 0xFF, value_type: ValueType::Identifier, num_components: 64 },
    ]
}

/// The reading types of this protocol version.
pub fn registry() -> (r: [RegistryEntry; 10])
    ensures
        r@ == registry_spec(),
{
    let r = [
        RegistryEntry { sensor_type_id: 0x02, value_type: ValueType::UInt32, num_components: 1 },
        RegistryEntry { sensor_type_id: 0x42, value_type: ValueType::SInt16, num_components: 3 },
        RegistryEntry { sensor_type_id: 0x43, value_type: ValueType::SInt16, num_components: 3 },
        RegistryEntry { sensor_type_id: 0x44, value_type: ValueType::SInt16, num_components: 1 },
        RegistryEntry { sensor_type_id: 0x45, value_type: ValueType::SInt16, num_components: 3 },
        RegistryEntry { sensor_type_id: 0x46, value_type: ValueType::UInt8, num_components: 1 },
        RegistryEntry { sensor_type_id: 0xF0, value_type: ValueType::Float32, num_components: 3 },
        RegistryEntry { sensor_type_id: 0xF1, value_type: ValueType::Float32, num_components: 4 },
        RegistryEntry { sensor_type_id: 0xFE, value_type: ValueType::LinearRange, num_components: 1 },
        RegistryEntry { sensor_type_id: 0xFF, value_type: ValueType::Identifier, num_components: 64 },
    ];
    assert(r@ =~= registry_spec());
    r
}

/// Entries whose sensor type ids increase from each entry to the next have unique ids.
proof fn lemma_increasing_ids_unique(s: Seq<RegistryEntry>)
    requires
        forall|i: int| 0 <= i < s.len() - 1 ==> #[trigger] s[i].sensor_type_id < s[i + 1].sensor_type_id,
    ensures
        forall|a: int, b: int| 0 <= a < b < s.len() ==> #[trigger] s[a].sensor_type_id < #[trigger] s[b].sensor_type_id,
    decreases s.len(),
{
    if s.len() > 0 {
        let t = s.drop_last();
        assert forall|i: int| 0 <= i < t.len() - 1 implies #[trigger] t[i].sensor_type_id < t[i + 1].sensor_type_id by {
            assert(t[i] == s[i] && t[i + 1] == s[i + 1]);
        }
        lemma_increasing_ids_unique(t);
        assert forall|a: int, b: int| 0 <= a < b < s.len() implies #[trigger] s[a].sensor_type_id
            < #[trigger] s[b].sensor_type_id by {
            assert(t[a] == s[a]);
            if b < s.len() - 1 {
                assert(t[b] == s[b]);
            } else if a < b - 1 {
                assert(t[b - 1] == s[b - 1]);
                assert(s[b - 1].sensor_type_id < s[b].sensor_type_id);
            }
        }
    }
}

/// The registry of this protocol version gives each sensor type id to one reading type only.
pub proof fn lemma_registry_ids_unique()
    ensures
        ids_unique(registry_spec()),
{
    let reg = registry_spec();
    assert forall|i: int| 0 <= i < reg.len() - 1 implies #[trigger] reg[i].sensor_type_id
        < reg[i + 1].sensor_type_id by {
        if i == 0 {
        } else if i == 1 {
        } else if i == 2 {
        } else if i == 3 {
        } else if i == 4 {
        } else if i == 5 {
        } else if i == 6 {
        } else if i == 7 {
        } else {
        }
    }
    lemma_increasing_ids_unique(reg);
}

/// In a registry with unique sensor type ids, looking up the discriminators of an entry gives
/// that entry's number of components.
pub proof fn lemma_lookup_unique(entries: Seq<RegistryEntry>, k: int)
    requires
        ids_unique(entries),
        0 <= k < entries.len(),
    ensures
        spec_lookup(entries, entries[k].sensor_type_id, entries[k].value_type) == Some(
            entries[k].num_components,
        ),
    decreases k,
{
    if k > 0 {
        let t = entries.skip(1);
        assert(entries[0].sensor_type_id != entries[k].sensor_type_id);
        assert forall|a: int, b: int| 0 <= a < b < t.len() implies #[trigger] t[a].sensor_type_id
            != #[trigger] t[b].sensor_type_id by {
            assert(t[a] == entries[a + 1] && t[b] == entries[b + 1]);
        }
        assert(t[k - 1] == entries[k]);
        lemma_lookup_unique(t, k - 1);
    }
}

/// Checks that a set of reading types can be registered together: no two of them claim one
/// sensor type id. On a clash, the error names the sensor type id and the positions of both
/// entries that claim it.
pub fn check_registry(entries: &[RegistryEntry]) -> (r: Result<(), DuplicateSensorType>)
    ensures
        r is Ok <==> ids_unique(entries@),
        r matches Err(d) ==> d.first < d.second < entries@.len()
            && entries@[d.first as int].sensor_type_id == d.sensor_type_id
            && entries@[d.second as int].sensor_type_id == d.sensor_type_id,
{
    let mut j: usize = 0;
    while j < entries.len()
        invariant
            j <= entries@.len(),
            ids_unique(entries@.take(j as int)),
        decreases entries@.len() - j,
    {
        let mut i: usize = 0;
        while i < j
            invariant
                i <= j < entries@.len(),
                ids_unique(entries@.take(j as int)),
                forall|a: int| 0 <= a < i ==> entries@[a].sensor_type_id != entries@[j as int].sensor_type_id,
            decreases j - i,
        {
            if entries[i].sensor_type_id == entries[j].sensor_type_id {
                proof {
                    assert(entries@[i as int].sensor_type_id == entries@[j as int].sensor_type_id);
                }
                return Err(
                    DuplicateSensorType {
                        sensor_type_id: entries[j].sensor_type_id,
                        first: i,
                        second: j,
                    },
                );
            }
            i = i + 1;
        }
        proof {
            let t = entries@.take(j as int);
            let t1 = entries@.take(j + 1);
            assert forall|a: int, b: int| 0 <= a < b < t1.len() implies #[trigger] t1[a].sensor_type_id
                != #[trigger] t1[b].sensor_type_id by {
                if b < j {
                    assert(t[a] == t1[a] && t[b] == t1[b]);
                }
            }
        }
        j = j + 1;
    }
    assert(entries@.take(j as int) =~= entries@);
    Ok(())
}

/// The number of components registered under `(sensor_type_id, value_type)` in `entries`.
pub fn lookup(entries: &[RegistryEntry], sensor_type_id: u8, value_type: ValueType) -> (r: Option<u8>)
    ensures
        r == spec_lookup(entries@, sensor_type_id, value_type),
{
    let mut i: usize = 0;
    assert(entries@.skip(0) =~= entries@);
    while i < entries.len()
        invariant
            i <= entries@.len(),
            spec_lookup(entries@, sensor_type_id, value_type) == spec_lookup(entries@.skip(i as int), sensor_type_id, value_type),
        decreases entries@.len() - i,
    {
        let e = entries[i];
        if e.sensor_type_id == sensor_type_id && e.value_type == value_type {
            return Some(e.num_components);
        }
        proof {
            assert(entries@.skip(i as int).skip(1) =~= entries@.skip(i + 1));
        }
        i = i + 1;
    }
    None
}

} // verus!
