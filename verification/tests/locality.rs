use acpi::platform::numa::{MemoryAffinity, NumaInfo, NumaStorage, ProcessorAffinity};
use acpi::sdt::slit::{distance_in, DistanceMatrix, Slit};
use acpi::sdt::srat::Srat;
use acpi::sdt::{AcpiTable, Signature};
use acpi::AcpiTables;

fn slit(domains: u64, distances: &[u8]) -> Vec<u8> {
    let mut bytes = Vec::new();
    bytes.extend_from_slice(b"SLIT");
    bytes.extend_from_slice(&((44 + distances.len()) as u32).to_le_bytes());
    bytes.resize(36, 0);
    bytes.extend_from_slice(&domains.to_le_bytes());
    bytes.extend_from_slice(distances);
    bytes
}

fn srat(entries: &[Vec<u8>]) -> Vec<u8> {
    let body: usize = entries.iter().map(|entry| entry.len()).sum();
    let mut bytes = Vec::new();
    bytes.extend_from_slice(b"SRAT");
    bytes.extend_from_slice(&((48 + body) as u32).to_le_bytes());
    bytes.resize(48, 0);
    for entry in entries {
        bytes.extend_from_slice(entry);
    }
    bytes
}

fn local_apic(domain: u32, apic_id: u8, flags: u32) -> Vec<u8> {
    let domain = domain.to_le_bytes();
    let mut bytes = vec![0, 17, 0, domain[0], apic_id];
    bytes.extend_from_slice(&flags.to_le_bytes());
    bytes.push(0);
    bytes.extend_from_slice(&domain[1..]);
    bytes.extend_from_slice(&[0; 4]);
    bytes
}

fn x2apic(domain: u32, x2apic_id: u32, flags: u32) -> Vec<u8> {
    let mut bytes = vec![2, 25, 0, 0, 0];
    bytes.extend_from_slice(&domain.to_le_bytes());
    bytes.extend_from_slice(&x2apic_id.to_le_bytes());
    bytes.extend_from_slice(&flags.to_le_bytes());
    bytes.extend_from_slice(&[0; 8]);
    bytes
}

fn memory(domain: u32, base: u64, length: u64, flags: u32) -> Vec<u8> {
    let mut bytes = vec![1, 41, 0];
    bytes.extend_from_slice(&domain.to_le_bytes());
    bytes.extend_from_slice(&[0, 0]);
    bytes.extend_from_slice(&base.to_le_bytes());
    bytes.extend_from_slice(&length.to_le_bytes());
    bytes.extend_from_slice(&[0; 4]);
    bytes.extend_from_slice(&flags.to_le_bytes());
    bytes.extend_from_slice(&[0; 8]);
    bytes
}

#[test]
fn two_domain_matrix_follows_the_self_distance_convention() {
    let table = slit(2, &[10, 5, 5, 10]);
    let slit = Slit::from_bytes(&table).unwrap();
    assert_eq!(slit.num_proximity_domains, 2);
    assert_eq!(slit.matrix(), &[10, 5, 5, 10]);
    assert_eq!(slit.entry(0, 0), Some(10));
    assert_eq!(slit.entry(1, 1), Some(10));
    assert_eq!(slit.entry(0, 1), Some(5));
    assert_eq!(slit.entry(1, 0), Some(5));
    assert!(!slit.is_truncated());
}

#[test]
fn distance_is_read_at_row_times_domains_plus_column() {
    let table = slit(3, &[10, 11, 12, 21, 10, 23, 31, 32, 10]);
    let slit = Slit::from_bytes(&table).unwrap();
    assert_eq!(slit.entry(0, 1), Some(11));
    assert_eq!(slit.entry(0, 2), Some(12));
    assert_eq!(slit.entry(1, 0), Some(21));
    assert_eq!(slit.entry(1, 2), Some(23));
    assert_eq!(slit.entry(2, 0), Some(31));
    assert_eq!(slit.entry(2, 1), Some(32));
    assert_eq!(slit.entry(2, 2), Some(10));
}

#[test]
fn indices_that_name_no_domain_have_no_distance() {
    let table = slit(2, &[10, 5, 5, 10]);
    let slit = Slit::from_bytes(&table).unwrap();
    assert_eq!(slit.entry(2, 0), None);
    assert_eq!(slit.entry(0, 2), None);
    assert_eq!(slit.entry(2, 2), None);
    assert_eq!(slit.entry(u32::MAX, u32::MAX), None);
}

#[test]
fn matrix_has_domains_squared_bytes_when_the_table_has_them() {
    for domains in 0u64..6 {
        let cells = (domains * domains) as usize;
        let distances: Vec<u8> = (0..cells + 3).map(|i| i as u8).collect();
        let table = slit(domains, &distances);
        let slit = Slit::from_bytes(&table).unwrap();
        assert_eq!(slit.matrix().len(), cells);
        assert_eq!(slit.matrix(), &distances[..cells]);
    }
}

#[test]
fn matrix_is_empty_when_the_table_is_too_short() {
    let table = slit(3, &[10, 5, 5, 10, 1, 2, 3, 4]);
    let slit = Slit::from_bytes(&table).unwrap();
    assert_eq!(slit.matrix().len(), 0);
    assert!(slit.is_truncated());
    assert_eq!(slit.entry(0, 0), None);
    assert_eq!(slit.entry(2, 2), None);
}

#[test]
fn matrix_is_empty_when_the_domain_count_is_absurd() {
    for domains in [u64::MAX, 1 << 32, (1 << 32) + 1, 1 << 63] {
        let table = slit(domains, &[10, 5, 5, 10]);
        let slit = Slit::from_bytes(&table).unwrap();
        assert_eq!(slit.matrix().len(), 0);
        assert!(slit.is_truncated());
        assert_eq!(slit.entry(0, 0), None);
    }
}

#[test]
fn matrix_stops_at_the_declared_length() {
    let mut table = slit(2, &[10, 5, 5]);
    table.push(10);
    let slit = Slit::from_bytes(&table).unwrap();
    assert_eq!(slit.distances, &[10, 5, 5]);
    assert_eq!(slit.matrix().len(), 0);
}

#[test]
fn slit_needs_its_fixed_part() {
    let table = slit(0, &[]);
    assert_eq!(Slit::signature(), Signature::SLIT);
    assert!(Slit::from_bytes(&table).is_some());
    assert!(Slit::from_bytes(&table[..43]).is_none());
    let slit = Slit::from_bytes(&table).unwrap();
    assert_eq!(slit.matrix().len(), 0);
    assert!(!slit.is_truncated());
    assert_eq!(slit.entry(0, 0), None);
}

#[test]
fn distance_lookup_wants_a_complete_matrix() {
    assert_eq!(distance_in(&[10, 5, 5, 10], 2, 1, 0), Some(5));
    assert_eq!(distance_in(&[10, 5, 5], 2, 0, 0), None);
    assert_eq!(distance_in(&[10, 5, 5, 10, 0], 2, 0, 0), None);
    assert_eq!(distance_in(&[], 0, 0, 0), None);
    let matrix = DistanceMatrix { num_proximity_domains: 2, matrix: &[10, 20, 30, 10] };
    assert_eq!(matrix.entry(0, 1), Some(20));
    assert_eq!(matrix.entry(1, 0), Some(30));
    assert_eq!(matrix.entry(1, 2), None);
}

#[test]
fn numa_info_without_tables_is_empty() {
    let tables = AcpiTables::new();
    let info = NumaInfo::new(tables);
    assert!(info.processor_affinity.is_empty());
    assert!(info.memory_affinity.is_empty());
    assert_eq!(info.num_proximity_domains, 0);
    assert!(info.distance_matrix.is_empty());
}

#[test]
fn numa_info_collects_affinities_in_table_order() {
    let mut tables = AcpiTables::new();
    tables.add_region(srat(&[
        local_apic(0x0000_0100, 4, 1),
        memory(1, 0x0000_0001_AAAA_BBBB, 0x0000_0003_0000_0000, 0b011),
        vec![0x60, 4, 0, 0],
        x2apic(7, 0x1_0000, 0),
        memory(2, 0x8000_0000, 0x4000_0000, 0b100),
        local_apic(2, 5, 0xffff_fffe),
    ]));
    tables.add_region(slit(2, &[10, 20, 20, 10]));
    let info = NumaInfo::new(tables);
    assert_eq!(
        info.processor_affinity,
        vec![
            ProcessorAffinity { local_apic_id: 4, proximity_domain: 0x100, is_enabled: true },
            ProcessorAffinity { local_apic_id: 0x1_0000, proximity_domain: 7, is_enabled: false },
            ProcessorAffinity { local_apic_id: 5, proximity_domain: 2, is_enabled: false },
        ]
    );
    assert_eq!(
        info.memory_affinity,
        vec![
            MemoryAffinity {
                base_address: 0x0000_0001_AAAA_BBBB,
                length: 0x0000_0003_0000_0000,
                proximity_domain: 1,
                is_enabled: true,
                is_hot_pluggable: true,
                is_non_volatile: false,
            },
            MemoryAffinity {
                base_address: 0x8000_0000,
                length: 0x4000_0000,
                proximity_domain: 2,
                is_enabled: false,
                is_hot_pluggable: false,
                is_non_volatile: true,
            },
        ]
    );
    assert_eq!(info.num_proximity_domains, 2);
    assert_eq!(info.distance_matrix, vec![10, 20, 20, 10]);
    let matrix = info.distance_matrix();
    assert_eq!(matrix.num_proximity_domains, 2);
    assert_eq!(matrix.entry(0, 1), Some(20));
    assert_eq!(matrix.entry(1, 1), Some(10));
}

#[test]
fn numa_info_keeps_what_came_before_a_malformed_entry() {
    let mut overrun = local_apic(1, 9, 1);
    overrun[1] = 200;
    let mut tables = AcpiTables::new();
    tables.add_region(srat(&[local_apic(1, 8, 1), overrun, memory(1, 0, 0x1000, 1)]));
    let info = NumaInfo::new(tables);
    assert_eq!(
        info.processor_affinity,
        vec![ProcessorAffinity { local_apic_id: 8, proximity_domain: 1, is_enabled: true }]
    );
    assert!(info.memory_affinity.is_empty());
}

#[test]
fn numa_info_with_a_short_locality_table_has_no_matrix() {
    let mut tables = AcpiTables::new();
    tables.add_region(slit(4, &[10; 15]));
    let info = NumaInfo::new(tables);
    assert_eq!(info.num_proximity_domains, 4);
    assert!(info.distance_matrix.is_empty());
    assert_eq!(info.distance_matrix().entry(0, 0), None);
}

#[test]
fn numa_info_uses_the_storage_it_is_given() {
    let storage = NumaStorage {
        processor_affinity: Vec::with_capacity(16),
        memory_affinity: vec![MemoryAffinity {
            base_address: 1,
            length: 1,
            proximity_domain: 1,
            is_enabled: true,
            is_hot_pluggable: true,
            is_non_volatile: true,
        }],
        distance_matrix: vec![1, 2, 3],
    };
    let mut tables = AcpiTables::new();
    tables.add_region(srat(&[local_apic(3, 1, 1)]));
    let info = NumaInfo::new_in(tables, storage);
    assert_eq!(info.processor_affinity.len(), 1);
    assert!(info.processor_affinity.capacity() >= 16);
    assert!(info.memory_affinity.is_empty());
    assert!(info.distance_matrix.is_empty());
    assert_eq!(info.num_proximity_domains, 0);
}

#[test]
fn numa_info_from_tables_takes_either_table_alone() {
    let srat_bytes = srat(&[memory(5, 0x1000, 0x1000, 1)]);
    let slit_bytes = slit(1, &[10]);
    let only_srat = NumaInfo::from_tables(Srat::from_bytes(&srat_bytes), None, NumaStorage::new());
    assert_eq!(only_srat.memory_affinity.len(), 1);
    assert_eq!(only_srat.num_proximity_domains, 0);
    let only_slit = NumaInfo::from_tables(None, Slit::from_bytes(&slit_bytes), NumaStorage::new());
    assert!(only_slit.memory_affinity.is_empty());
    assert_eq!(only_slit.num_proximity_domains, 1);
    assert_eq!(only_slit.distance_matrix, vec![10]);
}
