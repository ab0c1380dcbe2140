use acpi::sdt::entries::{next_entry, EntryFormat};
use acpi::sdt::srat::{
    EntryHeader, GicInitiatorAffinity, GicItsAffinity, GiccAffinity, LocalApicAffinity,
    LocalApicAffinityFlags, LocalApicX2Affinity, MemoryAffinity, MemoryAffinityFlags, Srat,
    SratEntry,
};
use acpi::sdt::{AcpiTable, Signature};

fn srat(entries: &[Vec<u8>]) -> Vec<u8> {
    let body: usize = entries.iter().map(|entry| entry.len()).sum();
    let mut bytes = Vec::new();
    bytes.extend_from_slice(b"SRAT");
    bytes.extend_from_slice(&((48 + body) as u32).to_le_bytes());
    bytes.resize(48, 0);
    for entry in entries {
        bytes.extend_from_slice(entry);
    }
    bytes
}

fn entry(typ: u8, length: u16, payload: &[u8]) -> Vec<u8> {
    let mut bytes = vec![typ];
    bytes.extend_from_slice(&length.to_le_bytes());
    bytes.extend_from_slice(payload);
    bytes
}

fn local_apic(domain: u32, apic_id: u8, flags: u32) -> Vec<u8> {
    let domain = domain.to_le_bytes();
    let mut payload = vec![domain[0], apic_id];
    payload.extend_from_slice(&flags.to_le_bytes());
    payload.push(0x21);
    payload.extend_from_slice(&domain[1..]);
    payload.extend_from_slice(&0xc10cu32.to_le_bytes());
    entry(0, 17, &payload)
}

fn memory(domain: u32, base: u64, length: u64, flags: u32) -> Vec<u8> {
    let mut payload = Vec::new();
    payload.extend_from_slice(&domain.to_le_bytes());
    payload.extend_from_slice(&[0, 0]);
    payload.extend_from_slice(&base.to_le_bytes());
    payload.extend_from_slice(&length.to_le_bytes());
    payload.extend_from_slice(&[0; 4]);
    payload.extend_from_slice(&flags.to_le_bytes());
    payload.extend_from_slice(&[0; 8]);
    entry(1, 41, &payload)
}

fn x2apic(domain: u32, x2apic_id: u32, flags: u32) -> Vec<u8> {
    let mut payload = vec![0, 0];
    payload.extend_from_slice(&domain.to_le_bytes());
    payload.extend_from_slice(&x2apic_id.to_le_bytes());
    payload.extend_from_slice(&flags.to_le_bytes());
    payload.extend_from_slice(&5u32.to_le_bytes());
    payload.extend_from_slice(&[0; 4]);
    entry(2, 25, &payload)
}

fn collect(table: &[u8]) -> Vec<SratEntry> {
    let srat = Srat::from_bytes(table).unwrap();
    let mut iter = srat.entries();
    let mut found = Vec::new();
    while let Some(entry) = iter.next() {
        found.push(entry);
        assert!(found.len() <= table.len());
    }
    assert!(iter.next().is_none());
    found
}

#[test]
fn empty_table_has_no_entries() {
    assert_eq!(collect(&srat(&[])), vec![]);
}

#[test]
fn local_apic_affinity_is_decoded_field_by_field() {
    let found = collect(&srat(&[local_apic(0x0403_0201, 7, 1)]));
    assert_eq!(
        found,
        vec![SratEntry::LocalApicAffinity(LocalApicAffinity {
            header: EntryHeader { typ: 0, length: 17 },
            proximity_domain_low: 0x01,
            apic_id: 7,
            flags: LocalApicAffinityFlags { bits: 1 },
            local_sapic_eid: 0x21,
            proximity_domain_high: [0x02, 0x03, 0x04],
            clock_domain: 0xc10c,
        })]
    );
}

#[test]
fn proximity_domain_is_put_together_from_its_two_pieces() {
    let entry = LocalApicAffinity {
        header: EntryHeader { typ: 0, length: 17 },
        proximity_domain_low: 0x78,
        apic_id: 0,
        flags: LocalApicAffinityFlags { bits: 0 },
        local_sapic_eid: 0,
        proximity_domain_high: [0x56, 0x34, 0x12],
        clock_domain: 0,
    };
    assert_eq!(entry.proximity_domain(), 0x1234_5678);
    let all = LocalApicAffinity { proximity_domain_low: 0xff, proximity_domain_high: [0xff; 3], ..entry };
    assert_eq!(all.proximity_domain(), u32::MAX);
    let low = LocalApicAffinity { proximity_domain_low: 9, proximity_domain_high: [0; 3], ..entry };
    assert_eq!(low.proximity_domain(), 9);
}

#[test]
fn memory_affinity_is_decoded_field_by_field() {
    let found = collect(&srat(&[memory(3, 0x0000_0001_AAAA_BBBB, 0x0000_0002_0000_1000, 0b101)]));
    let expected = MemoryAffinity {
        header: EntryHeader { typ: 1, length: 41 },
        proximity_domain: 3,
        base_address_low: 0xAAAA_BBBB,
        base_address_high: 1,
        length_low: 0x1000,
        length_high: 2,
        flags: MemoryAffinityFlags { bits: 0b101 },
    };
    assert_eq!(found, vec![SratEntry::MemoryAffinity(expected)]);
}

#[test]
fn wide_base_address_is_reassembled() {
    let entry = MemoryAffinity {
        header: EntryHeader { typ: 1, length: 41 },
        proximity_domain: 0,
        base_address_low: 0xAAAA_BBBB,
        base_address_high: 0x0000_0001,
        length_low: 0,
        length_high: 0,
        flags: MemoryAffinityFlags { bits: 0 },
    };
    assert_eq!(entry.base_address(), 0x0000_0001_AAAA_BBBB);
}

#[test]
fn length_is_read_from_its_own_high_field() {
    let entry = MemoryAffinity {
        header: EntryHeader { typ: 1, length: 41 },
        proximity_domain: 0,
        base_address_low: 0,
        base_address_high: 0x7777_7777,
        length_low: 0x0000_1000,
        length_high: 0x0000_0002,
        flags: MemoryAffinityFlags { bits: 0 },
    };
    assert_eq!(entry.length(), 0x0000_0002_0000_1000);
    assert_eq!(entry.base_address(), 0x7777_7777_0000_0000);
}

#[test]
fn flags_are_tested_bit_by_bit() {
    let flags = MemoryAffinityFlags { bits: 0b0101 };
    assert!(flags.contains(MemoryAffinityFlags::ENABLED));
    assert!(!flags.contains(MemoryAffinityFlags::HOT_PLUGGABLE));
    assert!(flags.contains(MemoryAffinityFlags::NON_VOLATILE));
    assert!(flags.contains(MemoryAffinityFlags::ENABLED | MemoryAffinityFlags::NON_VOLATILE));
    assert!(!flags.contains(MemoryAffinityFlags::ENABLED | MemoryAffinityFlags::HOT_PLUGGABLE));
    let unknown = LocalApicAffinityFlags { bits: 0xffff_fffe };
    assert!(!unknown.contains(LocalApicAffinityFlags::ENABLED));
    assert!(LocalApicAffinityFlags { bits: 0xffff_ffff }.contains(LocalApicAffinityFlags::ENABLED));
}

#[test]
fn x2apic_affinity_is_decoded_field_by_field() {
    let found = collect(&srat(&[x2apic(9, 0x0001_0002, 1)]));
    assert_eq!(
        found,
        vec![SratEntry::LocalApicX2Affinity(LocalApicX2Affinity {
            header: EntryHeader { typ: 2, length: 25 },
            proximity_domain: 9,
            x2apic_id: 0x0001_0002,
            flags: LocalApicAffinityFlags { bits: 1 },
            clock_domain: 5,
        })]
    );
}

#[test]
fn gic_entries_are_decoded_field_by_field() {
    let mut gicc = Vec::new();
    for value in [1u32, 2, 3, 4] {
        gicc.extend_from_slice(&value.to_le_bytes());
    }
    let mut its = Vec::new();
    its.extend_from_slice(&6u32.to_le_bytes());
    its.extend_from_slice(&[0, 0]);
    its.extend_from_slice(&7u32.to_le_bytes());
    let mut initiator = vec![0, 1];
    initiator.extend_from_slice(&8u32.to_le_bytes());
    let handle: Vec<u8> = (100u8..116).collect();
    initiator.extend_from_slice(&handle);
    initiator.extend_from_slice(&9u32.to_le_bytes());
    initiator.extend_from_slice(&[0; 4]);
    let table = srat(&[entry(3, 19, &gicc), entry(4, 13, &its), entry(5, 33, &initiator)]);
    let mut device_handle = [0u8; 16];
    device_handle.copy_from_slice(&handle);
    assert_eq!(
        collect(&table),
        vec![
            SratEntry::GiccAffinity(GiccAffinity {
                header: EntryHeader { typ: 3, length: 19 },
                proximity_domain: 1,
                acpi_processor_uid: 2,
                flags: 3,
                clock_domain: 4,
            }),
            SratEntry::GicItsAffinity(GicItsAffinity {
                header: EntryHeader { typ: 4, length: 13 },
                proximity_domain: 6,
                its_id: 7,
            }),
            SratEntry::GicInitiatorAffinity(GicInitiatorAffinity {
                header: EntryHeader { typ: 5, length: 33 },
                device_handle_type: 1,
                proximity_domain: 8,
                device_handle,
                flags: 9,
            }),
        ]
    );
}

#[test]
fn entries_come_out_in_table_order() {
    let table = srat(&[
        x2apic(1, 100, 1),
        local_apic(2, 200, 1),
        memory(3, 0x1000, 0x2000, 1),
        local_apic(4, 201, 0),
    ]);
    let kinds: Vec<u8> = collect(&table)
        .iter()
        .map(|entry| match entry {
            SratEntry::LocalApicAffinity(e) => e.apic_id,
            SratEntry::LocalApicX2Affinity(e) => e.x2apic_id as u8,
            SratEntry::MemoryAffinity(e) => e.proximity_domain as u8,
            _ => 0,
        })
        .collect();
    assert_eq!(kinds, vec![100, 200, 3, 201]);
}

#[test]
fn a_valid_stream_is_consumed_to_the_last_byte() {
    let entries = [local_apic(1, 1, 1), entry(0x77, 5, &[1, 2]), memory(1, 0, 0x1000, 1), x2apic(1, 2, 1)];
    let table = srat(&entries);
    let mut at = 48;
    let mut steps = Vec::new();
    while let Some((typ, length)) = next_entry(&table, at, EntryFormat::Affinity) {
        assert!(length > 0);
        assert!(at + length <= table.len());
        steps.push((typ, length));
        at += length;
    }
    assert_eq!(at, table.len());
    assert_eq!(steps, vec![(0, 17), (0x77, 5), (1, 41), (2, 25)]);
    assert_eq!(collect(&table).len(), 3);
}

#[test]
fn unrecognised_entries_are_skipped() {
    let table = srat(&[
        entry(0x40, 3, &[]),
        local_apic(1, 10, 1),
        entry(6, 9, &[0xde, 0xad, 0xbe, 0xef, 0, 0]),
        entry(255, 4, &[0]),
        local_apic(1, 11, 1),
    ]);
    let ids: Vec<u8> = collect(&table)
        .iter()
        .map(|entry| match entry {
            SratEntry::LocalApicAffinity(e) => e.apic_id,
            _ => 0,
        })
        .collect();
    assert_eq!(ids, vec![10, 11]);
}

#[test]
fn an_entry_that_overruns_the_table_ends_the_walk() {
    let mut overrun = local_apic(1, 11, 1);
    overrun[1] = 18;
    let table = srat(&[local_apic(1, 10, 1), overrun]);
    let found = collect(&table);
    assert_eq!(found.len(), 1);
    assert!(matches!(found[0], SratEntry::LocalApicAffinity(e) if e.apic_id == 10));
}

#[test]
fn nothing_behind_a_malformed_entry_is_yielded() {
    let mut table = srat(&[local_apic(1, 10, 1), local_apic(1, 11, 1), local_apic(1, 12, 1)]);
    // the second entry now claims far more than the table holds
    table[48 + 17 + 1] = 0xff;
    table[48 + 17 + 2] = 0xff;
    let found = collect(&table);
    assert_eq!(found.len(), 1);
    assert!(matches!(found[0], SratEntry::LocalApicAffinity(e) if e.apic_id == 10));
}

#[test]
fn an_entry_shorter_than_its_sub_header_ends_the_walk() {
    let table = srat(&[local_apic(1, 10, 1), entry(0x50, 0, &[]), local_apic(1, 11, 1)]);
    assert_eq!(collect(&table).len(), 1);
    let table = srat(&[entry(0x50, 2, &[]), local_apic(1, 11, 1)]);
    assert_eq!(collect(&table).len(), 0);
}

#[test]
fn an_entry_too_short_for_its_type_ends_the_walk() {
    let table = srat(&[local_apic(1, 10, 1), entry(1, 20, &[0; 17]), local_apic(1, 11, 1)]);
    assert_eq!(collect(&table).len(), 1);
}

#[test]
fn a_cut_off_sub_header_ends_the_walk() {
    let mut table = srat(&[local_apic(1, 10, 1)]);
    table.extend_from_slice(&[0, 17]);
    let length = table.len() as u32;
    table[4..8].copy_from_slice(&length.to_le_bytes());
    assert_eq!(collect(&table).len(), 1);
}

#[test]
fn bytes_behind_the_declared_length_are_not_walked() {
    let mut table = srat(&[local_apic(1, 10, 1)]);
    table.extend_from_slice(&local_apic(1, 11, 1));
    assert_eq!(collect(&table).len(), 1);
}

#[test]
fn a_longer_entry_keeps_its_fixed_layout() {
    let mut long = local_apic(0x0000_0005, 3, 1);
    long[1] = 20;
    long.extend_from_slice(&[0xaa, 0xbb, 0xcc]);
    let found = collect(&srat(&[long, local_apic(6, 4, 1)]));
    assert_eq!(found.len(), 2);
    assert!(matches!(found[0], SratEntry::LocalApicAffinity(e) if e.apic_id == 3 && e.header.length == 20));
    assert!(matches!(found[1], SratEntry::LocalApicAffinity(e) if e.apic_id == 4));
}

#[test]
fn a_fresh_walk_starts_over() {
    let table = srat(&[local_apic(1, 10, 1), local_apic(1, 11, 1)]);
    let srat = Srat::from_bytes(&table).unwrap();
    let mut first = srat.entries();
    assert!(first.next().is_some());
    assert!(first.next().is_some());
    assert!(first.next().is_none());
    let mut second = srat.entries();
    assert!(matches!(second.next(), Some(SratEntry::LocalApicAffinity(e)) if e.apic_id == 10));
}

#[test]
fn srat_needs_its_fixed_part() {
    let mut table = srat(&[]);
    assert_eq!(Srat::signature(), Signature::SRAT);
    assert!(Srat::from_bytes(&table).is_some());
    table[4] = 47;
    assert!(Srat::from_bytes(&table).is_none());
    assert!(Srat::from_bytes(&table[..40]).is_none());
}

#[test]
fn interrupt_controller_entries_have_a_length_byte() {
    let table = [0u8, 8, 1, 2, 1, 0, 0, 0, 0x33, 2, 9, 16];
    assert_eq!(next_entry(&table, 0, EntryFormat::InterruptController), Some((0, 8)));
    assert_eq!(next_entry(&table, 8, EntryFormat::InterruptController), Some((0x33, 2)));
    assert_eq!(next_entry(&table, 10, EntryFormat::InterruptController), None);
    assert_eq!(next_entry(&table, 12, EntryFormat::InterruptController), None);
    assert_eq!(next_entry(&table, 13, EntryFormat::InterruptController), None);
    assert_eq!(next_entry(&table, usize::MAX, EntryFormat::Affinity), None);
    assert_eq!(EntryFormat::Affinity.header_len(), 3);
    assert_eq!(EntryFormat::InterruptController.header_len(), 2);
    assert_eq!(EntryFormat::Affinity.least_len(1), 41);
    assert_eq!(EntryFormat::Affinity.least_len(200), 3);
    assert_eq!(EntryFormat::InterruptController.least_len(9), 16);
    assert_eq!(EntryFormat::InterruptController.least_len(200), 2);
}
