use acpi::address::{AccessSize, AddressSpace, GenericAddress, RawGenericAddress};
use acpi::platform::interrupt::{InterruptModel, IoApic};
use acpi::platform::{PlatformInfo, PlatformStorage, PmTimer, Processor, ProcessorInfo, ProcessorState};
use acpi::sdt::fadt::Fadt;
use acpi::sdt::madt::{
    IoApicEntry, LocalApicEntry, LocalX2ApicEntry, Madt, MadtEntry, MadtEntryHeader,
    MpProtectedModeWakeupCommand, MultiprocessorWakeupEntry,
};
use acpi::sdt::{AcpiTable, Signature};
use acpi::{AcpiError, AcpiTables, MadtError, PowerProfile};

fn fadt(revision: u8, length: usize, profile: u8, timer_port: u32, flags: u32, x_timer: (u8, u8, u64)) -> Vec<u8> {
    let mut bytes = vec![0u8; length.max(116)];
    bytes[0..4].copy_from_slice(b"FACP");
    bytes[4..8].copy_from_slice(&(length as u32).to_le_bytes());
    bytes[8] = revision;
    bytes[45] = profile;
    bytes[76..80].copy_from_slice(&timer_port.to_le_bytes());
    bytes[112..116].copy_from_slice(&flags.to_le_bytes());
    if length >= 220 {
        bytes[208] = x_timer.0;
        bytes[209] = 32;
        bytes[211] = x_timer.1;
        bytes[212..220].copy_from_slice(&x_timer.2.to_le_bytes());
    }
    bytes
}

fn madt(local_apic_address: u32, flags: u32, entries: &[Vec<u8>]) -> Vec<u8> {
    let body: usize = entries.iter().map(|entry| entry.len()).sum();
    let mut bytes = Vec::new();
    bytes.extend_from_slice(b"APIC");
    bytes.extend_from_slice(&((44 + body) as u32).to_le_bytes());
    bytes.resize(36, 0);
    bytes.extend_from_slice(&local_apic_address.to_le_bytes());
    bytes.extend_from_slice(&flags.to_le_bytes());
    for entry in entries {
        bytes.extend_from_slice(entry);
    }
    bytes
}

fn local_apic(processor_id: u8, apic_id: u8, flags: u32) -> Vec<u8> {
    let mut bytes = vec![0, 8, processor_id, apic_id];
    bytes.extend_from_slice(&flags.to_le_bytes());
    bytes
}

fn io_apic(id: u8, address: u32, base: u32) -> Vec<u8> {
    let mut bytes = vec![1, 12, id, 0];
    bytes.extend_from_slice(&address.to_le_bytes());
    bytes.extend_from_slice(&base.to_le_bytes());
    bytes
}

fn address_override(address: u64) -> Vec<u8> {
    let mut bytes = vec![5, 12, 0, 0];
    bytes.extend_from_slice(&address.to_le_bytes());
    bytes
}

fn x2apic(x2apic_id: u32, flags: u32, uid: u32) -> Vec<u8> {
    let mut bytes = vec![9, 16, 0, 0];
    bytes.extend_from_slice(&x2apic_id.to_le_bytes());
    bytes.extend_from_slice(&flags.to_le_bytes());
    bytes.extend_from_slice(&uid.to_le_bytes());
    bytes
}

fn mailbox(version: u16, address: u64) -> Vec<u8> {
    let mut bytes = vec![0x10, 16];
    bytes.extend_from_slice(&version.to_le_bytes());
    bytes.extend_from_slice(&[0; 4]);
    bytes.extend_from_slice(&address.to_le_bytes());
    bytes
}

fn store(regions: Vec<Vec<u8>>) -> AcpiTables {
    let mut tables = AcpiTables::new();
    for region in regions {
        tables.add_region(region);
    }
    tables
}

#[test]
fn missing_fadt_is_a_table_not_found_error() {
    let tables = store(vec![madt(0xfee0_0000, 1, &[local_apic(0, 0, 1)])]);
    assert!(matches!(PlatformInfo::new(&tables), Err(AcpiError::TableNotFound(Signature::FADT))));
    let empty = AcpiTables::new();
    assert!(matches!(PlatformInfo::new(&empty), Err(AcpiError::TableNotFound(Signature::FADT))));
}

#[test]
fn missing_madt_is_a_table_not_found_error() {
    let tables = store(vec![fadt(1, 116, 1, 0x608, 0, (0, 0, 0))]);
    assert!(matches!(PlatformInfo::new(&tables), Err(AcpiError::TableNotFound(Signature::MADT))));
    assert!(matches!(
        InterruptModel::new_in(&tables, PlatformStorage::new()),
        Err(AcpiError::TableNotFound(Signature::MADT))
    ));
}

#[test]
fn missing_madt_is_reported_before_a_bad_timer_address() {
    let tables = store(vec![fadt(3, 244, 1, 0, 0, (0x40, 0, 0x1000))]);
    assert!(matches!(PlatformInfo::new(&tables), Err(AcpiError::TableNotFound(Signature::MADT))));
}

#[test]
fn bad_timer_address_is_an_error() {
    let tables = store(vec![
        fadt(3, 244, 1, 0x608, 0, (0x40, 0, 0x1000)),
        madt(0xfee0_0000, 1, &[local_apic(0, 0, 1)]),
    ]);
    assert!(matches!(PlatformInfo::new(&tables), Err(AcpiError::InvalidGenericAddress)));
}

#[test]
fn application_processors_keep_the_order_of_the_table() {
    let tables = store(vec![
        fadt(1, 116, 2, 0x608, 1 << 8, (0, 0, 0)),
        madt(
            0xfee0_0000,
            1,
            &[
                local_apic(10, 0, 1),
                io_apic(2, 0xfec0_0000, 0),
                local_apic(13, 6, 1),
                x2apic(0x100, 1, 77),
                vec![4, 6, 0xff, 0, 0, 1],
                local_apic(11, 2, 0),
                local_apic(12, 4, 1),
                x2apic(0x101, 0, 78),
            ],
        ),
    ]);
    let info = PlatformInfo::new(&tables).unwrap();
    let processors = info.processor_info.unwrap();
    assert_eq!(
        processors.boot_processor,
        Processor { processor_uid: 10, local_apic_id: 0, state: ProcessorState::Running, is_ap: false }
    );
    assert_eq!(
        processors.application_processors,
        vec![
            Processor { processor_uid: 13, local_apic_id: 6, state: ProcessorState::WaitingForSipi, is_ap: true },
            Processor { processor_uid: 77, local_apic_id: 0x100, state: ProcessorState::WaitingForSipi, is_ap: true },
            Processor { processor_uid: 11, local_apic_id: 2, state: ProcessorState::Disabled, is_ap: true },
            Processor { processor_uid: 12, local_apic_id: 4, state: ProcessorState::WaitingForSipi, is_ap: true },
            Processor { processor_uid: 78, local_apic_id: 0x101, state: ProcessorState::Disabled, is_ap: true },
        ]
    );
    assert_eq!(info.power_profile, PowerProfile::Mobile);
}

#[test]
fn a_disabled_first_processor_is_still_the_boot_processor() {
    let table = madt(0, 0, &[local_apic(1, 1, 0), local_apic(2, 2, 1)]);
    let madt = Madt::from_bytes(&table).unwrap();
    let (_, processors) = InterruptModel::from_madt(&madt, PlatformStorage::new());
    let processors = processors.unwrap();
    assert_eq!(processors.boot_processor.state, ProcessorState::Disabled);
    assert!(!processors.boot_processor.is_ap);
    assert_eq!(processors.application_processors.len(), 1);
    assert_eq!(processors.application_processors[0].state, ProcessorState::WaitingForSipi);
}

#[test]
fn interrupt_model_collects_the_apic_description() {
    let table = madt(
        0xfee0_0000,
        1,
        &[
            io_apic(1, 0xfec0_0000, 0),
            local_apic(0, 0, 1),
            io_apic(2, 0xfec0_1000, 24),
        ],
    );
    let madt = Madt::from_bytes(&table).unwrap();
    assert!(madt.supports_8259());
    let (model, processors) = InterruptModel::from_madt(&madt, PlatformStorage::new());
    match model {
        InterruptModel::Apic(apic) => {
            assert_eq!(apic.local_apic_address, 0xfee0_0000);
            assert!(apic.also_has_legacy_pics);
            assert_eq!(
                apic.io_apics,
                vec![
                    IoApic { id: 1, address: 0xfec0_0000, global_system_interrupt_base: 0 },
                    IoApic { id: 2, address: 0xfec0_1000, global_system_interrupt_base: 24 },
                ]
            );
        }
        InterruptModel::Unknown => panic!("the table describes an APIC"),
    }
    assert!(processors.unwrap().application_processors.is_empty());
}

#[test]
fn last_address_override_wins() {
    let table = madt(
        0xfee0_0000,
        0,
        &[address_override(0x1_0000_0000), local_apic(0, 0, 1), address_override(0x2_0000_0000)],
    );
    let madt = Madt::from_bytes(&table).unwrap();
    assert!(!madt.supports_8259());
    let (model, _) = InterruptModel::from_madt(&madt, PlatformStorage::new());
    match model {
        InterruptModel::Apic(apic) => {
            assert_eq!(apic.local_apic_address, 0x2_0000_0000);
            assert!(!apic.also_has_legacy_pics);
        }
        InterruptModel::Unknown => panic!("the table describes an APIC"),
    }
}

#[test]
fn table_without_apic_entries_has_an_unknown_model() {
    for entries in [vec![], vec![mailbox(1, 0x1000)], vec![vec![0x20, 4, 0, 0]]] {
        let table = madt(0xfee0_0000, 1, &entries);
        let madt = Madt::from_bytes(&table).unwrap();
        let (model, processors) = InterruptModel::from_madt(&madt, PlatformStorage::new());
        assert!(matches!(model, InterruptModel::Unknown));
        assert!(processors.is_none());
    }
}

#[test]
fn apic_without_processor_entries_reports_no_processors() {
    let table = madt(0xfee0_0000, 1, &[io_apic(1, 0xfec0_0000, 0)]);
    let madt = Madt::from_bytes(&table).unwrap();
    let (model, processors) = InterruptModel::from_madt(&madt, PlatformStorage::new());
    assert!(matches!(model, InterruptModel::Apic(_)));
    assert!(processors.is_none());
}

#[test]
fn processors_behind_a_malformed_entry_are_not_reported() {
    let mut overrun = local_apic(2, 2, 1);
    overrun[1] = 200;
    let table = madt(0, 0, &[local_apic(1, 1, 1), overrun, local_apic(3, 3, 1)]);
    let madt = Madt::from_bytes(&table).unwrap();
    let (_, processors) = InterruptModel::from_madt(&madt, PlatformStorage::new());
    let processors = processors.unwrap();
    assert_eq!(processors.boot_processor.processor_uid, 1);
    assert!(processors.application_processors.is_empty());
}

#[test]
fn storage_contents_are_discarded() {
    let stale = Processor { processor_uid: 99, local_apic_id: 99, state: ProcessorState::Running, is_ap: true };
    let storage = PlatformStorage {
        application_processors: vec![stale, stale],
        io_apics: vec![IoApic { id: 9, address: 9, global_system_interrupt_base: 9 }],
    };
    let tables = store(vec![
        fadt(1, 116, 0, 0, 0, (0, 0, 0)),
        madt(0, 0, &[local_apic(0, 0, 1), local_apic(1, 1, 1)]),
    ]);
    let info = PlatformInfo::new_in(&tables, storage).unwrap();
    assert_eq!(info.processor_info.unwrap().application_processors.len(), 1);
    match info.interrupt_model {
        InterruptModel::Apic(apic) => assert!(apic.io_apics.is_empty()),
        InterruptModel::Unknown => panic!("the table describes an APIC"),
    }
    assert!(info.pm_timer.is_none());
    assert_eq!(info.power_profile, PowerProfile::Unspecified);
}

#[test]
fn madt_entries_are_decoded_field_by_field() {
    let table = madt(
        0,
        0,
        &[local_apic(3, 4, 5), io_apic(6, 7, 8), x2apic(9, 10, 11), mailbox(1, 0x1234_5678_9abc_def0)],
    );
    let madt = Madt::from_bytes(&table).unwrap();
    let mut iter = madt.entries();
    assert_eq!(
        iter.next(),
        Some(MadtEntry::LocalApic(LocalApicEntry {
            header: MadtEntryHeader { entry_type: 0, length: 8 },
            processor_id: 3,
            apic_id: 4,
            flags: 5,
        }))
    );
    assert_eq!(
        iter.next(),
        Some(MadtEntry::IoApic(IoApicEntry {
            header: MadtEntryHeader { entry_type: 1, length: 12 },
            io_apic_id: 6,
            io_apic_address: 7,
            global_system_interrupt_base: 8,
        }))
    );
    assert_eq!(
        iter.next(),
        Some(MadtEntry::LocalX2Apic(LocalX2ApicEntry {
            header: MadtEntryHeader { entry_type: 9, length: 16 },
            x2apic_id: 9,
            flags: 10,
            processor_uid: 11,
        }))
    );
    assert_eq!(
        iter.next(),
        Some(MadtEntry::MultiprocessorWakeup(MultiprocessorWakeupEntry {
            header: MadtEntryHeader { entry_type: 0x10, length: 16 },
            mailbox_version: 1,
            mailbox_address: 0x1234_5678_9abc_def0,
        }))
    );
    assert_eq!(iter.next(), None);
    assert_eq!(iter.next(), None);
}

#[test]
fn mailbox_address_is_that_of_the_first_mailbox_entry() {
    let table = madt(0, 0, &[local_apic(0, 0, 1), mailbox(1, 0xa000), mailbox(1, 0xb000)]);
    assert_eq!(Madt::from_bytes(&table).unwrap().get_mpwk_mailbox_addr(), Ok(0xa000));
    let table = madt(0, 0, &[local_apic(0, 0, 1)]);
    assert_eq!(
        Madt::from_bytes(&table).unwrap().get_mpwk_mailbox_addr(),
        Err(AcpiError::InvalidMadt(MadtError::NoWakeupMailbox))
    );
}

#[test]
fn wakeup_commands_have_fixed_codes() {
    assert_eq!(MpProtectedModeWakeupCommand::from_u16(0), MpProtectedModeWakeupCommand::Noop);
    assert_eq!(MpProtectedModeWakeupCommand::from_u16(1), MpProtectedModeWakeupCommand::Wakeup);
    assert_eq!(MpProtectedModeWakeupCommand::from_u16(2), MpProtectedModeWakeupCommand::Sleep);
    assert_eq!(MpProtectedModeWakeupCommand::from_u16(3), MpProtectedModeWakeupCommand::AcceptPages);
    assert_eq!(MpProtectedModeWakeupCommand::from_u16(4), MpProtectedModeWakeupCommand::Reserved(4));
    assert_eq!(MpProtectedModeWakeupCommand::from_u16(0xffff), MpProtectedModeWakeupCommand::Reserved(0xffff));
    assert_eq!(MpProtectedModeWakeupCommand::Noop.as_u16(), 0);
    assert_eq!(MpProtectedModeWakeupCommand::Wakeup.as_u16(), 1);
    assert_eq!(MpProtectedModeWakeupCommand::Sleep.as_u16(), 2);
    assert_eq!(MpProtectedModeWakeupCommand::AcceptPages.as_u16(), 3);
    assert_eq!(MpProtectedModeWakeupCommand::Reserved(0x1234).as_u16(), 0x1234);
    for value in [0u16, 1, 2, 3, 4, 5, 0x8000, 0xffff] {
        assert_eq!(MpProtectedModeWakeupCommand::from_u16(value).as_u16(), value);
    }
}

#[test]
fn power_profile_codes_map_to_their_variants() {
    let expected = [
        PowerProfile::Unspecified,
        PowerProfile::Desktop,
        PowerProfile::Mobile,
        PowerProfile::Workstation,
        PowerProfile::EnterpriseServer,
        PowerProfile::SohoServer,
        PowerProfile::AppliancePc,
        PowerProfile::PerformanceServer,
        PowerProfile::Tablet,
        PowerProfile::Reserved(9),
    ];
    for (code, profile) in expected.iter().enumerate() {
        let table = fadt(1, 116, code as u8, 0, 0, (0, 0, 0));
        assert_eq!(Fadt::from_bytes(&table).unwrap().power_profile(), *profile);
    }
    let table = fadt(1, 116, 0xff, 0, 0, (0, 0, 0));
    assert_eq!(Fadt::from_bytes(&table).unwrap().power_profile(), PowerProfile::Reserved(0xff));
}

#[test]
fn timer_width_flag_is_read_exactly() {
    let wide = Fadt::from_bytes(&fadt(1, 116, 0, 0x608, 1 << 8, (0, 0, 0))).unwrap();
    assert!(wide.pm_timer_is_32_bit());
    assert_eq!(PmTimer::new(&wide).unwrap().unwrap().supports_32bit, true);
    let narrow = Fadt::from_bytes(&fadt(1, 116, 0, 0x608, !(1u32 << 8), (0, 0, 0))).unwrap();
    assert!(!narrow.pm_timer_is_32_bit());
    assert_eq!(PmTimer::new(&narrow).unwrap().unwrap().supports_32bit, false);
}

#[test]
fn timer_comes_from_the_port_address_of_an_old_table() {
    let table = Fadt::from_bytes(&fadt(1, 116, 0, 0x608, 0, (0, 0, 0))).unwrap();
    assert_eq!(table.x_pm_timer_block, None);
    assert_eq!(
        PmTimer::new(&table),
        Ok(Some(PmTimer {
            base: GenericAddress {
                address_space: AddressSpace::SystemIo,
                bit_width: 0,
                bit_offset: 0,
                access_size: AccessSize::Undefined,
                address: 0x608,
            },
            supports_32bit: false,
        }))
    );
}

#[test]
fn timer_prefers_the_extended_address() {
    let table = Fadt::from_bytes(&fadt(3, 244, 0, 0x608, 1 << 8, (0, 3, 0xfed0_8000))).unwrap();
    assert_eq!(
        PmTimer::new(&table),
        Ok(Some(PmTimer {
            base: GenericAddress {
                address_space: AddressSpace::SystemMemory,
                bit_width: 32,
                bit_offset: 0,
                access_size: AccessSize::DWordAccess,
                address: 0xfed0_8000,
            },
            supports_32bit: true,
        }))
    );
}

#[test]
fn a_zero_extended_address_falls_back_to_the_port_address() {
    let table = Fadt::from_bytes(&fadt(3, 244, 0, 0x608, 0, (0x40, 9, 0))).unwrap();
    assert_eq!(table.pm_timer_block().unwrap().unwrap().address, 0x608);
    assert_eq!(table.pm_timer_block().unwrap().unwrap().address_space, AddressSpace::SystemIo);
}

#[test]
fn the_extended_address_needs_revision_and_length() {
    let old = Fadt::from_bytes(&fadt(1, 244, 0, 0x608, 0, (0, 0, 0xfed0_8000))).unwrap();
    assert_eq!(old.x_pm_timer_block, None);
    let short = Fadt::from_bytes(&fadt(3, 219, 0, 0x608, 0, (0, 0, 0))).unwrap();
    assert_eq!(short.x_pm_timer_block, None);
    let full = Fadt::from_bytes(&fadt(2, 220, 0, 0x608, 0, (1, 2, 0x808))).unwrap();
    assert_eq!(
        full.x_pm_timer_block,
        Some(RawGenericAddress { address_space: 1, bit_width: 32, bit_offset: 0, access_size: 2, address: 0x808 })
    );
}

#[test]
fn no_timer_block_means_no_timer() {
    let table = Fadt::from_bytes(&fadt(3, 244, 0, 0, 1 << 8, (0, 0, 0))).unwrap();
    assert_eq!(PmTimer::new(&table), Ok(None));
    let tables = store(vec![fadt(3, 244, 0, 0, 1 << 8, (0, 0, 0)), madt(0, 0, &[])]);
    let info = PlatformInfo::new(&tables).unwrap();
    assert!(info.pm_timer.is_none());
    assert!(info.processor_info.is_none());
    assert!(matches!(info.interrupt_model, InterruptModel::Unknown));
}

#[test]
fn undefined_address_codes_are_rejected() {
    let raw = RawGenericAddress { address_space: 0, bit_width: 8, bit_offset: 1, access_size: 1, address: 5 };
    assert_eq!(
        GenericAddress::from_raw(raw),
        Ok(GenericAddress {
            address_space: AddressSpace::SystemMemory,
            bit_width: 8,
            bit_offset: 1,
            access_size: AccessSize::ByteAccess,
            address: 5,
        })
    );
    for space in [0x0bu8, 0x7e, 0x80, 0xbf] {
        let bad = RawGenericAddress { address_space: space, ..raw };
        assert_eq!(GenericAddress::from_raw(bad), Err(AcpiError::InvalidGenericAddress));
    }
    let bad = RawGenericAddress { access_size: 5, ..raw };
    assert_eq!(GenericAddress::from_raw(bad), Err(AcpiError::InvalidGenericAddress));
    assert_eq!(AddressSpace::from_code(0x7f), Some(AddressSpace::FunctionalFixedHardware));
    assert_eq!(AddressSpace::from_code(0xc0), Some(AddressSpace::OemDefined(0xc0)));
    assert_eq!(AddressSpace::from_code(0xff), Some(AddressSpace::OemDefined(0xff)));
    assert_eq!(AddressSpace::from_code(0x0a), Some(AddressSpace::PlatformCommunicationsChannel));
    assert_eq!(AccessSize::from_code(4), Some(AccessSize::QWordAccess));
    assert_eq!(AccessSize::from_code(0), Some(AccessSize::Undefined));
}

#[test]
fn processor_info_holds_what_it_is_given() {
    let boot = Processor { processor_uid: 0, local_apic_id: 0, state: ProcessorState::Running, is_ap: false };
    let other = Processor { processor_uid: 1, local_apic_id: 2, state: ProcessorState::WaitingForSipi, is_ap: true };
    let info = ProcessorInfo::new_in(boot, vec![other]);
    assert_eq!(info.boot_processor, boot);
    assert_eq!(info.application_processors, vec![other]);
}
