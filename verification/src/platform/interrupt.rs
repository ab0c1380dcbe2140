//! The interrupt model of the platform and the processors that come with it.

use crate::bits::{bit_of_u32, get_bit_u32};
use crate::bytes::le_u32;
use crate::error::AcpiError;
use crate::platform::{PlatformStorage, Processor, ProcessorInfo, ProcessorInfoView, ProcessorState};
use crate::sdt::madt::{madt_entries, Madt, MadtEntry, MADT_FIXED_SIZE};
use crate::sdt::{table_bytes, Signature};
use crate::tables::AcpiTables;
use vstd::prelude::*;

verus! {

#[derive(Clone, Copy, Debug, PartialEq, Eq, Structural)]
pub struct IoApic {
    pub id: u8,
    /// The physical address at which to access this I/O APIC.
    pub address: u32,
    /// The global system interrupt number where this I/O APIC's inputs start.
    pub global_system_interrupt_base: u32,
}

#[derive(Debug, Clone)]
pub struct Apic {
    pub local_apic_address: u64,
    pub io_apics: Vec<IoApic>,
    /// If this field is set, you must remap and mask all the lines of the legacy PIC, even if
    /// you choose to use the APIC. It's recommended that you do this even if ACPI does not
    /// require you to.
    pub also_has_legacy_pics: bool,
}

/// What an `Apic` holds, as plain values.
pub struct ApicView {
    pub local_apic_address: u64,
    pub io_apics: Seq<IoApic>,
    pub also_has_legacy_pics: bool,
}

#[derive(Debug, Clone)]
pub enum InterruptModel {
    /// This model is only chosen when the table does not name one of the
    /// models that are known.
    Unknown,
    /// Describes an interrupt controller based around the Advanced Programmable Interrupt
    /// Controller (any of APIC, XAPIC, or X2APIC).
    Apic(Apic),
}

/// What an `InterruptModel` holds, as plain values.
pub enum InterruptModelView {
    Unknown,
    Apic(ApicView),
}

impl View for Apic {
    type V = ApicView;

    open spec fn view(&self) -> ApicView {
        ApicView {
            local_apic_address: self.local_apic_address,
            io_apics: self.io_apics@,
            also_has_legacy_pics: self.also_has_legacy_pics,
        }
    }
}

impl View for InterruptModel {
    type V = InterruptModelView;

    open spec fn view(&self) -> InterruptModelView {
        match self {
            InterruptModel::Unknown => InterruptModelView::Unknown,
            InterruptModel::Apic(apic) => InterruptModelView::Apic(apic@),
        }
    }
}

/// Whether an entry belongs to the APIC interrupt model.
pub open spec fn is_apic_entry(entry: MadtEntry) -> bool {
    match entry {
        MadtEntry::LocalApic(_) => true,
        MadtEntry::IoApic(_) => true,
        MadtEntry::LocalApicAddressOverride(_) => true,
        MadtEntry::LocalX2Apic(_) => true,
        MadtEntry::MultiprocessorWakeup(_) => false,
    }
}

/// Whether any of the entries belongs to the APIC interrupt model.
pub open spec fn uses_apic(entries: Seq<MadtEntry>) -> bool
    decreases entries.len(),
{
    if entries.len() == 0 {
        false
    } else {
        is_apic_entry(entries.last()) || uses_apic(entries.drop_last())
    }
}

/// The address of the local interrupt controller: that of the last
/// override among the entries, or `base` if there is none.
pub open spec fn local_apic_address_of(entries: Seq<MadtEntry>, base: u64) -> u64
    decreases entries.len(),
{
    if entries.len() == 0 {
        base
    } else {
        match entries.last() {
            MadtEntry::LocalApicAddressOverride(entry) => entry.local_apic_address,
            _ => local_apic_address_of(entries.drop_last(), base),
        }
    }
}

/// The I/O interrupt controllers among the entries, in the order of the table.
pub open spec fn io_apics_of(entries: Seq<MadtEntry>) -> Seq<IoApic>
    decreases entries.len(),
{
    if entries.len() == 0 {
        Seq::empty()
    } else {
        let before = io_apics_of(entries.drop_last());
        match entries.last() {
            MadtEntry::IoApic(entry) => before.push(
                IoApic {
                    id: entry.io_apic_id,
                    address: entry.io_apic_address,
                    global_system_interrupt_base: entry.global_system_interrupt_base,
                },
            ),
            _ => before,
        }
    }
}

/// A processor as the table describes it. The processor that the table
/// names first is the boot processor, which is running; every other one
/// is an application processor, which waits to be started. A processor
/// whose entry is not enabled cannot be used.
pub open spec fn processor_of(uid: u32, apic_id: u32, flags: u32, is_ap: bool) -> Processor {
    Processor {
        processor_uid: uid,
        local_apic_id: apic_id,
        state: if flags & 1 != 1 {
            ProcessorState::Disabled
        } else if is_ap {
            ProcessorState::WaitingForSipi
        } else {
            ProcessorState::Running
        },
        is_ap,
    }
}

/// The processors among the entries, in the order of the table.
pub open spec fn processors_of(entries: Seq<MadtEntry>) -> Seq<Processor>
    decreases entries.len(),
{
    if entries.len() == 0 {
        Seq::empty()
    } else {
        let before = processors_of(entries.drop_last());
        match entries.last() {
            MadtEntry::LocalApic(entry) => before.push(
                processor_of(
                    entry.processor_id as u32,
                    entry.apic_id as u32,
                    entry.flags,
                    before.len() > 0,
                ),
            ),
            MadtEntry::LocalX2Apic(entry) => before.push(
                processor_of(entry.processor_uid, entry.x2apic_id, entry.flags, before.len() > 0),
            ),
            _ => before,
        }
    }
}

/// The interrupt model that a sequence of entries describes, with the
/// address and the flags of the table's fixed part.
pub open spec fn interrupt_model_of(entries: Seq<MadtEntry>, base: u32, flags: u32)
    -> InterruptModelView {
    if uses_apic(entries) {
        InterruptModelView::Apic(
            ApicView {
                local_apic_address: local_apic_address_of(entries, base as u64),
                io_apics: io_apics_of(entries),
                also_has_legacy_pics: flags & 1 == 1,
            },
        )
    } else {
        InterruptModelView::Unknown
    }
}

/// The processors that a sequence of entries describes: the first as the
/// boot processor, the others, in the order of the table, as application
/// processors. Without a processor entry there is nothing to report.
pub open spec fn processor_info_from(entries: Seq<MadtEntry>) -> Option<ProcessorInfoView> {
    let processors = processors_of(entries);
    if processors.len() > 0 {
        Some(
            ProcessorInfoView {
                boot_processor: processors[0],
                application_processors: processors.drop_first(),
            },
        )
    } else {
        None
    }
}

/// The processors that the interrupt-controller table in `region` describes.
pub open spec fn processor_info_of(region: Seq<u8>) -> Option<ProcessorInfoView> {
    processor_info_from(madt_entries(table_bytes(region), MADT_FIXED_SIZE as int))
}

fn processor(uid: u32, apic_id: u32, flags: u32, is_ap: bool) -> (processor: Processor)
    ensures
        processor == processor_of(uid, apic_id, flags, is_ap),
{
    let enabled = get_bit_u32(flags, 0);
    assert(bit_of_u32(flags, 0) == (flags & 1 == 1)) by (bit_vector);
    let state = if !enabled {
        ProcessorState::Disabled
    } else if is_ap {
        ProcessorState::WaitingForSipi
    } else {
        ProcessorState::Running
    };
    Processor { processor_uid: uid, local_apic_id: apic_id, state, is_ap }
}

impl InterruptModel {
    /// The interrupt model that the interrupt-controller table in `region` describes.
    pub open spec fn described_by(region: Seq<u8>) -> InterruptModelView {
        interrupt_model_of(
            madt_entries(table_bytes(region), MADT_FIXED_SIZE as int),
            le_u32(region, 36) as u32,
            le_u32(region, 40) as u32,
        )
    }

    /// Reads the interrupt model and the processors out of an
    /// interrupt-controller table, into the vectors of `storage`.
    pub fn from_madt(madt: &Madt, storage: PlatformStorage) -> (found: (
        InterruptModel,
        Option<ProcessorInfo>,
    ))
        ensures
            found.0@ == interrupt_model_of(
                madt.all_entries(),
                madt.local_apic_address,
                madt.flags,
            ),
            match found.1 {
                Some(info) => Some(info@),
                None => None,
            } == processor_info_from(madt.all_entries()),
    {
        let mut application_processors = storage.application_processors;
        let mut io_apics = storage.io_apics;
        application_processors.clear();
        io_apics.clear();
        let mut local_apic_address: u64 = madt.local_apic_address as u64;
        let mut boot_processor: Option<Processor> = None;
        let mut apic_seen = false;
        let mut iter = madt.entries();
        let ghost all = madt.all_entries();
        let ghost mut seen: Seq<MadtEntry> = Seq::empty();
        loop
            invariant
                seen + iter@ == all,
                apic_seen == uses_apic(seen),
                local_apic_address == local_apic_address_of(seen, madt.local_apic_address as u64),
                io_apics@ == io_apics_of(seen),
                match boot_processor {
                    Some(boot) => processors_of(seen).len() > 0 && boot == processors_of(seen)[0]
                        && application_processors@ == processors_of(seen).drop_first(),
                    None => processors_of(seen).len() == 0 && application_processors@.len() == 0,
                },
                boot_processor is Some ==> apic_seen,
            ensures
                iter@.len() == 0,
            decreases iter@.len(),
        {
            let ghost before = iter@;
            let entry = match iter.next() {
                Some(entry) => entry,
                None => {
                    assert(iter@ =~= before);
                    break ;
                },
            };
            proof {
                let grown = seen.push(entry);
                assert(grown + iter@ == all) by {
                    assert(grown + before.drop_first() =~= seen + before);
                }
                assert(grown.drop_last() =~= seen);
                assert(grown.last() == entry);
                let known = processors_of(seen);
                assert(forall|p: Processor|
                    known.len() > 0 ==> #[trigger] known.push(p).drop_first()
                        =~= known.drop_first().push(p));
                seen = grown;
            }
            match entry {
                MadtEntry::LocalApic(entry) => {
                    apic_seen = true;
                    let is_ap = boot_processor.is_some();
                    let found = processor(
                        entry.processor_id as u32,
                        entry.apic_id as u32,
                        entry.flags,
                        is_ap,
                    );
                    if is_ap {
                        application_processors.push(found);
                    } else {
                        boot_processor = Some(found);
                    }
                },
                MadtEntry::LocalX2Apic(entry) => {
                    apic_seen = true;
                    let is_ap = boot_processor.is_some();
                    let found = processor(entry.processor_uid, entry.x2apic_id, entry.flags, is_ap);
                    if is_ap {
                        application_processors.push(found);
                    } else {
                        boot_processor = Some(found);
                    }
                },
                MadtEntry::IoApic(entry) => {
                    apic_seen = true;
                    io_apics.push(
                        IoApic {
                            id: entry.io_apic_id,
                            address: entry.io_apic_address,
                            global_system_interrupt_base: entry.global_system_interrupt_base,
                        },
                    );
                },
                MadtEntry::LocalApicAddressOverride(entry) => {
                    apic_seen = true;
                    local_apic_address = entry.local_apic_address;
                },
                MadtEntry::MultiprocessorWakeup(_) => {},
            }
        }
        assert(seen =~= seen + iter@);
        if !apic_seen {
            return (InterruptModel::Unknown, None);
        }
        let model = InterruptModel::Apic(
            Apic { local_apic_address, io_apics, also_has_legacy_pics: madt.supports_8259() },
        );
        let info = match boot_processor {
            Some(boot) => Some(ProcessorInfo::new_in(boot, application_processors)),
            None => None,
        };
        (model, info)
    }

    /// Looks up the interrupt-controller table and reads the interrupt
    /// model and the processors out of it. Without the table there is
    /// nothing to report, which is an error.
    pub fn new_in(tables: &AcpiTables, storage: PlatformStorage) -> (found: Result<
        (InterruptModel, Option<ProcessorInfo>),
        AcpiError,
    >)
        ensures
            match found {
                Ok((model, info)) => tables.region_of(Signature::MADT, MADT_FIXED_SIZE as nat)
                    matches Some(region) && model@ == Self::described_by(region) && match info {
                    Some(info) => Some(info@),
                    None => None,
                } == processor_info_of(region),
                Err(e) => e == AcpiError::TableNotFound(Signature::MADT) && tables.region_of(
                    Signature::MADT,
                    MADT_FIXED_SIZE as nat,
                ) is None,
            },
    {
        match tables.find_table::<Madt>() {
            Some(madt) => Ok(Self::from_madt(&madt, storage)),
            None => Err(AcpiError::TableNotFound(Signature::MADT)),
        }
    }
}

/// Processors keep the order of the table: of two stretches of entries,
/// every processor of the first comes before every processor of the
/// second, and within each stretch the order is that of the stretch
/// alone. Only the role of being first does not carry over to the second
/// stretch.
pub proof fn lemma_processors_keep_table_order(first: Seq<MadtEntry>, second: Seq<MadtEntry>)
    ensures
        processors_of(first + second).len() == processors_of(first).len() + processors_of(
            second,
        ).len(),
        forall|k: int|
            0 <= k < processors_of(first).len() ==> #[trigger] processors_of(first + second)[k]
                == processors_of(first)[k],
        forall|k: int|
            #![trigger processors_of(second)[k]]
            0 <= k < processors_of(second).len() ==> {
                let moved = processors_of(first + second)[processors_of(first).len() + k];
                let alone = processors_of(second)[k];
                &&& moved.processor_uid == alone.processor_uid
                &&& moved.local_apic_id == alone.local_apic_id
            },
    decreases second.len(),
{
    if second.len() == 0 {
        assert(first + second =~= first);
    } else {
        let all = first + second;
        assert(all.drop_last() =~= first + second.drop_last());
        assert(all.last() == second.last());
        lemma_processors_keep_table_order(first, second.drop_last());
    }
}

} // verus!
