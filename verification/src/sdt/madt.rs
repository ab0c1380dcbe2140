//! The Multiple APIC Description Table: the interrupt controllers of the
//! platform and, with them, its processors.

use crate::bits::{bit_of_u32, get_bit_u32};
use crate::bytes::{le_u16, le_u32, le_u64, read_u16, read_u32, read_u64};
use crate::error::{AcpiError, MadtError};
use crate::sdt::entries::{entry_at, next_entry, walk_end, EntryFormat};
use crate::sdt::{table_bytes, table_length, AcpiTable, SdtHeader, Signature};
use vstd::prelude::*;

verus! {

/// The size of the fixed part of the table: the header, the address of
/// the local interrupt controller, and the flags.
pub const MADT_FIXED_SIZE: usize = 44;

/// The size in bytes of the wakeup mailbox in memory.
pub const WAKEUP_MAILBOX_SIZE: usize = 4096;

/// The interrupt-controller table, as found in firmware memory. The
/// entries are not decoded up front; `entries` walks them.
#[derive(Clone, Copy, Debug)]
pub struct Madt<'a> {
    pub header: SdtHeader,
    pub local_apic_address: u32,
    pub flags: u32,
    /// The bytes of the whole table, header included, cut to the length
    /// that the header declares.
    pub table: &'a [u8],
}

/// The sub-header in front of each entry.
#[derive(Clone, Copy, Debug, PartialEq, Eq, Structural)]
pub struct MadtEntryHeader {
    pub entry_type: u8,
    pub length: u8,
}

/// A processor and its local interrupt controller.
#[derive(Clone, Copy, Debug, PartialEq, Eq, Structural)]
pub struct LocalApicEntry {
    pub header: MadtEntryHeader,
    pub processor_id: u8,
    pub apic_id: u8,
    pub flags: u32,
}

/// An interrupt controller for devices.
#[derive(Clone, Copy, Debug, PartialEq, Eq, Structural)]
pub struct IoApicEntry {
    pub header: MadtEntryHeader,
    pub io_apic_id: u8,
    pub io_apic_address: u32,
    pub global_system_interrupt_base: u32,
}

/// A 64-bit address of the local interrupt controller, which replaces the
/// 32-bit one of the fixed part.
#[derive(Clone, Copy, Debug, PartialEq, Eq, Structural)]
pub struct LocalApicAddressOverrideEntry {
    pub header: MadtEntryHeader,
    pub local_apic_address: u64,
}

/// A processor whose local interrupt controller has a 32-bit identifier.
#[derive(Clone, Copy, Debug, PartialEq, Eq, Structural)]
pub struct LocalX2ApicEntry {
    pub header: MadtEntryHeader,
    pub x2apic_id: u32,
    pub flags: u32,
    pub processor_uid: u32,
}

/// The mailbox through which processors are woken.
#[derive(Clone, Copy, Debug, PartialEq, Eq, Structural)]
pub struct MultiprocessorWakeupEntry {
    pub header: MadtEntryHeader,
    pub mailbox_version: u16,
    pub mailbox_address: u64,
}

/// One entry of the interrupt-controller table.
#[derive(Clone, Copy, Debug, PartialEq, Eq, Structural)]
pub enum MadtEntry {
    LocalApic(LocalApicEntry),
    IoApic(IoApicEntry),
    LocalApicAddressOverride(LocalApicAddressOverrideEntry),
    LocalX2Apic(LocalX2ApicEntry),
    MultiprocessorWakeup(MultiprocessorWakeupEntry),
}

/// A command in the command field of the wakeup mailbox.
#[derive(Clone, Copy, Debug, PartialEq, Eq, Structural)]
pub enum MpProtectedModeWakeupCommand {
    Noop,
    Wakeup,
    Sleep,
    AcceptPages,
    /// A value that stands for no command.
    Reserved(u16),
}

/// Walks the entries of an interrupt-controller table, front to back.
#[derive(Clone, Copy, Debug)]
pub struct MadtEntryIter<'a> {
    table: &'a [u8],
    offset: usize,
}

impl MpProtectedModeWakeupCommand {
    /// The command that a value of the command field stands for.
    pub open spec fn decoded(value: u16) -> MpProtectedModeWakeupCommand {
        if value == 0 {
            MpProtectedModeWakeupCommand::Noop
        } else if value == 1 {
            MpProtectedModeWakeupCommand::Wakeup
        } else if value == 2 {
            MpProtectedModeWakeupCommand::Sleep
        } else if value == 3 {
            MpProtectedModeWakeupCommand::AcceptPages
        } else {
            MpProtectedModeWakeupCommand::Reserved(value)
        }
    }

    /// The value that is written to the command field for a command.
    pub open spec fn encoded(self) -> u16 {
        match self {
            MpProtectedModeWakeupCommand::Noop => 0,
            MpProtectedModeWakeupCommand::Wakeup => 1,
            MpProtectedModeWakeupCommand::Sleep => 2,
            MpProtectedModeWakeupCommand::AcceptPages => 3,
            MpProtectedModeWakeupCommand::Reserved(value) => value,
        }
    }

    /// Interprets a value of the command field. Every value has a meaning.
    pub fn from_u16(value: u16) -> (command: MpProtectedModeWakeupCommand)
        ensures
            command == Self::decoded(value),
            command.encoded() == value,
    {
        if value == 0 {
            MpProtectedModeWakeupCommand::Noop
        } else if value == 1 {
            MpProtectedModeWakeupCommand::Wakeup
        } else if value == 2 {
            MpProtectedModeWakeupCommand::Sleep
        } else if value == 3 {
            MpProtectedModeWakeupCommand::AcceptPages
        } else {
            MpProtectedModeWakeupCommand::Reserved(value)
        }
    }

    /// The value to write to the command field.
    pub fn as_u16(self) -> (value: u16)
        ensures
            value == self.encoded(),
    {
        match self {
            MpProtectedModeWakeupCommand::Noop => 0,
            MpProtectedModeWakeupCommand::Wakeup => 1,
            MpProtectedModeWakeupCommand::Sleep => 2,
            MpProtectedModeWakeupCommand::AcceptPages => 3,
            MpProtectedModeWakeupCommand::Reserved(value) => value,
        }
    }
}

impl MadtEntryHeader {
    /// The sub-header at offset `at`.
    pub open spec fn decoded(table: Seq<u8>, at: int) -> MadtEntryHeader {
        MadtEntryHeader { entry_type: table[at], length: table[at + 1] }
    }

    fn read(table: &[u8], at: usize) -> (header: MadtEntryHeader)
        requires
            at + 2 <= table.len(),
        ensures
            header == Self::decoded(table@, at as int),
    {
        MadtEntryHeader { entry_type: table[at], length: table[at + 1] }
    }
}

impl LocalApicEntry {
    /// The entry of this type at offset `at`.
    pub open spec fn decoded(table: Seq<u8>, at: int) -> LocalApicEntry {
        LocalApicEntry {
            header: MadtEntryHeader::decoded(table, at),
            processor_id: table[at + 2],
            apic_id: table[at + 3],
            flags: le_u32(table, at + 4) as u32,
        }
    }

    fn read(table: &[u8], at: usize) -> (entry: LocalApicEntry)
        requires
            at + 8 <= table.len(),
        ensures
            entry == Self::decoded(table@, at as int),
    {
        LocalApicEntry {
            header: MadtEntryHeader::read(table, at),
            processor_id: table[at + 2],
            apic_id: table[at + 3],
            flags: read_u32(table, at + 4),
        }
    }
}

impl IoApicEntry {
    /// The entry of this type at offset `at`.
    pub open spec fn decoded(table: Seq<u8>, at: int) -> IoApicEntry {
        IoApicEntry {
            header: MadtEntryHeader::decoded(table, at),
            io_apic_id: table[at + 2],
            io_apic_address: le_u32(table, at + 4) as u32,
            global_system_interrupt_base: le_u32(table, at + 8) as u32,
        }
    }

    fn read(table: &[u8], at: usize) -> (entry: IoApicEntry)
        requires
            at + 12 <= table.len(),
        ensures
            entry == Self::decoded(table@, at as int),
    {
        IoApicEntry {
            header: MadtEntryHeader::read(table, at),
            io_apic_id: table[at + 2],
            io_apic_address: read_u32(table, at + 4),
            global_system_interrupt_base: read_u32(table, at + 8),
        }
    }
}

impl LocalApicAddressOverrideEntry {
    /// The entry of this type at offset `at`.
    pub open spec fn decoded(table: Seq<u8>, at: int) -> LocalApicAddressOverrideEntry {
        LocalApicAddressOverrideEntry {
            header: MadtEntryHeader::decoded(table, at),
            local_apic_address: le_u64(table, at + 4) as u64,
        }
    }

    fn read(table: &[u8], at: usize) -> (entry: LocalApicAddressOverrideEntry)
        requires
            at + 12 <= table.len(),
        ensures
            entry == Self::decoded(table@, at as int),
    {
        LocalApicAddressOverrideEntry {
            header: MadtEntryHeader::read(table, at),
            local_apic_address: read_u64(table, at + 4),
        }
    }
}

impl LocalX2ApicEntry {
    /// The entry of this type at offset `at`.
    pub open spec fn decoded(table: Seq<u8>, at: int) -> LocalX2ApicEntry {
        LocalX2ApicEntry {
            header: MadtEntryHeader::decoded(table, at),
            x2apic_id: le_u32(table, at + 4) as u32,
            flags: le_u32(table, at + 8) as u32,
            processor_uid: le_u32(table, at + 12) as u32,
        }
    }

    fn read(table: &[u8], at: usize) -> (entry: LocalX2ApicEntry)
        requires
            at + 16 <= table.len(),
        ensures
            entry == Self::decoded(table@, at as int),
    {
        LocalX2ApicEntry {
            header: MadtEntryHeader::read(table, at),
            x2apic_id: read_u32(table, at + 4),
            flags: read_u32(table, at + 8),
            processor_uid: read_u32(table, at + 12),
        }
    }
}

impl MultiprocessorWakeupEntry {
    /// The entry of this type at offset `at`.
    pub open spec fn decoded(table: Seq<u8>, at: int) -> MultiprocessorWakeupEntry {
        MultiprocessorWakeupEntry {
            header: MadtEntryHeader::decoded(table, at),
            mailbox_version: le_u16(table, at + 2) as u16,
            mailbox_address: le_u64(table, at + 8) as u64,
        }
    }

    fn read(table: &[u8], at: usize) -> (entry: MultiprocessorWakeupEntry)
        requires
            at + 16 <= table.len(),
        ensures
            entry == Self::decoded(table@, at as int),
    {
        MultiprocessorWakeupEntry {
            header: MadtEntryHeader::read(table, at),
            mailbox_version: read_u16(table, at + 2),
            mailbox_address: read_u64(table, at + 8),
        }
    }
}

impl MadtEntry {
    /// The entry that starts at offset `at`, if its type is one that is
    /// decoded. An entry of any other type is passed over.
    pub open spec fn decoded(table: Seq<u8>, at: int) -> Option<MadtEntry> {
        match table[at] {
            0 => Some(MadtEntry::LocalApic(LocalApicEntry::decoded(table, at))),
            1 => Some(MadtEntry::IoApic(IoApicEntry::decoded(table, at))),
            5 => Some(
                MadtEntry::LocalApicAddressOverride(
                    LocalApicAddressOverrideEntry::decoded(table, at),
                ),
            ),
            9 => Some(MadtEntry::LocalX2Apic(LocalX2ApicEntry::decoded(table, at))),
            0x10 => Some(
                MadtEntry::MultiprocessorWakeup(MultiprocessorWakeupEntry::decoded(table, at)),
            ),
            _ => None,
        }
    }
}

/// The entries that a walk from offset `at` yields, in the order of the
/// table: every well-formed entry of a decoded type, up to the end of the
/// table or to the first entry that is not well formed.
pub open spec fn madt_entries(table: Seq<u8>, at: int) -> Seq<MadtEntry>
    decreases table.len() - at,
{
    if entry_at(table, at, EntryFormat::InterruptController) {
        let rest = madt_entries(
            table,
            at + EntryFormat::InterruptController.declared_length(table, at),
        );
        match MadtEntry::decoded(table, at) {
            Some(entry) => seq![entry] + rest,
            None => rest,
        }
    } else {
        Seq::empty()
    }
}

/// The address of the first wakeup mailbox among `entries`.
pub open spec fn first_mailbox(entries: Seq<MadtEntry>) -> Option<u64>
    decreases entries.len(),
{
    if entries.len() == 0 {
        None
    } else {
        match entries[0] {
            MadtEntry::MultiprocessorWakeup(entry) => Some(entry.mailbox_address),
            _ => first_mailbox(entries.drop_first()),
        }
    }
}

impl<'a> Madt<'a> {
    /// All entries of the table, in its order.
    pub open spec fn all_entries(&self) -> Seq<MadtEntry> {
        madt_entries(self.table@, MADT_FIXED_SIZE as int)
    }

    /// Starts a walk over the entries, at the first byte behind the fixed part.
    pub fn entries(&self) -> (iter: MadtEntryIter<'a>)
        ensures
            iter.table() == self.table@,
            iter.offset() == MADT_FIXED_SIZE,
            iter@ == self.all_entries(),
    {
        MadtEntryIter { table: self.table, offset: MADT_FIXED_SIZE }
    }

    /// Whether the platform also has a pair of legacy interrupt
    /// controllers, which must be masked before the others are used.
    pub fn supports_8259(&self) -> (legacy: bool)
        ensures
            legacy == (self.flags & 1 == 1),
    {
        let flags = self.flags;
        let legacy = get_bit_u32(flags, 0);
        assert(bit_of_u32(flags, 0) == (flags & 1 == 1)) by (bit_vector);
        legacy
    }

    /// The physical address of the wakeup mailbox: that of the first
    /// mailbox entry. A table without such an entry is an error.
    pub fn get_mpwk_mailbox_addr(&self) -> (address: Result<u64, AcpiError>)
        ensures
            address == match first_mailbox(self.all_entries()) {
                Some(a) => Ok::<u64, AcpiError>(a),
                None => Err(AcpiError::InvalidMadt(MadtError::NoWakeupMailbox)),
            },
    {
        let mut iter = self.entries();
        loop
            invariant
                first_mailbox(iter@) == first_mailbox(self.all_entries()),
            decreases iter@.len(),
        {
            match iter.next() {
                Some(MadtEntry::MultiprocessorWakeup(entry)) => {
                    return Ok(entry.mailbox_address);
                },
                Some(_) => {},
                None => {
                    return Err(AcpiError::InvalidMadt(MadtError::NoWakeupMailbox));
                },
            }
        }
    }
}

impl<'a> AcpiTable<'a> for Madt<'a> {
    open spec fn table_signature() -> Signature {
        Signature::MADT
    }

    open spec fn fixed_size() -> nat {
        MADT_FIXED_SIZE as nat
    }

    open spec fn decodes(&self, region: Seq<u8>) -> bool {
        &&& self.header == SdtHeader::decoded(region)
        &&& self.local_apic_address == le_u32(region, 36)
        &&& self.flags == le_u32(region, 40)
        &&& self.table@ == table_bytes(region)
    }

    open spec fn table_header(&self) -> SdtHeader {
        self.header
    }

    fn signature() -> (signature: Signature) {
        Signature::MADT
    }

    fn from_bytes(region: &'a [u8]) -> (table: Option<Self>) {
        match table_length(region, Signature::MADT, MADT_FIXED_SIZE) {
            Some(length) => {
                let header = SdtHeader::from_bytes(region).unwrap();
                Some(
                    Madt {
                        header,
                        local_apic_address: read_u32(region, 36),
                        flags: read_u32(region, 40),
                        table: vstd::slice::slice_subrange(region, 0, length),
                    },
                )
            },
            None => None,
        }
    }

    fn header(&self) -> (header: &SdtHeader) {
        &self.header
    }
}

impl<'a> MadtEntryIter<'a> {
    /// The bytes of the table that is walked.
    pub closed spec fn table(&self) -> Seq<u8> {
        self.table@
    }

    /// The offset of the next byte to look at.
    pub closed spec fn offset(&self) -> int {
        self.offset as int
    }

    /// The number of bytes between the walk and the end of the table.
    /// After a walk has stopped, this is zero exactly if it stopped at the
    /// end of the table and not at a malformed entry.
    pub fn remaining_length(&self) -> (remaining: usize)
        ensures
            remaining == if self.offset() <= self.table().len() {
                self.table().len() - self.offset()
            } else {
                0
            },
    {
        if self.offset <= self.table.len() {
            self.table.len() - self.offset
        } else {
            0
        }
    }

    /// The entries that are still to come.
    pub open spec fn view(&self) -> Seq<MadtEntry> {
        madt_entries(self.table(), self.offset())
    }

    /// Yields the next entry of a decoded type and moves behind it.
    /// Entries of other types are passed over. At an entry that is not well
    /// formed, and at the end of the table, the walk stops for good: it
    /// yields nothing and stays where it is.
    pub fn next(&mut self) -> (entry: Option<MadtEntry>)
        ensures
            final(self).table() == old(self).table(),
            match entry {
                Some(e) => {
                    &&& old(self)@.len() > 0
                    &&& e == old(self)@[0]
                    &&& final(self)@ == old(self)@.drop_first()
                    &&& old(self).offset() < final(self).offset() <= old(self).table().len()
                },
                None => {
                    &&& old(self)@.len() == 0
                    &&& final(self)@.len() == 0
                    &&& final(self).offset() == walk_end(
                        old(self).table(),
                        old(self).offset(),
                        EntryFormat::InterruptController,
                    )
                },
            },
    {
        loop
            invariant
                self.table == old(self).table,
                old(self).offset <= self.offset,
                madt_entries(self.table@, self.offset as int) == old(self)@,
                walk_end(self.table@, self.offset as int, EntryFormat::InterruptController)
                    == walk_end(
                    old(self).table@,
                    old(self).offset as int,
                    EntryFormat::InterruptController,
                ),
            decreases self.table.len() - self.offset,
        {
            let at = self.offset;
            match next_entry(self.table, at, EntryFormat::InterruptController) {
                None => {
                    return None;
                },
                Some((typ, length)) => {
                    self.offset = at + length;
                    let found = if typ == 0 {
                        Some(MadtEntry::LocalApic(LocalApicEntry::read(self.table, at)))
                    } else if typ == 1 {
                        Some(MadtEntry::IoApic(IoApicEntry::read(self.table, at)))
                    } else if typ == 5 {
                        Some(
                            MadtEntry::LocalApicAddressOverride(
                                LocalApicAddressOverrideEntry::read(self.table, at),
                            ),
                        )
                    } else if typ == 9 {
                        Some(MadtEntry::LocalX2Apic(LocalX2ApicEntry::read(self.table, at)))
                    } else if typ == 0x10 {
                        Some(
                            MadtEntry::MultiprocessorWakeup(
                                MultiprocessorWakeupEntry::read(self.table, at),
                            ),
                        )
                    } else {
                        None
                    };
                    assert(found == MadtEntry::decoded(self.table@, at as int));
                    if found.is_some() {
                        proof {
                            let rest = madt_entries(self.table@, self.offset as int);
                            assert((seq![found.unwrap()] + rest).drop_first() =~= rest);
                        }
                        return found;
                    }
                },
            }
        }
    }
}

} // verus!
