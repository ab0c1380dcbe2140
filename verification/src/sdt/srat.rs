//! The System Resource Affinity Table: which processors and which memory
//! ranges belong to which proximity domain.

use crate::bits::{join_halves, join_u32_halves};
use crate::bytes::{le_u16, le_u32, read_u16, read_u32};
use crate::sdt::entries::{
    entry_at, lemma_malformed_entry_stops_walk, next_entry, walk_end, walk_reaches, EntryFormat,
};
use crate::sdt::{table_bytes, table_length, AcpiTable, SdtHeader, Signature};
use vstd::prelude::*;

verus! {

/// The size of the fixed part of the table: the header and twelve reserved bytes.
pub const SRAT_FIXED_SIZE: usize = 48;

/// The affinity table, as found in firmware memory. The entries are not
/// decoded up front; `entries` walks them.
#[derive(Clone, Copy, Debug)]
pub struct Srat<'a> {
    pub header: SdtHeader,
    /// The bytes of the whole table, header included, cut to the length
    /// that the header declares.
    pub table: &'a [u8],
}

/// The sub-header in front of each entry.
#[derive(Clone, Copy, Debug, PartialEq, Eq)]
pub struct EntryHeader {
    pub typ: u8,
    pub length: u16,
}

/// Flags of a processor affinity entry. Bits without a name are kept and ignored.
#[derive(Clone, Copy, Debug, PartialEq, Eq)]
pub struct LocalApicAffinityFlags {
    pub bits: u32,
}

/// Flags of a memory affinity entry. Bits without a name are kept and ignored.
#[derive(Clone, Copy, Debug, PartialEq, Eq)]
pub struct MemoryAffinityFlags {
    pub bits: u32,
}

#[derive(Clone, Copy, Debug, PartialEq, Eq)]
pub struct LocalApicAffinity {
    pub header: EntryHeader,
    pub proximity_domain_low: u8,
    pub apic_id: u8,
    pub flags: LocalApicAffinityFlags,
    pub local_sapic_eid: u8,
    pub proximity_domain_high: [u8; 3],
    pub clock_domain: u32,
}

#[derive(Clone, Copy, Debug, PartialEq, Eq)]
pub struct MemoryAffinity {
    pub header: EntryHeader,
    pub proximity_domain: u32,
    pub base_address_low: u32,
    pub base_address_high: u32,
    pub length_low: u32,
    pub length_high: u32,
    pub flags: MemoryAffinityFlags,
}

#[derive(Clone, Copy, Debug, PartialEq, Eq)]
pub struct LocalApicX2Affinity {
    pub header: EntryHeader,
    pub proximity_domain: u32,
    pub x2apic_id: u32,
    pub flags: LocalApicAffinityFlags,
    pub clock_domain: u32,
}

#[derive(Clone, Copy, Debug, PartialEq, Eq)]
pub struct GiccAffinity {
    pub header: EntryHeader,
    pub proximity_domain: u32,
    pub acpi_processor_uid: u32,
    pub flags: u32,
    pub clock_domain: u32,
}

#[derive(Clone, Copy, Debug, PartialEq, Eq)]
pub struct GicItsAffinity {
    pub header: EntryHeader,
    pub proximity_domain: u32,
    pub its_id: u32,
}

#[derive(Clone, Copy, Debug, PartialEq, Eq)]
pub struct GicInitiatorAffinity {
    pub header: EntryHeader,
    pub device_handle_type: u8,
    pub proximity_domain: u32,
    pub device_handle: [u8; 16],
    pub flags: u32,
}

/// One entry of the affinity table.
#[derive(Clone, Copy, Debug, PartialEq, Eq)]
pub enum SratEntry {
    LocalApicAffinity(LocalApicAffinity),
    MemoryAffinity(MemoryAffinity),
    LocalApicX2Affinity(LocalApicX2Affinity),
    GiccAffinity(GiccAffinity),
    GicItsAffinity(GicItsAffinity),
    GicInitiatorAffinity(GicInitiatorAffinity),
}

/// Walks the entries of an affinity table, front to back. The walk cannot
/// be rewound; `Srat::entries` starts a new one.
#[derive(Clone, Copy, Debug)]
pub struct SratEntryIter<'a> {
    table: &'a [u8],
    offset: usize,
}

impl EntryHeader {
    /// The sub-header at offset `at`.
    pub open spec fn decoded(table: Seq<u8>, at: int) -> EntryHeader {
        EntryHeader { typ: table[at], length: le_u16(table, at + 1) as u16 }
    }

    fn read(table: &[u8], at: usize) -> (header: EntryHeader)
        requires
            at + 3 <= table.len(),
        ensures
            header == Self::decoded(table@, at as int),
    {
        EntryHeader { typ: table[at], length: read_u16(table, at + 1) }
    }
}

impl LocalApicAffinityFlags {
    /// The processor may be used.
    pub const ENABLED: u32 = 1;

    /// Whether every bit of `flags` is set.
    pub fn contains(&self, flags: u32) -> (all: bool)
        ensures
            all == (self.bits & flags == flags),
    {
        self.bits & flags == flags
    }
}

impl MemoryAffinityFlags {
    /// The memory range may be used.
    pub const ENABLED: u32 = 1;

    /// The memory range can be added and removed while the system runs.
    pub const HOT_PLUGGABLE: u32 = 2;

    /// The memory range keeps its contents without power.
    pub const NON_VOLATILE: u32 = 4;

    /// Whether every bit of `flags` is set.
    pub fn contains(&self, flags: u32) -> (all: bool)
        ensures
            all == (self.bits & flags == flags),
    {
        self.bits & flags == flags
    }
}

impl LocalApicAffinity {
    /// The entry of this type at offset `at`.
    pub open spec fn decoded(table: Seq<u8>, at: int) -> LocalApicAffinity {
        LocalApicAffinity {
            header: EntryHeader::decoded(table, at),
            proximity_domain_low: table[at + 3],
            apic_id: table[at + 4],
            flags: LocalApicAffinityFlags { bits: le_u32(table, at + 5) as u32 },
            local_sapic_eid: table[at + 9],
            proximity_domain_high: [table[at + 10], table[at + 11], table[at + 12]],
            clock_domain: le_u32(table, at + 13) as u32,
        }
    }

    fn read(table: &[u8], at: usize) -> (entry: LocalApicAffinity)
        requires
            at + 17 <= table.len(),
        ensures
            entry == Self::decoded(table@, at as int),
    {
        LocalApicAffinity {
            header: EntryHeader::read(table, at),
            proximity_domain_low: table[at + 3],
            apic_id: table[at + 4],
            flags: LocalApicAffinityFlags { bits: read_u32(table, at + 5) },
            local_sapic_eid: table[at + 9],
            proximity_domain_high: [table[at + 10], table[at + 11], table[at + 12]],
            clock_domain: read_u32(table, at + 13),
        }
    }

    /// The proximity domain, which the entry stores in two pieces: the low
    /// byte first, the three high bytes further on.
    pub open spec fn proximity_domain_value(&self) -> nat {
        self.proximity_domain_low as nat + 0x100 * (self.proximity_domain_high[0] as nat) + 0x1_0000
            * (self.proximity_domain_high[1] as nat) + 0x100_0000 * (
        self.proximity_domain_high[2] as nat)
    }

    /// The proximity domain that the processor belongs to.
    pub fn proximity_domain(&self) -> (domain: u32)
        ensures
            domain == self.proximity_domain_value(),
    {
        let b0: u32 = self.proximity_domain_low as u32;
        let b1: u32 = self.proximity_domain_high[0] as u32;
        let b2: u32 = self.proximity_domain_high[1] as u32;
        let b3: u32 = self.proximity_domain_high[2] as u32;
        assert(b0 | (b1 << 8) | (b2 << 16) | (b3 << 24) == b0 + 0x100 * b1 + 0x1_0000 * b2
            + 0x100_0000 * b3) by (bit_vector)
            requires
                b0 < 0x100,
                b1 < 0x100,
                b2 < 0x100,
                b3 < 0x100,
        ;
        b0 | (b1 << 8) | (b2 << 16) | (b3 << 24)
    }
}

impl MemoryAffinity {
    /// The entry of this type at offset `at`.
    pub open spec fn decoded(table: Seq<u8>, at: int) -> MemoryAffinity {
        MemoryAffinity {
            header: EntryHeader::decoded(table, at),
            proximity_domain: le_u32(table, at + 3) as u32,
            base_address_low: le_u32(table, at + 9) as u32,
            base_address_high: le_u32(table, at + 13) as u32,
            length_low: le_u32(table, at + 17) as u32,
            length_high: le_u32(table, at + 21) as u32,
            flags: MemoryAffinityFlags { bits: le_u32(table, at + 29) as u32 },
        }
    }

    fn read(table: &[u8], at: usize) -> (entry: MemoryAffinity)
        requires
            at + 41 <= table.len(),
        ensures
            entry == Self::decoded(table@, at as int),
    {
        MemoryAffinity {
            header: EntryHeader::read(table, at),
            proximity_domain: read_u32(table, at + 3),
            base_address_low: read_u32(table, at + 9),
            base_address_high: read_u32(table, at + 13),
            length_low: read_u32(table, at + 17),
            length_high: read_u32(table, at + 21),
            flags: MemoryAffinityFlags { bits: read_u32(table, at + 29) },
        }
    }

    /// The physical address at which the memory range starts.
    pub fn base_address(&self) -> (address: u64)
        ensures
            address == join_halves(self.base_address_low, self.base_address_high),
    {
        join_u32_halves(self.base_address_low, self.base_address_high)
    }

    /// The length of the memory range in bytes, from the entry's own two
    /// length fields.
    pub fn length(&self) -> (length: u64)
        ensures
            length == join_halves(self.length_low, self.length_high),
    {
        join_u32_halves(self.length_low, self.length_high)
    }
}

impl LocalApicX2Affinity {
    /// The entry of this type at offset `at`.
    pub open spec fn decoded(table: Seq<u8>, at: int) -> LocalApicX2Affinity {
        LocalApicX2Affinity {
            header: EntryHeader::decoded(table, at),
            proximity_domain: le_u32(table, at + 5) as u32,
            x2apic_id: le_u32(table, at + 9) as u32,
            flags: LocalApicAffinityFlags { bits: le_u32(table, at + 13) as u32 },
            clock_domain: le_u32(table, at + 17) as u32,
        }
    }

    fn read(table: &[u8], at: usize) -> (entry: LocalApicX2Affinity)
        requires
            at + 25 <= table.len(),
        ensures
            entry == Self::decoded(table@, at as int),
    {
        LocalApicX2Affinity {
            header: EntryHeader::read(table, at),
            proximity_domain: read_u32(table, at + 5),
            x2apic_id: read_u32(table, at + 9),
            flags: LocalApicAffinityFlags { bits: read_u32(table, at + 13) },
            clock_domain: read_u32(table, at + 17),
        }
    }
}

impl GiccAffinity {
    /// The entry of this type at offset `at`.
    pub open spec fn decoded(table: Seq<u8>, at: int) -> GiccAffinity {
        GiccAffinity {
            header: EntryHeader::decoded(table, at),
            proximity_domain: le_u32(table, at + 3) as u32,
            acpi_processor_uid: le_u32(table, at + 7) as u32,
            flags: le_u32(table, at + 11) as u32,
            clock_domain: le_u32(table, at + 15) as u32,
        }
    }

    fn read(table: &[u8], at: usize) -> (entry: GiccAffinity)
        requires
            at + 19 <= table.len(),
        ensures
            entry == Self::decoded(table@, at as int),
    {
        GiccAffinity {
            header: EntryHeader::read(table, at),
            proximity_domain: read_u32(table, at + 3),
            acpi_processor_uid: read_u32(table, at + 7),
            flags: read_u32(table, at + 11),
            clock_domain: read_u32(table, at + 15),
        }
    }
}

impl GicItsAffinity {
    /// The entry of this type at offset `at`.
    pub open spec fn decoded(table: Seq<u8>, at: int) -> GicItsAffinity {
        GicItsAffinity {
            header: EntryHeader::decoded(table, at),
            proximity_domain: le_u32(table, at + 3) as u32,
            its_id: le_u32(table, at + 9) as u32,
        }
    }

    fn read(table: &[u8], at: usize) -> (entry: GicItsAffinity)
        requires
            at + 13 <= table.len(),
        ensures
            entry == Self::decoded(table@, at as int),
    {
        GicItsAffinity {
            header: EntryHeader::read(table, at),
            proximity_domain: read_u32(table, at + 3),
            its_id: read_u32(table, at + 9),
        }
    }
}

impl GicInitiatorAffinity {
    /// The entry of this type at offset `at`.
    pub open spec fn decoded(table: Seq<u8>, at: int) -> GicInitiatorAffinity {
        GicInitiatorAffinity {
            header: EntryHeader::decoded(table, at),
            device_handle_type: table[at + 4],
            proximity_domain: le_u32(table, at + 5) as u32,
            device_handle: [
                table[at + 9],
                table[at + 10],
                table[at + 11],
                table[at + 12],
                table[at + 13],
                table[at + 14],
                table[at + 15],
                table[at + 16],
                table[at + 17],
                table[at + 18],
                table[at + 19],
                table[at + 20],
                table[at + 21],
                table[at + 22],
                table[at + 23],
                table[at + 24],
            ],
            flags: le_u32(table, at + 25) as u32,
        }
    }

    fn read(table: &[u8], at: usize) -> (entry: GicInitiatorAffinity)
        requires
            at + 33 <= table.len(),
        ensures
            entry == Self::decoded(table@, at as int),
    {
        GicInitiatorAffinity {
            header: EntryHeader::read(table, at),
            device_handle_type: table[at + 4],
            proximity_domain: read_u32(table, at + 5),
            device_handle: [
                table[at + 9],
                table[at + 10],
                table[at + 11],
                table[at + 12],
                table[at + 13],
                table[at + 14],
                table[at + 15],
                table[at + 16],
                table[at + 17],
                table[at + 18],
                table[at + 19],
                table[at + 20],
                table[at + 21],
                table[at + 22],
                table[at + 23],
                table[at + 24],
            ],
            flags: read_u32(table, at + 25),
        }
    }
}

impl SratEntry {
    /// The entry that starts at offset `at`, if its type is one that is
    /// decoded. An entry of any other type is passed over.
    pub open spec fn decoded(table: Seq<u8>, at: int) -> Option<SratEntry> {
        match table[at] {
            0 => Some(SratEntry::LocalApicAffinity(LocalApicAffinity::decoded(table, at))),
            1 => Some(SratEntry::MemoryAffinity(MemoryAffinity::decoded(table, at))),
            2 => Some(SratEntry::LocalApicX2Affinity(LocalApicX2Affinity::decoded(table, at))),
            3 => Some(SratEntry::GiccAffinity(GiccAffinity::decoded(table, at))),
            4 => Some(SratEntry::GicItsAffinity(GicItsAffinity::decoded(table, at))),
            5 => Some(SratEntry::GicInitiatorAffinity(GicInitiatorAffinity::decoded(table, at))),
            _ => None,
        }
    }
}

/// The entries that a walk from offset `at` yields, in the order of the
/// table: every well-formed entry of a decoded type, up to the end of the
/// table or to the first entry that is not well formed.
pub open spec fn srat_entries(table: Seq<u8>, at: int) -> Seq<SratEntry>
    decreases table.len() - at,
{
    if entry_at(table, at, EntryFormat::Affinity) {
        let rest = srat_entries(
            table,
            at + EntryFormat::Affinity.declared_length(table, at),
        );
        match SratEntry::decoded(table, at) {
            Some(entry) => seq![entry] + rest,
            None => rest,
        }
    } else {
        Seq::empty()
    }
}

impl<'a> Srat<'a> {
    /// All entries of the table, in its order.
    pub open spec fn all_entries(&self) -> Seq<SratEntry> {
        srat_entries(self.table@, SRAT_FIXED_SIZE as int)
    }

    /// Starts a walk over the entries, at the first byte behind the fixed part.
    pub fn entries(&self) -> (iter: SratEntryIter<'a>)
        ensures
            iter.table() == self.table@,
            iter.offset() == SRAT_FIXED_SIZE,
            iter@ == self.all_entries(),
    {
        SratEntryIter { table: self.table, offset: SRAT_FIXED_SIZE }
    }
}

impl<'a> AcpiTable<'a> for Srat<'a> {
    open spec fn table_signature() -> Signature {
        Signature::SRAT
    }

    open spec fn fixed_size() -> nat {
        SRAT_FIXED_SIZE as nat
    }

    open spec fn decodes(&self, region: Seq<u8>) -> bool {
        self.header == SdtHeader::decoded(region) && self.table@ == table_bytes(region)
    }

    open spec fn table_header(&self) -> SdtHeader {
        self.header
    }

    fn signature() -> (signature: Signature) {
        Signature::SRAT
    }

    fn from_bytes(region: &'a [u8]) -> (table: Option<Self>) {
        match table_length(region, Signature::SRAT, SRAT_FIXED_SIZE) {
            Some(length) => {
                let header = SdtHeader::from_bytes(region).unwrap();
                Some(Srat { header, table: vstd::slice::slice_subrange(region, 0, length) })
            },
            None => None,
        }
    }

    fn header(&self) -> (header: &SdtHeader) {
        &self.header
    }
}

impl<'a> SratEntryIter<'a> {
    /// The bytes of the table that is walked.
    pub closed spec fn table(&self) -> Seq<u8> {
        self.table@
    }

    /// The offset of the next byte to look at.
    pub closed spec fn offset(&self) -> int {
        self.offset as int
    }

    /// The number of bytes between the walk and the end of the table.
    /// After a walk has stopped, this is zero exactly if it stopped at the
    /// end of the table and not at a malformed entry.
    pub fn remaining_length(&self) -> (remaining: usize)
        ensures
            remaining == if self.offset() <= self.table().len() {
                self.table().len() - self.offset()
            } else {
                0
            },
    {
        if self.offset <= self.table.len() {
            self.table.len() - self.offset
        } else {
            0
        }
    }

    /// The entries that are still to come.
    pub open spec fn view(&self) -> Seq<SratEntry> {
        srat_entries(self.table(), self.offset())
    }

    /// Yields the next entry of a decoded type and moves behind it.
    /// Entries of other types are passed over. At an entry that is not well
    /// formed, and at the end of the table, the walk stops for good: it
    /// yields nothing and stays where it is.
    pub fn next(&mut self) -> (entry: Option<SratEntry>)
        ensures
            final(self).table() == old(self).table(),
            match entry {
                Some(e) => {
                    &&& old(self)@.len() > 0
                    &&& e == old(self)@[0]
                    &&& final(self)@ == old(self)@.drop_first()
                    &&& old(self).offset() < final(self).offset() <= old(self).table().len()
                },
                None => {
                    &&& old(self)@.len() == 0
                    &&& final(self)@.len() == 0
                    &&& final(self).offset() == walk_end(
                        old(self).table(),
                        old(self).offset(),
                        EntryFormat::Affinity,
                    )
                },
            },
    {
        loop
            invariant
                self.table == old(self).table,
                old(self).offset <= self.offset,
                srat_entries(self.table@, self.offset as int) == old(self)@,
                walk_end(self.table@, self.offset as int, EntryFormat::Affinity) == walk_end(
                    old(self).table@,
                    old(self).offset as int,
                    EntryFormat::Affinity,
                ),
            decreases self.table.len() - self.offset,
        {
            let at = self.offset;
            match next_entry(self.table, at, EntryFormat::Affinity) {
                None => {
                    return None;
                },
                Some((typ, length)) => {
                    self.offset = at + length;
                    let found = if typ == 0 {
                        Some(SratEntry::LocalApicAffinity(LocalApicAffinity::read(self.table, at)))
                    } else if typ == 1 {
                        Some(SratEntry::MemoryAffinity(MemoryAffinity::read(self.table, at)))
                    } else if typ == 2 {
                        Some(
                            SratEntry::LocalApicX2Affinity(
                                LocalApicX2Affinity::read(self.table, at),
                            ),
                        )
                    } else if typ == 3 {
                        Some(SratEntry::GiccAffinity(GiccAffinity::read(self.table, at)))
                    } else if typ == 4 {
                        Some(SratEntry::GicItsAffinity(GicItsAffinity::read(self.table, at)))
                    } else if typ == 5 {
                        Some(
                            SratEntry::GicInitiatorAffinity(
                                GicInitiatorAffinity::read(self.table, at),
                            ),
                        )
                    } else {
                        None
                    };
                    assert(found == SratEntry::decoded(self.table@, at as int));
                    if found.is_some() {
                        proof {
                            let rest = srat_entries(self.table@, self.offset as int);
                            assert((seq![found.unwrap()] + rest).drop_first() =~= rest);
                        }
                        return found;
                    }
                },
            }
        }
    }
}

/// Whether two tables hold the same bytes from `from` up to `to`.
pub open spec fn same_bytes(first: Seq<u8>, second: Seq<u8>, from: int, to: int) -> bool {
    forall|i: int| from <= i < to ==> first[i] == second[i]
}

/// What an entry decodes to depends on the bytes of that entry alone.
pub proof fn lemma_entry_is_decoded_from_its_own_bytes(first: Seq<u8>, second: Seq<u8>, at: int)
    requires
        entry_at(first, at, EntryFormat::Affinity),
        entry_at(second, at, EntryFormat::Affinity),
        same_bytes(first, second, at, at + EntryFormat::Affinity.declared_length(first, at)),
    ensures
        SratEntry::decoded(first, at) == SratEntry::decoded(second, at),
{
    assert(first[at] == second[at]);
    assert(first[at + 1] == second[at + 1]);
    assert(first[at + 2] == second[at + 2]);
    assert(EntryHeader::decoded(first, at) == EntryHeader::decoded(second, at));
    let typ = first[at];
    if typ == 0 {
        assert(LocalApicAffinity::decoded(first, at) == LocalApicAffinity::decoded(second, at));
    } else if typ == 1 {
        assert(MemoryAffinity::decoded(first, at) == MemoryAffinity::decoded(second, at));
    } else if typ == 2 {
        assert(LocalApicX2Affinity::decoded(first, at) == LocalApicX2Affinity::decoded(second, at));
    } else if typ == 3 {
        assert(GiccAffinity::decoded(first, at) == GiccAffinity::decoded(second, at));
    } else if typ == 4 {
        assert(GicItsAffinity::decoded(first, at) == GicItsAffinity::decoded(second, at));
    } else if typ == 5 {
        assert(GicInitiatorAffinity::decoded(first, at) == GicInitiatorAffinity::decoded(
            second,
            at,
        ));
    }
}

/// A malformed entry ends the walk, and no entry is yielded from it on:
/// the entries of the table are those of the table cut off at the
/// malformed entry, so nothing at or behind it has any part in them.
pub proof fn lemma_no_entries_from_malformed_entry_on(table: Seq<u8>, at: int, bad: int)
    requires
        0 <= at <= table.len(),
        !entry_at(table, bad, EntryFormat::Affinity),
        walk_reaches(table, at, EntryFormat::Affinity, bad),
    ensures
        at <= bad <= table.len(),
        srat_entries(table, bad) == Seq::<SratEntry>::empty(),
        srat_entries(table, at) == srat_entries(table.subrange(0, bad), at),
        walk_end(table, at, EntryFormat::Affinity) == bad,
    decreases table.len() - at,
{
    let format = EntryFormat::Affinity;
    lemma_malformed_entry_stops_walk(table, at, format, bad);
    let cut = table.subrange(0, bad);
    if at != bad {
        let next = at + format.declared_length(table, at);
        lemma_malformed_entry_stops_walk(table, next, format, bad);
        lemma_no_entries_from_malformed_entry_on(table, next, bad);
        assert(cut[at] == table[at]);
        assert(cut[at + 1] == table[at + 1]);
        assert(cut[at + 2] == table[at + 2]);
        assert(entry_at(cut, at, format));
        lemma_entry_is_decoded_from_its_own_bytes(table, cut, at);
    }
}

} // verus!
