//! The table that describes the High Precision Event Timer.

use crate::address::RawGenericAddress;
use crate::bits::{bit_of_u32, bit_range_u32, bit_range_u8, get_bit_u32, get_bits_u32, get_bits_u8};
use crate::bytes::{le_u16, le_u32, read_u16, read_u32};
use crate::error::AcpiError;
use crate::sdt::{table_length, AcpiTable, SdtHeader, Signature};
use crate::tables::AcpiTables;
use vstd::prelude::*;

verus! {

/// The size of the table: all of its fields are fixed.
pub const HPET_TABLE_SIZE: usize = 56;

/// How far around the timer's registers an access is guaranteed not to fault.
#[derive(Clone, Copy, Debug, PartialEq, Eq, Structural)]
pub enum PageProtection {
    /// Nothing is guaranteed.
    NoProtection,
    /// Access to the rest of the 4KiB, relative to the base address, will not generate a fault.
    Protected4K,
    /// Access to the rest of the 64KiB, relative to the base address, will not generate a fault.
    Protected64K,
    Other,
}

/// Information about the High Precision Event Timer (HPET)
#[derive(Clone, Copy, Debug, PartialEq, Eq, Structural)]
pub struct HpetInfo {
    pub hardware_rev: u8,
    pub num_comparators: u8,
    pub main_counter_is_64bits: bool,
    pub legacy_irq_capable: bool,
    pub pci_vendor_id: u16,
    pub base_address: usize,
    pub hpet_number: u8,
    /// The minimum number of clock ticks that can be set without losing interrupts (for timers in Periodic Mode)
    pub clock_tick_unit: u16,
    pub page_protection: PageProtection,
}

/// The timer table, as found in firmware memory.
#[derive(Clone, Copy, Debug)]
pub struct HpetTable {
    pub header: SdtHeader,
    pub event_timer_block_id: u32,
    pub base_address: RawGenericAddress,
    pub hpet_number: u8,
    pub clock_tick_unit: u16,
    /// Bits `0..4` specify the page protection guarantee. Bits `4..8` are reserved for OEM attributes.
    pub page_protection_and_oem: u8,
}

impl PageProtection {
    /// The guarantee that a four-bit code stands for. Codes without a
    /// name of their own all mean `Other`.
    pub open spec fn decoded(code: u8) -> PageProtection {
        if code == 0 {
            PageProtection::NoProtection
        } else if code == 1 {
            PageProtection::Protected4K
        } else if code == 2 {
            PageProtection::Protected64K
        } else {
            PageProtection::Other
        }
    }

    /// Classifies a page protection code. Every code has a meaning.
    pub fn from_code(code: u8) -> (protection: PageProtection)
        ensures
            protection == Self::decoded(code),
            code == 0 ==> protection == PageProtection::NoProtection,
            code == 1 ==> protection == PageProtection::Protected4K,
            code == 2 ==> protection == PageProtection::Protected64K,
            code >= 3 ==> protection == PageProtection::Other,
    {
        if code == 0 {
            PageProtection::NoProtection
        } else if code == 1 {
            PageProtection::Protected4K
        } else if code == 2 {
            PageProtection::Protected64K
        } else {
            PageProtection::Other
        }
    }
}

impl HpetTable {
    /// The table that the first 56 bytes of `region` encode.
    pub open spec fn decoded(region: Seq<u8>) -> HpetTable {
        HpetTable {
            header: SdtHeader::decoded(region),
            event_timer_block_id: le_u32(region, 36) as u32,
            base_address: RawGenericAddress::decoded(region, 40),
            hpet_number: region[52],
            clock_tick_unit: le_u16(region, 53) as u16,
            page_protection_and_oem: region[55],
        }
    }

    /// Whether the timer's registers are reported to lie in system memory,
    /// as they should.
    pub fn in_system_memory(&self) -> (in_memory: bool)
        ensures
            in_memory == (self.base_address.address_space == 0),
    {
        self.base_address.address_space == 0
    }
}

impl<'a> AcpiTable<'a> for HpetTable {
    open spec fn table_signature() -> Signature {
        Signature::HPET
    }

    open spec fn fixed_size() -> nat {
        HPET_TABLE_SIZE as nat
    }

    open spec fn decodes(&self, region: Seq<u8>) -> bool {
        *self == HpetTable::decoded(region)
    }

    open spec fn table_header(&self) -> SdtHeader {
        self.header
    }

    fn signature() -> (signature: Signature) {
        Signature::HPET
    }

    fn from_bytes(region: &'a [u8]) -> (table: Option<Self>) {
        match table_length(region, Signature::HPET, HPET_TABLE_SIZE) {
            Some(_) => {
                let header = SdtHeader::from_bytes(region).unwrap();
                Some(
                    HpetTable {
                        header,
                        event_timer_block_id: read_u32(region, 36),
                        base_address: RawGenericAddress::read(region, 40),
                        hpet_number: region[52],
                        clock_tick_unit: read_u16(region, 53),
                        page_protection_and_oem: region[55],
                    },
                )
            },
            None => None,
        }
    }

    fn header(&self) -> (header: &SdtHeader) {
        &self.header
    }
}

impl HpetInfo {
    /// What a timer table says about the timer. The hardware revision, the
    /// number of comparators, the counter width, the legacy interrupt
    /// capability and the vendor all come out of the one 32-bit block
    /// identifier; the page protection comes out of the low four bits of
    /// its byte.
    pub open spec fn described_by(hpet: HpetTable) -> HpetInfo {
        let id = hpet.event_timer_block_id;
        HpetInfo {
            hardware_rev: (id & 0xff) as u8,
            num_comparators: ((id >> 8) & 0x1f) as u8,
            main_counter_is_64bits: (id >> 13) & 1 == 1,
            legacy_irq_capable: (id >> 15) & 1 == 1,
            pci_vendor_id: (id >> 16) as u16,
            base_address: hpet.base_address.address as usize,
            hpet_number: hpet.hpet_number,
            clock_tick_unit: hpet.clock_tick_unit,
            page_protection: PageProtection::decoded(hpet.page_protection_and_oem & 0xf),
        }
    }

    /// Interprets a timer table.
    pub fn from_table(hpet: &HpetTable) -> (info: HpetInfo)
        ensures
            info == Self::described_by(*hpet),
    {
        let id = hpet.event_timer_block_id;
        let revision: u32 = get_bits_u32(id, 0, 8);
        let comparators: u32 = get_bits_u32(id, 8, 13);
        let vendor: u32 = get_bits_u32(id, 16, 32);
        let protection: u8 = get_bits_u8(hpet.page_protection_and_oem, 0, 4);
        let counter_is_wide = get_bit_u32(id, 13);
        let legacy_capable = get_bit_u32(id, 15);
        proof {
            let code = hpet.page_protection_and_oem;
            assert(bit_range_u32(id, 0, 8) == id & 0xff && id & 0xff < 0x100) by (bit_vector);
            assert(bit_range_u32(id, 8, 13) == (id >> 8) & 0x1f && (id >> 8) & 0x1f < 0x100)
                by (bit_vector);
            assert(bit_range_u32(id, 16, 32) == id >> 16 && id >> 16 < 0x1_0000) by (bit_vector);
            assert(bit_of_u32(id, 13) == ((id >> 13) & 1 == 1)) by (bit_vector);
            assert(bit_of_u32(id, 15) == ((id >> 15) & 1 == 1)) by (bit_vector);
            assert(bit_range_u8(code, 0, 4) == code & 0xf) by (bit_vector);
        }
        HpetInfo {
            hardware_rev: revision as u8,
            num_comparators: comparators as u8,
            main_counter_is_64bits: counter_is_wide,
            legacy_irq_capable: legacy_capable,
            pci_vendor_id: vendor as u16,
            base_address: #[verifier::truncate]
            (hpet.base_address.address as usize),
            hpet_number: hpet.hpet_number,
            clock_tick_unit: hpet.clock_tick_unit,
            page_protection: PageProtection::from_code(protection),
        }
    }

    /// Looks up the timer table and interprets it. Without the table
    /// there is nothing to report, which is an error.
    pub fn new(tables: &AcpiTables) -> (info: Result<HpetInfo, AcpiError>)
        ensures
            info == match tables.region_of(Signature::HPET, HPET_TABLE_SIZE as nat) {
                Some(region) => Ok(Self::described_by(HpetTable::decoded(region))),
                None => Err(AcpiError::TableNotFound(Signature::HPET)),
            },
    {
        match tables.find_table::<HpetTable>() {
            Some(hpet) => Ok(Self::from_table(&hpet)),
            None => Err(AcpiError::TableNotFound(Signature::HPET)),
        }
    }
}

} // verus!
