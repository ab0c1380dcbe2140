//! The Fixed ACPI Description Table: the platform's power profile and the
//! fixed hardware register blocks. Only the fields that this library
//! interprets are decoded.

use crate::address::{AccessSize, AddressSpace, GenericAddress, RawGenericAddress};
use crate::bits::{bit_of_u32, get_bit_u32};
use crate::bytes::{le_u32, read_u32};
use crate::error::AcpiError;
use crate::sdt::{declared_length, table_length, AcpiTable, SdtHeader, Signature};
use vstd::prelude::*;

verus! {

/// The least size of the table: that of its first revision, which ends
/// with the fixed feature flags.
pub const FADT_FIXED_SIZE: usize = 116;

/// The size that the table must declare for it to hold the extended
/// address of the power management timer.
pub const FADT_EXTENDED_TIMER_END: usize = 220;

/// The first revision of the table that has the extended addresses.
pub const FADT_EXTENDED_REVISION: u8 = 2;

/// The kind of machine that firmware says this is, for the sake of power management.
#[derive(Clone, Copy, Debug, PartialEq, Eq, Structural)]
pub enum PowerProfile {
    Unspecified,
    Desktop,
    Mobile,
    Workstation,
    EnterpriseServer,
    SohoServer,
    AppliancePc,
    PerformanceServer,
    Tablet,
    Reserved(u8),
}

/// The fixed description table, as far as it is interpreted.
#[derive(Clone, Copy, Debug)]
pub struct Fadt {
    pub header: SdtHeader,
    pub preferred_pm_profile: u8,
    /// The 32-bit port address of the power management timer; zero if there is none.
    pub pm_timer_block: u32,
    pub flags: u32,
    /// The extended address of the power management timer. Tables of the
    /// first revision, and tables too short for it, have none.
    pub x_pm_timer_block: Option<RawGenericAddress>,
}

impl PowerProfile {
    /// The profile that a code stands for.
    pub open spec fn decoded(code: u8) -> PowerProfile {
        if code == 0 {
            PowerProfile::Unspecified
        } else if code == 1 {
            PowerProfile::Desktop
        } else if code == 2 {
            PowerProfile::Mobile
        } else if code == 3 {
            PowerProfile::Workstation
        } else if code == 4 {
            PowerProfile::EnterpriseServer
        } else if code == 5 {
            PowerProfile::SohoServer
        } else if code == 6 {
            PowerProfile::AppliancePc
        } else if code == 7 {
            PowerProfile::PerformanceServer
        } else if code == 8 {
            PowerProfile::Tablet
        } else {
            PowerProfile::Reserved(code)
        }
    }
}

impl Fadt {
    /// Whether the table at the start of `region` has the extended address
    /// of the power management timer.
    pub open spec fn has_extended_timer(region: Seq<u8>) -> bool {
        region[8] >= FADT_EXTENDED_REVISION && declared_length(region) >= FADT_EXTENDED_TIMER_END
    }

    /// The table that `region` encodes.
    pub open spec fn decoded(region: Seq<u8>) -> Fadt {
        Fadt {
            header: SdtHeader::decoded(region),
            preferred_pm_profile: region[45],
            pm_timer_block: le_u32(region, 76) as u32,
            flags: le_u32(region, 112) as u32,
            x_pm_timer_block: if Self::has_extended_timer(region) {
                Some(RawGenericAddress::decoded(region, 208))
            } else {
                None
            },
        }
    }

    /// The power profile that firmware prefers.
    pub fn power_profile(&self) -> (profile: PowerProfile)
        ensures
            profile == PowerProfile::decoded(self.preferred_pm_profile),
    {
        let code = self.preferred_pm_profile;
        if code == 0 {
            PowerProfile::Unspecified
        } else if code == 1 {
            PowerProfile::Desktop
        } else if code == 2 {
            PowerProfile::Mobile
        } else if code == 3 {
            PowerProfile::Workstation
        } else if code == 4 {
            PowerProfile::EnterpriseServer
        } else if code == 5 {
            PowerProfile::SohoServer
        } else if code == 6 {
            PowerProfile::AppliancePc
        } else if code == 7 {
            PowerProfile::PerformanceServer
        } else if code == 8 {
            PowerProfile::Tablet
        } else {
            PowerProfile::Reserved(code)
        }
    }

    /// The 32-bit port address of the timer, as a generic address.
    pub open spec fn legacy_timer_address(&self) -> GenericAddress {
        GenericAddress {
            address_space: AddressSpace::SystemIo,
            bit_width: 0,
            bit_offset: 0,
            access_size: AccessSize::Undefined,
            address: self.pm_timer_block as u64,
        }
    }

    /// Where the register block of the power management timer is. The
    /// extended address counts if it is there and not zero; else the
    /// 32-bit address counts if it is not zero; else there is no timer.
    pub open spec fn timer_block(&self) -> Result<Option<GenericAddress>, AcpiError> {
        if self.x_pm_timer_block is Some && self.x_pm_timer_block->0.address != 0 {
            match GenericAddress::interpreted(self.x_pm_timer_block->0) {
                Some(address) => Ok(Some(address)),
                None => Err(AcpiError::InvalidGenericAddress),
            }
        } else if self.pm_timer_block != 0 {
            Ok(Some(self.legacy_timer_address()))
        } else {
            Ok(None)
        }
    }

    /// The register block of the power management timer, if the platform has one.
    pub fn pm_timer_block(&self) -> (block: Result<Option<GenericAddress>, AcpiError>)
        ensures
            block == self.timer_block(),
    {
        match self.x_pm_timer_block {
            Some(raw) => {
                if raw.address != 0 {
                    return match GenericAddress::from_raw(raw) {
                        Ok(address) => Ok(Some(address)),
                        Err(e) => Err(e),
                    };
                }
            },
            None => {},
        }
        if self.pm_timer_block != 0 {
            Ok(
                Some(
                    GenericAddress {
                        address_space: AddressSpace::SystemIo,
                        bit_width: 0,
                        bit_offset: 0,
                        access_size: AccessSize::Undefined,
                        address: self.pm_timer_block as u64,
                    },
                ),
            )
        } else {
            Ok(None)
        }
    }

    /// Whether the power management timer counts with 32 bits. If not, it
    /// counts with 24.
    pub fn pm_timer_is_32_bit(&self) -> (wide: bool)
        ensures
            wide == ((self.flags >> 8) & 1 == 1),
    {
        let flags = self.flags;
        let wide = get_bit_u32(flags, 8);
        assert(bit_of_u32(flags, 8) == ((flags >> 8) & 1 == 1)) by (bit_vector);
        wide
    }
}

impl<'a> AcpiTable<'a> for Fadt {
    open spec fn table_signature() -> Signature {
        Signature::FADT
    }

    open spec fn fixed_size() -> nat {
        FADT_FIXED_SIZE as nat
    }

    open spec fn decodes(&self, region: Seq<u8>) -> bool {
        *self == Fadt::decoded(region)
    }

    open spec fn table_header(&self) -> SdtHeader {
        self.header
    }

    fn signature() -> (signature: Signature) {
        Signature::FADT
    }

    fn from_bytes(region: &'a [u8]) -> (table: Option<Self>) {
        match table_length(region, Signature::FADT, FADT_FIXED_SIZE) {
            Some(length) => {
                let header = SdtHeader::from_bytes(region).unwrap();
                let x_pm_timer_block = if header.revision >= FADT_EXTENDED_REVISION && length
                    >= FADT_EXTENDED_TIMER_END {
                    Some(RawGenericAddress::read(region, 208))
                } else {
                    None
                };
                Some(
                    Fadt {
                        header,
                        preferred_pm_profile: region[45],
                        pm_timer_block: read_u32(region, 76),
                        flags: read_u32(region, 112),
                        x_pm_timer_block,
                    },
                )
            },
            None => None,
        }
    }

    fn header(&self) -> (header: &SdtHeader) {
        &self.header
    }
}

} // verus!
