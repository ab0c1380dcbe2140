//! Generic addresses: where a register block lives, and how it is accessed.

use crate::bytes::{le_u64, read_u64};
use crate::error::AcpiError;
use vstd::prelude::*;

verus! {

/// The size in bytes of a generic address in a table.
pub const GENERIC_ADDRESS_SIZE: usize = 12;

/// A generic address as it lies in a table, with nothing interpreted.
#[derive(Clone, Copy, Debug, PartialEq, Eq, Structural)]
pub struct RawGenericAddress {
    pub address_space: u8,
    pub bit_width: u8,
    pub bit_offset: u8,
    pub access_size: u8,
    pub address: u64,
}

#[derive(Clone, Copy, Debug, PartialEq, Eq, Structural)]
pub enum AddressSpace {
    SystemMemory,
    SystemIo,
    PciConfigSpace,
    EmbeddedController,
    SMBus,
    SystemCmos,
    PciBarTarget,
    Ipmi,
    GeneralIo,
    GenericSerialBus,
    PlatformCommunicationsChannel,
    FunctionalFixedHardware,
    OemDefined(u8),
}

#[derive(Clone, Copy, Debug, PartialEq, Eq, Structural)]
pub enum AccessSize {
    Undefined,
    ByteAccess,
    WordAccess,
    DWordAccess,
    QWordAccess,
}

/// A generic address with its address space and access size interpreted.
#[derive(Clone, Copy, Debug, PartialEq, Eq, Structural)]
pub struct GenericAddress {
    pub address_space: AddressSpace,
    pub bit_width: u8,
    pub bit_offset: u8,
    pub access_size: AccessSize,
    pub address: u64,
}

impl RawGenericAddress {
    /// The generic address that the twelve bytes from offset `at` encode.
    pub open spec fn decoded(bytes: Seq<u8>, at: int) -> RawGenericAddress {
        RawGenericAddress {
            address_space: bytes[at],
            bit_width: bytes[at + 1],
            bit_offset: bytes[at + 2],
            access_size: bytes[at + 3],
            address: le_u64(bytes, at + 4) as u64,
        }
    }

    /// Reads the generic address at offset `at`.
    pub fn read(bytes: &[u8], at: usize) -> (raw: RawGenericAddress)
        requires
            at + GENERIC_ADDRESS_SIZE <= bytes.len(),
        ensures
            raw == Self::decoded(bytes@, at as int),
    {
        RawGenericAddress {
            address_space: bytes[at],
            bit_width: bytes[at + 1],
            bit_offset: bytes[at + 2],
            access_size: bytes[at + 3],
            address: read_u64(bytes, at + 4),
        }
    }
}

impl AddressSpace {
    /// The address space that a code stands for, if the code is defined.
    pub open spec fn decoded(code: u8) -> Option<AddressSpace> {
        if code == 0x00 {
            Some(AddressSpace::SystemMemory)
        } else if code == 0x01 {
            Some(AddressSpace::SystemIo)
        } else if code == 0x02 {
            Some(AddressSpace::PciConfigSpace)
        } else if code == 0x03 {
            Some(AddressSpace::EmbeddedController)
        } else if code == 0x04 {
            Some(AddressSpace::SMBus)
        } else if code == 0x05 {
            Some(AddressSpace::SystemCmos)
        } else if code == 0x06 {
            Some(AddressSpace::PciBarTarget)
        } else if code == 0x07 {
            Some(AddressSpace::Ipmi)
        } else if code == 0x08 {
            Some(AddressSpace::GeneralIo)
        } else if code == 0x09 {
            Some(AddressSpace::GenericSerialBus)
        } else if code == 0x0a {
            Some(AddressSpace::PlatformCommunicationsChannel)
        } else if code == 0x7f {
            Some(AddressSpace::FunctionalFixedHardware)
        } else if code >= 0xc0 {
            Some(AddressSpace::OemDefined(code))
        } else {
            None
        }
    }

    pub fn from_code(code: u8) -> (space: Option<AddressSpace>)
        ensures
            space == Self::decoded(code),
    {
        if code == 0x00 {
            Some(AddressSpace::SystemMemory)
        } else if code == 0x01 {
            Some(AddressSpace::SystemIo)
        } else if code == 0x02 {
            Some(AddressSpace::PciConfigSpace)
        } else if code == 0x03 {
            Some(AddressSpace::EmbeddedController)
        } else if code == 0x04 {
            Some(AddressSpace::SMBus)
        } else if code == 0x05 {
            Some(AddressSpace::SystemCmos)
        } else if code == 0x06 {
            Some(AddressSpace::PciBarTarget)
        } else if code == 0x07 {
            Some(AddressSpace::Ipmi)
        } else if code == 0x08 {
            Some(AddressSpace::GeneralIo)
        } else if code == 0x09 {
            Some(AddressSpace::GenericSerialBus)
        } else if code == 0x0a {
            Some(AddressSpace::PlatformCommunicationsChannel)
        } else if code == 0x7f {
            Some(AddressSpace::FunctionalFixedHardware)
        } else if code >= 0xc0 {
            Some(AddressSpace::OemDefined(code))
        } else {
            None
        }
    }
}

impl AccessSize {
    /// The access size that a code stands for, if the code is defined.
    pub open spec fn decoded(code: u8) -> Option<AccessSize> {
        if code == 0 {
            Some(AccessSize::Undefined)
        } else if code == 1 {
            Some(AccessSize::ByteAccess)
        } else if code == 2 {
            Some(AccessSize::WordAccess)
        } else if code == 3 {
            Some(AccessSize::DWordAccess)
        } else if code == 4 {
            Some(AccessSize::QWordAccess)
        } else {
            None
        }
    }

    pub fn from_code(code: u8) -> (size: Option<AccessSize>)
        ensures
            size == Self::decoded(code),
    {
        if code == 0 {
            Some(AccessSize::Undefined)
        } else if code == 1 {
            Some(AccessSize::ByteAccess)
        } else if code == 2 {
            Some(AccessSize::WordAccess)
        } else if code == 3 {
            Some(AccessSize::DWordAccess)
        } else if code == 4 {
            Some(AccessSize::QWordAccess)
        } else {
            None
        }
    }
}

impl GenericAddress {
    /// What a raw generic address means, if both of its codes are defined.
    pub open spec fn interpreted(raw: RawGenericAddress) -> Option<GenericAddress> {
        match (AddressSpace::decoded(raw.address_space), AccessSize::decoded(raw.access_size)) {
            (Some(address_space), Some(access_size)) => Some(
                GenericAddress {
                    address_space,
                    bit_width: raw.bit_width,
                    bit_offset: raw.bit_offset,
                    access_size,
                    address: raw.address,
                },
            ),
            _ => None,
        }
    }

    /// Interprets a raw generic address. An address space or an access size
    /// that is not defined is an error.
    pub fn from_raw(raw: RawGenericAddress) -> (address: Result<GenericAddress, AcpiError>)
        ensures
            match address {
                Ok(a) => Self::interpreted(raw) == Some(a),
                Err(e) => Self::interpreted(raw) is None && e == AcpiError::InvalidGenericAddress,
            },
    {
        let address_space = match AddressSpace::from_code(raw.address_space) {
            Some(space) => space,
            None => {
                return Err(AcpiError::InvalidGenericAddress);
            },
        };
        let access_size = match AccessSize::from_code(raw.access_size) {
            Some(size) => size,
            None => {
                return Err(AcpiError::InvalidGenericAddress);
            },
        };
        Ok(
            GenericAddress {
                address_space,
                bit_width: raw.bit_width,
                bit_offset: raw.bit_offset,
                access_size,
                address: raw.address,
            },
        )
    }
}

} // verus!
