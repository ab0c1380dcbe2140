//! Parsing and interpretation of firmware-provided ACPI system description tables.
//!
//! Firmware data is untrusted: every table is decoded from raw bytes by
//! explicit reads at fixed offsets, and every length that firmware declares
//! is checked against the bytes that are really there.

pub mod address;
pub mod aml;
pub mod bits;
pub mod bytes;
pub mod error;
pub mod platform;
pub mod sdt;
pub mod tables;

pub use error::{AcpiError, MadtError};
pub use sdt::fadt::PowerProfile;
pub use tables::AcpiTables;
