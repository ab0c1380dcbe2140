//! Values of the ACPI Machine Language, as far as this library holds them.

pub mod object;
