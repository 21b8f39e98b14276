//! Byte-exact building blocks for ACPI system descriptor tables: the table
//! checksum, the Generic Address Structure, the common table header, the
//! error taxonomy and the contract every table type fulfils.
//!
//! Everything here computes on plain values. Guest memory is the caller's:
//! a table says which bytes go where, the caller writes them.

pub mod checksum;
pub mod endian;
pub mod error;
pub mod gas;
pub mod header;
pub mod table;

pub use crate::checksum::checksum;
pub use crate::error::AcpiError;
pub use crate::gas::GenericAddressStructure;
pub use crate::header::SdtHeader;
pub use crate::table::{GuestWrite, Sdt, Table};
