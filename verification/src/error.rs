//! What can go wrong when a table is committed to guest memory.

use vm_memory::GuestMemoryError;
use vstd::prelude::*;
use vstd::std_specs::convert::FromSpecImpl;

verus! {

/// `vm_memory::GuestMemoryError`: the failure that the guest memory reports
/// for an access it refuses. Nothing of its inside is known here: a value
/// is only carried to the caller.
#[verifier::external_type_specification]
#[verifier::external_body]
pub struct ExGuestMemoryError(vm_memory::GuestMemoryError);

/// The errors of committing a table to guest memory.
#[derive(Debug)]
pub enum AcpiError {
    /// The guest memory refused the write; the cause is inside.
    GuestMemory(GuestMemoryError),
    /// The target address cannot hold what was to be written there.
    InvalidGuestAddress,
    /// A register size that cannot be honoured.
    InvalidRegisterSize,
}

impl From<GuestMemoryError> for AcpiError {
    fn from(cause: GuestMemoryError) -> (error: AcpiError) {
        AcpiError::GuestMemory(cause)
    }
}

impl FromSpecImpl<GuestMemoryError> for AcpiError {
    open spec fn obeys_from_spec() -> bool {
        true
    }

    open spec fn from_spec(cause: GuestMemoryError) -> AcpiError {
        AcpiError::GuestMemory(cause)
    }
}

} // verus!
