//! The contract between a table and whoever commits it to guest memory.
//!
//! A table never touches guest memory itself. Asked to be written at an
//! address, it answers with a [`GuestWrite`]: the bytes to place there. The
//! caller performs that one write and hands what the memory reported to
//! [`GuestWrite::finish`], which turns it into the result of the operation.
//!
//! [`Table`] is the table in its finalized state: a header and a body whose
//! bytes add up to zero, which is what it can be trusted to hand out.

use crate::checksum::{checksum_of, wrapping_sum};
use crate::error::AcpiError;
use crate::header::{SdtHeader, SDT_HEADER_LEN};
use vm_memory::GuestMemoryError;
use vstd::prelude::*;

verus! {

/// One write of guest memory: `bytes`, to be placed from the guest physical
/// address `address` on.
#[derive(Debug)]
pub struct GuestWrite {
    /// Where the first byte goes
    pub address: u64,
    /// The bytes to transfer, in order
    pub bytes: Vec<u8>,
}

/// Whether `len` bytes placed from `address` on end at an address that a
/// 64-bit number can still name.
pub open spec fn fits_address_space(address: u64, len: nat) -> bool {
    address + len <= u64::MAX
}

impl GuestWrite {
    /// Whether the write stays inside the 64-bit address space.
    pub open spec fn wf(self) -> bool {
        fits_address_space(self.address, self.bytes@.len())
    }

    /// The write of `bytes` at `address`, or the invalid-address error if
    /// the bytes would run past the end of the address space.
    pub fn new(address: u64, bytes: Vec<u8>) -> (r: Result<GuestWrite, AcpiError>)
        ensures
            fits_address_space(address, bytes@.len()) ==> r == Ok::<GuestWrite, AcpiError>(
                GuestWrite { address, bytes },
            ),
            !fits_address_space(address, bytes@.len()) ==> r == Err::<GuestWrite, AcpiError>(
                AcpiError::InvalidGuestAddress,
            ),
    {
        match address.checked_add(bytes.len() as u64) {
            Some(_) => Ok(GuestWrite { address, bytes }),
            None => Err(AcpiError::InvalidGuestAddress),
        }
    }

    /// The number of bytes that the write transfers.
    pub fn len(&self) -> (n: usize)
        ensures
            n == self.bytes@.len(),
    {
        self.bytes.len()
    }

    /// The result of the operation, given what the guest memory reported
    /// for this write: success, or the memory-access error around the cause.
    pub fn finish(self, outcome: Result<(), GuestMemoryError>) -> (r: Result<(), AcpiError>)
        ensures
            r == match outcome {
                Ok(_) => Ok::<(), AcpiError>(()),
                Err(cause) => Err::<(), AcpiError>(AcpiError::GuestMemory(cause)),
            },
    {
        match outcome {
            Ok(_) => Ok(()),
            Err(cause) => Err(AcpiError::from(cause)),
        }
    }
}

/// What every system descriptor table offers, whatever its layout.
pub trait Sdt {
    /// The complete byte image of the table as it stands: the header
    /// followed by the body.
    spec fn image(&self) -> Seq<u8>;

    /// The total length of the table in bytes, header included.
    fn len(&self) -> (n: usize)
        ensures
            n == self.image().len(),
    ;

    /// Whether the table has no byte at all, which no valid table has.
    fn is_empty(&self) -> (empty: bool)
        ensures
            empty == (self.image().len() == 0),
    {
        self.len() == 0
    }

    /// The write that commits the table to guest memory at `address`: its
    /// complete current image, placed there, so as many bytes as `len`
    /// counts. The table itself stays as it is. An image that would run
    /// past the end of the address space gives the invalid-address error.
    fn write_to_guest(&mut self, address: u64) -> (r: Result<GuestWrite, AcpiError>)
        ensures
            final(self).image() == old(self).image(),
            r matches Ok(write) ==> write.address == address && write.bytes@ == old(self).image()
                && write.bytes@.len() == old(self).image().len() && write.wf(),
            !fits_address_space(address, old(self).image().len()) ==> r == Err::<
                GuestWrite,
                AcpiError,
            >(AcpiError::InvalidGuestAddress),
    ;
}

/// What a [`Table`] holds: its header and the bytes that follow it.
pub struct TableView {
    pub header: SdtHeader,
    pub body: Seq<u8>,
}

impl TableView {
    /// The header's bytes followed by the body.
    pub open spec fn image(self) -> Seq<u8> {
        self.header.bytes() + self.body
    }
}

/// A finalized table: a header followed by a body, with the header's
/// checksum byte set so that the bytes of the whole add up to zero.
pub struct Table {
    header: SdtHeader,
    body: Vec<u8>,
}

impl View for Table {
    type V = TableView;

    closed spec fn view(&self) -> TableView {
        TableView { header: self.header, body: self.body@ }
    }
}

impl Table {
    #[verifier::type_invariant]
    spec fn finalized(self) -> bool {
        &&& self.body@.len() + SDT_HEADER_LEN <= usize::MAX
        &&& wrapping_sum(self.header.bytes() + self.body@) == 0
    }

    /// Finalizes the table made of `header` and `body`. All fields of the
    /// header are taken as they are but the checksum byte, which is
    /// computed over the header with a zero checksum and the body.
    pub fn new(header: SdtHeader, body: Vec<u8>) -> (table: Table)
        requires
            body@.len() + SDT_HEADER_LEN <= usize::MAX,
        ensures
            table@.header == header.with_checksum(
                checksum_of(seq![header.with_checksum(0).bytes(), body@]) as u8,
            ),
            table@.body == body@,
            wrapping_sum(table@.image()) == 0,
    {
        let mut header = header;
        header.set_checksum(body.as_slice());
        Table { header, body }
    }

    /// The header, with its final checksum.
    pub fn header(&self) -> (header: SdtHeader)
        ensures
            header == self@.header,
    {
        self.header
    }

    /// The bytes that follow the header.
    pub fn body(&self) -> (body: &[u8])
        ensures
            body@ == self@.body,
    {
        self.body.as_slice()
    }
}

impl Sdt for Table {
    open spec fn image(&self) -> Seq<u8> {
        self@.image()
    }

    fn len(&self) -> (n: usize) {
        proof {
            use_type_invariant(self);
            self.header.lemma_bytes_len();
        }
        SDT_HEADER_LEN + self.body.len()
    }

    fn write_to_guest(&mut self, address: u64) -> (r: Result<GuestWrite, AcpiError>)
        ensures
            *final(self) == *old(self),
            fits_address_space(address, old(self).image().len()) ==> r is Ok,
            r matches Ok(write) ==> wrapping_sum(write.bytes@) == 0,
    {
        proof {
            use_type_invariant(&*self);
            self.header.lemma_bytes_len();
        }
        let encoded = self.header.as_bytes();
        let mut bytes: Vec<u8> = Vec::with_capacity(self.len());
        let mut i: usize = 0;
        while i < encoded.len()
            invariant
                i <= encoded@.len(),
                bytes@ == encoded@.take(i as int),
            decreases encoded@.len() - i,
        {
            bytes.push(encoded[i]);
            proof {
                assert(encoded@.take(i + 1) =~= encoded@.take(i as int).push(encoded@[i as int]));
            }
            i += 1;
        }
        let mut j: usize = 0;
        while j < self.body.len()
            invariant
                j <= self.body@.len(),
                bytes@ == encoded@ + self.body@.take(j as int),
            decreases self.body@.len() - j,
        {
            bytes.push(self.body[j]);
            proof {
                assert(self.body@.take(j + 1) =~= self.body@.take(j as int).push(
                    self.body@[j as int],
                ));
            }
            j += 1;
        }
        proof {
            assert(self.body@.take(j as int) =~= self.body@);
        }
        GuestWrite::new(address, bytes)
    }
}

} // verus!
