//! The Generic Address Structure: where a hardware register lives.

use crate::endian::{le_bytes, lemma_le_bytes_len, u64_le_bytes};
use vstd::prelude::*;

verus! {

/// The encoded size of a Generic Address Structure, in bytes.
pub const GAS_LEN: usize = 12;

/// The location of a register in one of the platform's address spaces.
///
/// The byte codes are carried as given; none is checked.
#[derive(Clone, Copy, Debug)]
pub struct GenericAddressStructure {
    /// Address space where the register exists (0 = system memory, 1 = system I/O, ...)
    pub address_space_id: u8,
    /// Size in bits of the register
    pub register_bit_width: u8,
    /// Bit offset of the register within the address
    pub register_bit_offset: u8,
    /// Access size (0 = undefined, 1 = byte, 2 = word, 3 = dword, 4 = qword)
    pub access_size: u8,
    /// 64-bit address of the register
    pub address: u64,
}

impl GenericAddressStructure {
    /// The encoding: the four byte codes in field order, then the address
    /// in little-endian order.
    pub open spec fn bytes(self) -> Seq<u8> {
        seq![
            self.address_space_id,
            self.register_bit_width,
            self.register_bit_offset,
            self.access_size,
        ] + le_bytes(self.address as nat, 8)
    }

    /// Every encoding is 12 bytes long.
    pub proof fn lemma_bytes_len(self)
        ensures
            self.bytes().len() == GAS_LEN,
    {
        lemma_le_bytes_len(self.address as nat, 8);
    }

    pub fn new(
        address_space_id: u8,
        register_bit_width: u8,
        register_bit_offset: u8,
        access_size: u8,
        address: u64,
    ) -> (gas: Self)
        ensures
            gas == (GenericAddressStructure {
                address_space_id,
                register_bit_width,
                register_bit_offset,
                access_size,
                address,
            }),
    {
        Self { address_space_id, register_bit_width, register_bit_offset, access_size, address }
    }

    /// Encodes the structure in its 12-byte layout.
    pub fn as_bytes(&self) -> (out: [u8; 12])
        ensures
            out@ == self.bytes(),
            out@.len() == GAS_LEN,
    {
        let a = u64_le_bytes(self.address);
        let out = [
            self.address_space_id,
            self.register_bit_width,
            self.register_bit_offset,
            self.access_size,
            a[0],
            a[1],
            a[2],
            a[3],
            a[4],
            a[5],
            a[6],
            a[7],
        ];
        proof {
            lemma_le_bytes_len(self.address as nat, 8);
            assert(out@ =~= self.bytes());
        }
        out
    }
}

impl Default for GenericAddressStructure {
    fn default() -> (gas: Self)
        ensures
            gas == (GenericAddressStructure {
                address_space_id: 0,
                register_bit_width: 0,
                register_bit_offset: 0,
                access_size: 0,
                address: 0,
            }),
    {
        Self::new(0, 0, 0, 0, 0)
    }
}

} // verus!
