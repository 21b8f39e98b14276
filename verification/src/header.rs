//! The header that every system descriptor table begins with.

use crate::checksum::{
    byte_total, checksum, checksum_of, fragments, lemma_byte_total_concat, wrapping_sum,
};
use crate::endian::{le_bytes, lemma_le_bytes_len, u32_le_bytes};
use vstd::prelude::*;

verus! {

/// The encoded size of a table header, in bytes.
pub const SDT_HEADER_LEN: usize = 36;

/// The offset of the checksum byte within an encoded header.
pub const SDT_HEADER_CHECKSUM_OFFSET: usize = 9;

/// The creator id stamped on every table built with this crate.
pub const FC_ACPI_CREATOR_ID: [u8; 4] = [0x46, 0x43, 0x41, 0x54];

/// The creator revision stamped on every table built with this crate.
pub const FC_ACPI_CREATOR_REVISION: u32 = 0x20240119;

/// The common prologue of a system descriptor table.
#[derive(Clone, Copy, Debug)]
pub struct SdtHeader {
    /// Table signature, four ASCII characters
    pub signature: [u8; 4],
    /// Length of the entire table including this header
    pub length: u32,
    /// Table revision number
    pub revision: u8,
    /// The byte that makes the bytes of the entire table add up to zero
    pub checksum: u8,
    /// OEM-supplied string that identifies the OEM
    pub oem_id: [u8; 6],
    /// OEM-supplied string that identifies the specific data table
    pub oem_table_id: [u8; 8],
    /// OEM-supplied revision number
    pub oem_revision: u32,
    /// Vendor id of the utility that created the table
    pub creator_id: [u8; 4],
    /// Revision of the utility that created the table
    pub creator_revision: u32,
}

impl SdtHeader {
    /// The encoded fields that precede the checksum byte.
    pub open spec fn bytes_before_checksum(self) -> Seq<u8> {
        self.signature@ + le_bytes(self.length as nat, 4) + seq![self.revision]
    }

    /// The encoded fields that follow the checksum byte.
    pub open spec fn bytes_after_checksum(self) -> Seq<u8> {
        self.oem_id@ + self.oem_table_id@ + le_bytes(self.oem_revision as nat, 4)
            + self.creator_id@ + le_bytes(self.creator_revision as nat, 4)
    }

    /// The encoding: every field in declaration order, without padding,
    /// the numbers in little-endian order.
    pub open spec fn bytes(self) -> Seq<u8> {
        self.bytes_before_checksum() + seq![self.checksum] + self.bytes_after_checksum()
    }

    /// This header with its checksum byte replaced by `checksum`.
    pub open spec fn with_checksum(self, checksum: u8) -> SdtHeader {
        SdtHeader { checksum, ..self }
    }

    /// Every encoding is 36 bytes long, with the checksum at offset 9.
    pub proof fn lemma_bytes_len(self)
        ensures
            self.bytes().len() == SDT_HEADER_LEN,
            self.bytes_before_checksum().len() == SDT_HEADER_CHECKSUM_OFFSET,
            self.bytes()[SDT_HEADER_CHECKSUM_OFFSET as int] == self.checksum,
    {
        lemma_le_bytes_len(self.length as nat, 4);
        lemma_le_bytes_len(self.oem_revision as nat, 4);
        lemma_le_bytes_len(self.creator_revision as nat, 4);
    }

    /// Builds the header of a table of `length` bytes. The checksum starts
    /// at zero, and the creator fields are this crate's own.
    pub fn new(
        signature: [u8; 4],
        length: u32,
        table_revision: u8,
        oem_id: [u8; 6],
        oem_table_id: [u8; 8],
        oem_revision: u32,
    ) -> (header: Self)
        ensures
            header == (SdtHeader {
                signature,
                length,
                revision: table_revision,
                checksum: 0,
                oem_id,
                oem_table_id,
                oem_revision,
                creator_id: FC_ACPI_CREATOR_ID,
                creator_revision: FC_ACPI_CREATOR_REVISION,
            }),
    {
        SdtHeader {
            signature,
            length,
            revision: table_revision,
            checksum: 0,
            oem_id,
            oem_table_id,
            oem_revision,
            creator_id: FC_ACPI_CREATOR_ID,
            creator_revision: FC_ACPI_CREATOR_REVISION,
        }
    }

    /// Encodes the header in its 36-byte layout.
    pub fn as_bytes(&self) -> (out: [u8; 36])
        ensures
            out@ == self.bytes(),
            out@.len() == SDT_HEADER_LEN,
    {
        let length = u32_le_bytes(self.length);
        let oem_revision = u32_le_bytes(self.oem_revision);
        let creator_revision = u32_le_bytes(self.creator_revision);
        let out = [
            self.signature[0],
            self.signature[1],
            self.signature[2],
            self.signature[3],
            length[0],
            length[1],
            length[2],
            length[3],
            self.revision,
            self.checksum,
            self.oem_id[0],
            self.oem_id[1],
            self.oem_id[2],
            self.oem_id[3],
            self.oem_id[4],
            self.oem_id[5],
            self.oem_table_id[0],
            self.oem_table_id[1],
            self.oem_table_id[2],
            self.oem_table_id[3],
            self.oem_table_id[4],
            self.oem_table_id[5],
            self.oem_table_id[6],
            self.oem_table_id[7],
            oem_revision[0],
            oem_revision[1],
            oem_revision[2],
            oem_revision[3],
            self.creator_id[0],
            self.creator_id[1],
            self.creator_id[2],
            self.creator_id[3],
            creator_revision[0],
            creator_revision[1],
            creator_revision[2],
            creator_revision[3],
        ];
        proof {
            self.lemma_bytes_len();
            assert(out@ =~= self.bytes());
        }
        out
    }

    /// Finalizes the header of the table whose bytes after the header are
    /// `body`: sets the checksum byte so that header and body together add
    /// up to zero. The byte it had before does not matter.
    pub fn set_checksum(&mut self, body: &[u8])
        ensures
            *final(self) == old(self).with_checksum(
                checksum_of(seq![old(self).with_checksum(0).bytes(), body@]) as u8,
            ),
            wrapping_sum(final(self).bytes() + body@) == 0,
    {
        self.checksum = 0;
        let ghost cleared = *self;
        let encoded = self.as_bytes();
        let parts: [&[u8]; 2] = [encoded.as_slice(), body];
        proof {
            assert(fragments(parts@) =~= seq![cleared.bytes(), body@]);
            lemma_checksum_finalizes(cleared, body@);
        }
        self.checksum = checksum(parts.as_slice());
    }
}

/// Checksum finalization: a header whose checksum byte is zero, given the
/// checksum of its own bytes followed by the body, makes the full image of
/// the table add up to zero in 8-bit wraparound arithmetic.
pub proof fn lemma_checksum_finalizes(header: SdtHeader, body: Seq<u8>)
    requires
        header.checksum == 0,
    ensures
        0 <= checksum_of(seq![header.bytes(), body]) < 256,
        wrapping_sum(
            header.with_checksum(checksum_of(seq![header.bytes(), body]) as u8).bytes() + body,
        ) == 0,
{
    let parts = seq![header.bytes(), body];
    let c = checksum_of(parts) as u8;
    let done = header.with_checksum(c);
    let before = header.bytes_before_checksum();
    let after = header.bytes_after_checksum();
    assert(parts =~= seq![header.bytes()].push(body));
    seq![header.bytes()].lemma_flatten_push(body);
    seq![header.bytes()].lemma_flatten_one_element();
    assert(seq![header.bytes()].first() == header.bytes());
    assert(parts.flatten() == header.bytes() + body);
    assert(done.bytes_before_checksum() == before);
    assert(done.bytes_after_checksum() == after);
    lemma_byte_total_concat(before, seq![0u8]);
    lemma_byte_total_concat(before + seq![0u8], after);
    lemma_byte_total_concat(header.bytes(), body);
    lemma_byte_total_concat(before, seq![c]);
    lemma_byte_total_concat(before + seq![c], after);
    lemma_byte_total_concat(done.bytes(), body);
    assert(byte_total(seq![0u8]) == 0 && byte_total(seq![c]) == c) by {
        reveal_with_fuel(byte_total, 2);
    }
}

} // verus!
