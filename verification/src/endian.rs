//! Little-endian encoding of the multi-byte fields of the table layouts.

use vstd::arithmetic::power::pow;
use vstd::prelude::*;

verus! {

/// The `width` low-order bytes of `n`, least significant byte first.
pub open spec fn le_bytes(n: nat, width: nat) -> Seq<u8>
    decreases width,
{
    if width == 0 {
        Seq::empty()
    } else {
        seq![(n % 256) as u8] + le_bytes(n / 256, (width - 1) as nat)
    }
}

/// The number that `bytes` spells when read least significant byte first.
pub open spec fn le_value(bytes: Seq<u8>) -> nat
    decreases bytes.len(),
{
    if bytes.len() == 0 {
        0
    } else {
        bytes[0] as nat + 256 * le_value(bytes.drop_first())
    }
}

/// An encoding has as many bytes as asked for, whatever the number.
pub proof fn lemma_le_bytes_len(n: nat, width: nat)
    ensures
        le_bytes(n, width).len() == width,
    decreases width,
{
    if width > 0 {
        lemma_le_bytes_len(n / 256, (width - 1) as nat);
    }
}

/// Reading an encoding back gives the number, if the number fits in
/// `width` bytes.
pub proof fn lemma_le_round_trip(n: nat, width: nat)
    requires
        n < pow(256, width),
    ensures
        le_value(le_bytes(n, width)) == n,
    decreases width,
{
    reveal(pow);
    if width > 0 {
        let p = pow(256, (width - 1) as nat);
        assert(pow(256, width) == 256 * p);
        assert(n / 256 < p);
        lemma_le_round_trip(n / 256, (width - 1) as nat);
        assert(le_bytes(n, width).drop_first() =~= le_bytes(n / 256, (width - 1) as nat));
        assert(le_bytes(n, width)[0] == (n % 256) as u8);
    }
}

/// The four-byte encoding of a `u32` reads back as that number.
pub proof fn lemma_le_round_trip_u32(n: u32)
    ensures
        le_bytes(n as nat, 4).len() == 4,
        le_value(le_bytes(n as nat, 4)) == n,
{
    reveal_with_fuel(pow, 5);
    assert(pow(256, 4) == 0x1_0000_0000);
    lemma_le_round_trip(n as nat, 4);
    lemma_le_bytes_len(n as nat, 4);
}

/// The eight-byte encoding of a `u64` reads back as that number.
pub proof fn lemma_le_round_trip_u64(n: u64)
    ensures
        le_bytes(n as nat, 8).len() == 8,
        le_value(le_bytes(n as nat, 8)) == n,
{
    reveal_with_fuel(pow, 9);
    assert(pow(256, 8) == 0x1_0000_0000_0000_0000);
    lemma_le_round_trip(n as nat, 8);
    lemma_le_bytes_len(n as nat, 8);
}

/// The four bytes of `n` in little-endian order.
///
/// Trusted: calls `zerocopy::little_endian::U32::new` and takes the bytes
/// it stores with `to_bytes`; the contract claims that these are the bytes
/// of `n`, least significant first.
#[verifier::external_body]
pub(crate) fn u32_le_bytes(n: u32) -> (bytes: [u8; 4])
    ensures
        bytes@ == le_bytes(n as nat, 4),
{
    zerocopy::little_endian::U32::new(n).to_bytes()
}

/// The eight bytes of `n` in little-endian order.
///
/// Trusted: calls `zerocopy::little_endian::U64::new` and takes the bytes
/// it stores with `to_bytes`; the contract claims that these are the bytes
/// of `n`, least significant first.
#[verifier::external_body]
pub(crate) fn u64_le_bytes(n: u64) -> (bytes: [u8; 8])
    ensures
        bytes@ == le_bytes(n as nat, 8),
{
    zerocopy::little_endian::U64::new(n).to_bytes()
}

} // verus!
