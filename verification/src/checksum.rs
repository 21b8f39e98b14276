//! The ACPI table checksum: the byte that makes a table's bytes add up to
//! zero in 8-bit wraparound arithmetic.

use vstd::prelude::*;

verus! {

/// The sum of all bytes of `bytes`, as an unbounded integer.
pub open spec fn byte_total(bytes: Seq<u8>) -> int
    decreases bytes.len(),
{
    if bytes.len() == 0 {
        0
    } else {
        byte_total(bytes.drop_last()) + bytes.last()
    }
}

/// The sum of all bytes of `bytes` in 8-bit wraparound arithmetic.
pub open spec fn wrapping_sum(bytes: Seq<u8>) -> int {
    byte_total(bytes) % 256
}

/// The views of the fragments of a fragment list, in order.
pub open spec fn fragments(buf: Seq<&[u8]>) -> Seq<Seq<u8>> {
    buf.map_values(|fragment: &[u8]| fragment@)
}

/// The checksum of the concatenation of `parts`: the two's-complement
/// negation of its 8-bit wraparound sum.
pub open spec fn checksum_of(parts: Seq<Seq<u8>>) -> int {
    (256 - wrapping_sum(parts.flatten())) % 256
}

/// The total of a concatenation is the sum of the totals.
pub proof fn lemma_byte_total_concat(a: Seq<u8>, b: Seq<u8>)
    ensures
        byte_total(a + b) == byte_total(a) + byte_total(b),
    decreases b.len(),
{
    if b.len() == 0 {
        assert(a + b =~= a);
    } else {
        assert((a + b).drop_last() =~= a + b.drop_last());
        assert((a + b).last() == b.last());
        lemma_byte_total_concat(a, b.drop_last());
    }
}

/// Appending its checksum to a buffer makes the whole add up to zero: the
/// checksum is a byte, and the 8-bit wraparound sum of the concatenated
/// fragments followed by that byte is 0.
pub proof fn lemma_checksum_cancels(parts: Seq<Seq<u8>>)
    ensures
        0 <= checksum_of(parts) < 256,
        (wrapping_sum(parts.flatten()) + checksum_of(parts)) % 256 == 0,
        wrapping_sum(parts.flatten().push(checksum_of(parts) as u8)) == 0,
{
    let flat = parts.flatten();
    let c = checksum_of(parts) as u8;
    assert(flat.push(c).drop_last() =~= flat);
}

/// The checksum does not depend on where a buffer is cut: one fragment and
/// its two halves at any split point have the same checksum.
pub proof fn lemma_checksum_split(bytes: Seq<u8>, k: int)
    requires
        0 <= k <= bytes.len(),
    ensures
        checksum_of(seq![bytes]) == checksum_of(seq![bytes.take(k), bytes.skip(k)]),
{
    let whole = seq![bytes];
    let halves = seq![bytes.take(k), bytes.skip(k)];
    whole.lemma_flatten_one_element();
    assert(whole.first() == bytes);
    assert(halves =~= seq![bytes.take(k)].push(bytes.skip(k)));
    seq![bytes.take(k)].lemma_flatten_push(bytes.skip(k));
    seq![bytes.take(k)].lemma_flatten_one_element();
    assert(seq![bytes.take(k)].first() == bytes.take(k));
    assert(bytes.take(k) + bytes.skip(k) =~= bytes);
}

/// Two fragment lists that concatenate to the same bytes have the same
/// checksum, however the bytes are cut into fragments.
pub proof fn lemma_checksum_partition(a: Seq<Seq<u8>>, b: Seq<Seq<u8>>)
    requires
        a.flatten() == b.flatten(),
    ensures
        checksum_of(a) == checksum_of(b),
{
}

/// A fragment list without any byte, be it empty or made of empty
/// fragments only, has checksum 0.
pub proof fn lemma_checksum_of_nothing(parts: Seq<Seq<u8>>)
    requires
        forall|i: int| 0 <= i < parts.len() ==> #[trigger] parts[i].len() == 0,
    ensures
        checksum_of(parts) == 0,
    decreases parts.len(),
{
    if parts.len() > 0 {
        lemma_checksum_of_nothing(parts.drop_first());
        assert(parts.flatten() =~= parts.drop_first().flatten());
    }
}

/// Computes the checksum of the bytes of all fragments of `buf`, taken in
/// order as one buffer.
pub fn checksum(buf: &[&[u8]]) -> (c: u8)
    ensures
        c == checksum_of(fragments(buf@)),
        wrapping_sum(fragments(buf@).flatten().push(c)) == 0,
{
    let ghost parts = fragments(buf@);
    let mut sum: u8 = 0;
    let mut i: usize = 0;
    while i < buf.len()
        invariant
            i <= buf.len(),
            parts == fragments(buf@),
            sum == wrapping_sum(parts.take(i as int).flatten()),
        decreases buf.len() - i,
    {
        let fragment: &[u8] = buf[i];
        let ghost done = parts.take(i as int).flatten();
        let mut j: usize = 0;
        while j < fragment.len()
            invariant
                j <= fragment.len(),
                sum == wrapping_sum(done + fragment@.take(j as int)),
            decreases fragment.len() - j,
        {
            proof {
                let seen = fragment@.take(j as int);
                assert(fragment@.take(j + 1).drop_last() =~= seen);
                lemma_byte_total_concat(done, seen);
                lemma_byte_total_concat(done, fragment@.take(j + 1));
            }
            sum = sum.wrapping_add(fragment[j]);
            j += 1;
        }
        proof {
            assert(fragment@.take(j as int) =~= fragment@);
            assert(parts.take(i + 1) =~= parts.take(i as int).push(fragment@));
            parts.take(i as int).lemma_flatten_push(fragment@);
        }
        i += 1;
    }
    proof {
        assert(parts.take(i as int) =~= parts);
        lemma_checksum_cancels(parts);
    }
    0u8.wrapping_sub(sum)
}

} // verus!
