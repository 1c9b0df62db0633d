//! Rolling checksum over a serialized snapshot.
//!
//! The checksum is the sixteen-bit two-accumulator rolling sum: the low byte
//! is the sum of all bytes, the high byte is the sum of all running sums, both
//! reduced modulo [`CHECKSUM_MODULUS`].

use vstd::prelude::*;

verus! {

/// Modulus of both accumulators.
pub const CHECKSUM_MODULUS: u16 = 255;

/// Sum of all bytes of `data`, unreduced.
pub open spec fn byte_sum(data: Seq<u8>) -> int
    decreases data.len(),
{
    if data.len() == 0 {
        0
    } else {
        byte_sum(data.drop_last()) + data.last() as int
    }
}

/// Sum of the byte sums of all non-empty prefixes of `data`, unreduced.
/// The byte at index `i` counts `data.len() - i` times.
pub open spec fn prefix_sum_total(data: Seq<u8>) -> int
    decreases data.len(),
{
    if data.len() == 0 {
        0
    } else {
        prefix_sum_total(data.drop_last()) + byte_sum(data)
    }
}

/// Low accumulator of the checksum of `data`.
pub open spec fn low_sum(data: Seq<u8>) -> int {
    byte_sum(data) % 255
}

/// High accumulator of the checksum of `data`.
pub open spec fn high_sum(data: Seq<u8>) -> int {
    prefix_sum_total(data) % 255
}

/// The checksum of `data`: high accumulator in the upper byte, low
/// accumulator in the lower byte.
pub open spec fn checksum_of(data: Seq<u8>) -> int {
    high_sum(data) * 256 + low_sum(data)
}

/// Both unreduced sums are non-negative.
pub proof fn lemma_sums_nonnegative(data: Seq<u8>)
    ensures
        byte_sum(data) >= 0,
        prefix_sum_total(data) >= 0,
    decreases data.len(),
{
    if data.len() > 0 {
        lemma_sums_nonnegative(data.drop_last());
    }
}

/// The checksum always fits in sixteen bits, and its two bytes are the two
/// accumulators.
pub proof fn lemma_checksum_range(data: Seq<u8>)
    ensures
        0 <= low_sum(data) < 255,
        0 <= high_sum(data) < 255,
        0 <= checksum_of(data) <= 0xFEFE,
        checksum_of(data) % 256 == low_sum(data),
        checksum_of(data) / 256 == high_sum(data),
{
    lemma_sums_nonnegative(data);
}

/// Computes the two-accumulator rolling checksum of `data`.
pub fn fletcher16(data: &[u8]) -> (checksum: u16)
    ensures
        checksum == checksum_of(data@),
{
    let mut sum1: u16 = 0;
    let mut sum2: u16 = 0;
    let mut index: usize = 0;
    while index < data.len()
        invariant
            index <= data.len(),
            sum1 == low_sum(data@.take(index as int)),
            sum2 == high_sum(data@.take(index as int)),
            sum1 < 255,
            sum2 < 255,
        decreases data.len() - index,
    {
        proof {
            let next = data@.take(index as int + 1);
            assert(next.drop_last() =~= data@.take(index as int));
            assert(next.last() == data@[index as int]);
            lemma_sums_nonnegative(data@.take(index as int));
        }
        sum1 = (sum1 + data[index] as u16) % CHECKSUM_MODULUS;
        sum2 = (sum2 + sum1) % CHECKSUM_MODULUS;
        index += 1;
    }
    proof {
        assert(data@.take(index as int) =~= data@);
        assert((sum2 << 8) | sum1 == sum2 * 256 + sum1) by (bit_vector)
            requires
                sum1 < 255,
                sum2 < 255,
        ;
    }
    (sum2 << 8) | sum1
}

/// Replacing one byte changes the byte sum by the difference of the two bytes.
pub proof fn lemma_byte_sum_update(data: Seq<u8>, index: int, byte: u8)
    requires
        0 <= index < data.len(),
    ensures
        byte_sum(data.update(index, byte)) == byte_sum(data) - data[index] + byte,
    decreases data.len(),
{
    let edited = data.update(index, byte);
    if index == data.len() - 1 {
        assert(edited.drop_last() =~= data.drop_last());
    } else {
        assert(edited.drop_last() =~= data.drop_last().update(index, byte));
        lemma_byte_sum_update(data.drop_last(), index, byte);
    }
}

/// Equal buffers have equal checksums: the checksum depends on nothing but
/// the bytes.
pub proof fn lemma_checksum_deterministic(first: Seq<u8>, second: Seq<u8>)
    requires
        first =~= second,
    ensures
        checksum_of(first) == checksum_of(second),
{
}

/// Replacing the byte at `index` changes the sum of the prefix sums by the
/// difference of the two bytes, once for every prefix that holds the byte.
pub proof fn lemma_prefix_sum_total_update(data: Seq<u8>, index: int, byte: u8)
    requires
        0 <= index < data.len(),
    ensures
        prefix_sum_total(data.update(index, byte)) == prefix_sum_total(data) + (data.len() - index)
            * (byte - data[index]),
    decreases data.len(),
{
    let edited = data.update(index, byte);
    let difference = byte - data[index];
    lemma_byte_sum_update(data, index, byte);
    if index == data.len() - 1 {
        assert(edited.drop_last() =~= data.drop_last());
        assert((data.len() - index) * difference == difference) by (nonlinear_arith)
            requires
                data.len() - index == 1,
        ;
    } else {
        assert(edited.drop_last() =~= data.drop_last().update(index, byte));
        lemma_prefix_sum_total_update(data.drop_last(), index, byte);
        assert((data.len() - 1 - index) * difference + difference == (data.len() - index)
            * difference) by (nonlinear_arith);
    }
}

/// A buffer that differs from another in exactly one byte has a different
/// checksum, unless the two bytes are congruent modulo the modulus, which
/// happens only when one is `0x00` and the other `0xFF`.
pub proof fn lemma_single_byte_edit_detected(data: Seq<u8>, index: int, byte: u8)
    requires
        0 <= index < data.len(),
        (data[index] as int - byte as int) % 255 != 0,
    ensures
        checksum_of(data.update(index, byte)) != checksum_of(data),
{
    lemma_byte_sum_update(data, index, byte);
    lemma_checksum_range(data);
    lemma_checksum_range(data.update(index, byte));
    lemma_sums_nonnegative(data);
    lemma_sums_nonnegative(data.update(index, byte));
}

/// The edits that go unseen: a byte replaced by one that is congruent to it
/// modulo the modulus leaves the checksum as it was.
pub proof fn lemma_congruent_byte_edit_unseen(data: Seq<u8>, index: int, byte: u8)
    requires
        0 <= index < data.len(),
        (data[index] as int - byte as int) % 255 == 0,
    ensures
        checksum_of(data.update(index, byte)) == checksum_of(data),
{
    let copies = data.len() - index;
    let difference = byte - data[index];
    lemma_byte_sum_update(data, index, byte);
    lemma_prefix_sum_total_update(data, index, byte);
    lemma_sums_nonnegative(data);
    lemma_sums_nonnegative(data.update(index, byte));
    assert(difference == 0 || difference == 255 || difference == -255);
    assert((copies * difference) % 255 == 0) by (nonlinear_arith)
        requires
            difference == 0 || difference == 255 || difference == -255,
    ;
}

} // verus!
