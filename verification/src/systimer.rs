use vstd::prelude::*;

verus! {

/// 2^32: the weight of the high word of a counter value.
pub open spec fn word() -> int {
    0x1_0000_0000
}

/// The two words loaded into a comparator's target registers: the high word
/// goes to `TARGETx_HI`, the low word to `TARGETx_LO`.
#[derive(Clone, Copy, PartialEq, Eq, Structural, Debug)]
pub struct TargetWords {
    pub hi: u32,
    pub lo: u32,
}

/// The target words of an alarm at `timestamp`: its upper 32 bits and its
/// lower 32 bits.
pub open spec fn spec_target_words(timestamp: u64) -> TargetWords {
    TargetWords { hi: (timestamp as int / word()) as u32, lo: (timestamp as int % word()) as u32 }
}

/// The counter value made of high word `hi` and low word `lo`.
pub open spec fn spec_time(hi: u32, lo: u32) -> int {
    hi * word() + lo
}

/// The target words of an alarm at `timestamp`.
pub fn target_words(timestamp: u64) -> (r: TargetWords)
    ensures
        r == spec_target_words(timestamp),
{
    let hi = (timestamp >> 32u64) as u32;
    let lo = (timestamp & 0xFFFF_FFFFu64) as u32;
    assert((timestamp >> 32u64) as u32 == timestamp / 0x1_0000_0000u64) by (bit_vector);
    assert((timestamp & 0xFFFF_FFFFu64) as u32 == timestamp % 0x1_0000_0000u64) by (bit_vector);
    TargetWords { hi, lo }
}

/// The counter value read as a high word `value_hi` and a low word
/// `value_lo`.
pub fn time_from_words(value_hi: u32, value_lo: u32) -> (r: u64)
    ensures
        r == spec_time(value_hi, value_lo),
{
    let r = ((value_hi as u64) << 32u64) | value_lo as u64;
    assert(((value_hi as u64) << 32u64) | value_lo as u64 == value_hi as u64 * 0x1_0000_0000u64
        + value_lo as u64) by (bit_vector);
    r
}

/// Splitting a timestamp into target words and reading those words back as
/// a counter value gives the timestamp again.
pub proof fn lemma_words_round_trip(timestamp: u64)
    ensures
        spec_time(spec_target_words(timestamp).hi, spec_target_words(timestamp).lo) == timestamp,
{
    vstd::arithmetic::div_mod::lemma_fundamental_div_mod(timestamp as int, word());
    vstd::arithmetic::div_mod::lemma_div_pos_is_pos(timestamp as int, word());
    vstd::arithmetic::div_mod::lemma_div_is_ordered_by_denominator(timestamp as int, word(), word());
    assert(timestamp as int / word() < word()) by {
        vstd::arithmetic::div_mod::lemma_div_by_multiple_is_strongly_ordered(timestamp as int, word() * word(), word(), word());
    }
}

/// A counter value read from two words splits back into the same two words.
pub proof fn lemma_time_round_trip(value_hi: u32, value_lo: u32)
    ensures
        spec_time(value_hi, value_lo) <= u64::MAX,
        spec_target_words(spec_time(value_hi, value_lo) as u64) == (TargetWords { hi: value_hi, lo: value_lo }),
{
    let t = value_hi * word() + value_lo;
    vstd::arithmetic::div_mod::lemma_fundamental_div_mod_converse(t, word(), value_hi as int, value_lo as int);
}

} // verus!
