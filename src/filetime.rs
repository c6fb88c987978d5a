//! Conversion of the two-word 100-ns tick representation into one integer.
use vstd::prelude::*;

verus! {

/// The factor between the high and the low word of a split tick count.
pub open spec fn word_base() -> int {
    0x1_0000_0000
}

/// A 64-bit tick count as the operating system hands it out: two 32-bit
/// words, the low one holding the least-significant bits.
#[derive(Clone, Copy, Debug, PartialEq, Eq)]
pub struct FileTime {
    pub low: u32,
    pub high: u32,
}

impl FileTime {
    /// The tick count that the two words stand for.
    pub open spec fn ticks(self) -> int {
        self.high as int * word_base() + self.low as int
    }
}

/// The pair of words that a tick count splits into.
pub open spec fn split_ticks(ticks: u64) -> FileTime {
    FileTime { low: (ticks as int % word_base()) as u32, high: (ticks as int / word_base()) as u32 }
}

/// Reassembles the two words into one integer, low word least significant.
pub fn filetime_to_u64(ft: FileTime) -> (r: u64)
    ensures
        r as int == ft.ticks(),
{
    let high = ft.high as u64;
    let low = ft.low as u64;
    assert((high << 32u64) | low == high * 0x1_0000_0000u64 + low) by (bit_vector)
        requires
            high <= 0xffff_ffffu64,
            low <= 0xffff_ffffu64,
    ;
    (high << 32u64) | low
}

/// Splits a tick count into its two words.
pub fn u64_to_filetime(ticks: u64) -> (ft: FileTime)
    ensures
        ft == split_ticks(ticks),
{
    let low = ticks & 0xffff_ffffu64;
    let high = ticks >> 32u64;
    assert(ticks & 0xffff_ffffu64 == ticks % 0x1_0000_0000u64) by (bit_vector);
    assert(ticks >> 32u64 == ticks / 0x1_0000_0000u64) by (bit_vector);
    FileTime { low: low as u32, high: high as u32 }
}

/// Reassembling a pair of words and splitting the result again gives back
/// the same pair, and splitting a tick count and reassembling the words
/// gives back the same count, for every value from 0 to `u64::MAX`.
pub proof fn lemma_filetime_round_trip(ft: FileTime, ticks: u64)
    ensures
        0 <= ft.ticks() <= u64::MAX,
        split_ticks(ft.ticks() as u64) == ft,
        split_ticks(ticks).ticks() == ticks as int,
{
    let h = ft.high as int;
    let l = ft.low as int;
    assert(0 <= h * 0x1_0000_0000 + l <= 0xffff_ffff_ffff_ffff) by (nonlinear_arith)
        requires
            0 <= h <= 0xffff_ffff,
            0 <= l <= 0xffff_ffff,
    ;
    assert((h * 0x1_0000_0000 + l) % 0x1_0000_0000 == l) by (nonlinear_arith)
        requires
            0 <= l < 0x1_0000_0000,
            0 <= h,
    ;
    assert((h * 0x1_0000_0000 + l) / 0x1_0000_0000 == h) by (nonlinear_arith)
        requires
            0 <= l < 0x1_0000_0000,
            0 <= h,
    ;
    let t = ticks as int;
    assert(t / 0x1_0000_0000 <= 0xffff_ffff && (t / 0x1_0000_0000) * 0x1_0000_0000 + t
        % 0x1_0000_0000 == t) by (nonlinear_arith)
        requires
            0 <= t <= 0xffff_ffff_ffff_ffff,
    ;
}

} // verus!
