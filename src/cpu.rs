//! CPU usage as a rate between two samples of cumulative tick counters.
use vstd::prelude::*;

verus! {

/// Scale of a usage value: thousandths of a percent, so that one fully busy
/// logical processor reads as `100_000`.
pub const USAGE_SCALE: u64 = 100_000;

/// One reading of the three cumulative counters, all in 100-ns ticks:
/// system-wide wall clock, and the process's kernel-mode and user-mode time.
#[derive(Clone, Copy, Debug, PartialEq, Eq)]
pub struct CpuTicks {
    pub wall: u64,
    pub sys: u64,
    pub user: u64,
}

impl CpuTicks {
    /// The reading a record holds before its first sample.
    pub fn zero() -> (r: CpuTicks)
        ensures
            r == (CpuTicks { wall: 0, sys: 0, user: 0 }),
    {
        CpuTicks { wall: 0, sys: 0, user: 0 }
    }
}

/// How far a cumulative counter advanced; a counter that went backwards
/// counts as not having advanced.
pub open spec fn advance(prev: u64, now: u64) -> int {
    if now >= prev {
        now - prev
    } else {
        0
    }
}

/// Ticks spent on a processor, kernel and user mode together, between two
/// readings.
pub open spec fn busy_ticks(prev: CpuTicks, now: CpuTicks) -> int {
    advance(prev.sys, now.sys) + advance(prev.user, now.user)
}

/// Usage between two readings in thousandths of a percent:
/// `busy / elapsed / nb_processors * 100`, rounded down, capped at
/// `u64::MAX`, and 0 where no wall-clock time passed or no processor is
/// counted.
pub open spec fn usage_between(prev: CpuTicks, now: CpuTicks, nb_processors: u64) -> int {
    let den = advance(prev.wall, now.wall) * nb_processors;
    if den == 0 {
        0
    } else {
        let q = busy_ticks(prev, now) * USAGE_SCALE / den;
        if q > u64::MAX {
            u64::MAX as int
        } else {
            q
        }
    }
}

fn counter_advance(prev: u64, now: u64) -> (r: u64)
    ensures
        r as int == advance(prev, now),
{
    if now >= prev {
        now - prev
    } else {
        0
    }
}

/// Computes the usage between two readings.
pub fn cpu_usage_between(prev: CpuTicks, now: CpuTicks, nb_processors: u64) -> (r: u64)
    ensures
        r as int == usage_between(prev, now, nb_processors),
{
    let elapsed = counter_advance(prev.wall, now.wall);
    let d_sys = counter_advance(prev.sys, now.sys);
    let d_user = counter_advance(prev.user, now.user);
    if elapsed == 0 || nb_processors == 0 {
        assert(advance(prev.wall, now.wall) * nb_processors == 0) by (nonlinear_arith)
            requires
                advance(prev.wall, now.wall) == 0 || nb_processors == 0,
        ;
        return 0;
    }
    let e = elapsed as u128;
    let n = nb_processors as u128;
    assert(e * n <= 0xffff_ffff_ffff_ffff_u128 * 0xffff_ffff_ffff_ffff_u128) by (nonlinear_arith)
        requires
            e <= 0xffff_ffff_ffff_ffff_u128,
            n <= 0xffff_ffff_ffff_ffff_u128,
    ;
    let den = e * n;
    assert(den > 0) by (nonlinear_arith)
        requires
            e > 0,
            n > 0,
            den == e * n,
    ;
    let busy = d_sys as u128 + d_user as u128;
    assert(busy * 100_000 <= 0x2_0000_0000_0000_0000_u128 * 100_000) by (nonlinear_arith)
        requires
            busy <= 0x2_0000_0000_0000_0000_u128,
    ;
    let num = busy * (USAGE_SCALE as u128);
    let q = num / den;
    if q > u64::MAX as u128 {
        u64::MAX
    } else {
        q as u64
    }
}

/// Where the process used no processor time between two readings, the usage
/// is 0; likewise where no wall-clock time passed between them.
pub proof fn lemma_idle_or_instant_reads_zero(prev: CpuTicks, now: CpuTicks, nb_processors: u64)
    ensures
        now.sys == prev.sys && now.user == prev.user ==> usage_between(prev, now, nb_processors)
            == 0,
        now.wall == prev.wall ==> usage_between(prev, now, nb_processors) == 0,
{
    let den = advance(prev.wall, now.wall) * nb_processors;
    if now.wall == prev.wall {
        assert(den == 0);
    }
    if now.sys == prev.sys && now.user == prev.user && den != 0 {
        assert(busy_ticks(prev, now) == 0);
        assert(0int * USAGE_SCALE / den == 0) by (nonlinear_arith)
            requires
                den != 0,
        ;
    }
}

/// Where the processor time consumed fits in the wall-clock time passed
/// times the number of logical processors, the usage lies between 0 and
/// 100 percent of one processor's worth per processor, hence within
/// `[0, 100 * nb_processors]` percent.
pub proof fn lemma_usage_within_processor_capacity(
    prev: CpuTicks,
    now: CpuTicks,
    nb_processors: u64,
)
    requires
        nb_processors >= 1,
        busy_ticks(prev, now) <= advance(prev.wall, now.wall) * nb_processors,
    ensures
        0 <= usage_between(prev, now, nb_processors) <= USAGE_SCALE,
        usage_between(prev, now, nb_processors) <= USAGE_SCALE * nb_processors,
{
    let den = advance(prev.wall, now.wall) * nb_processors;
    let b = busy_ticks(prev, now);
    if den != 0 {
        assert(0 <= b * USAGE_SCALE / den <= USAGE_SCALE) by (nonlinear_arith)
            requires
                0 <= b <= den,
                den > 0,
        ;
    }
    assert(USAGE_SCALE <= USAGE_SCALE * nb_processors) by (nonlinear_arith)
        requires
            nb_processors >= 1,
    ;
}

} // verus!
