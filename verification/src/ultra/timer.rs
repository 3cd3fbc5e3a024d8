use vstd::prelude::*;

verus! {

/// The N64 bus clock rate, OS_CLOCK_RATE (62.5 MHz).
pub const OS_CLOCK_RATE: u64 = 62_500_000;

/// The CP0 COUNT rate that osGetCount/osGetTime read: OS_CLOCK_RATE * 3 / 4 = 46.875 MHz.
pub const OS_CPU_COUNTER: u64 = 46_875_000;

/// Host nanoseconds scaled to COUNT cycles at `clock_rate`, floored, narrowed like an `as` cast.
pub fn cycles_from_nanos(nanos: u128, clock_rate: u64) -> (r: u64)
    requires
        nanos * clock_rate <= u128::MAX,
    ensures
        r == (nanos * clock_rate / 1_000_000_000) as u64,
{
    let x: u128 = nanos * clock_rate as u128;
    (x / 1_000_000_000u128) as u64
}

/// The guest clock's bias: osGetTime reads the elapsed COUNT cycles plus this offset, wrapping.
pub struct TimeBase {
    pub offset: u64,
}

pub open spec fn wrap_add(a: u64, b: u64) -> u64 {
    ((a + b) % 0x1_0000_0000_0000_0000) as u64
}

pub open spec fn wrap_sub(a: u64, b: u64) -> u64 {
    ((a - b + 0x1_0000_0000_0000_0000) % 0x1_0000_0000_0000_0000) as u64
}

impl TimeBase {
    pub fn new() -> (t: TimeBase)
        ensures
            t.offset == 0,
    {
        TimeBase { offset: 0 }
    }

    /// osGetTime: the elapsed COUNT cycles, biased.
    pub fn get_time(&self, elapsed_cycles: u64) -> (r: u64)
        ensures
            r == wrap_add(self.offset, elapsed_cycles),
    {
        self.offset.wrapping_add(elapsed_cycles)
    }

    /// osGetCount: the low 32 bits of the same clock.
    pub fn get_count(&self, elapsed_cycles: u64) -> (r: u32)
        ensures
            r == wrap_add(self.offset, elapsed_cycles) as u32,
    {
        let t = self.get_time(elapsed_cycles);
        t as u32
    }

    /// osSetTime: re-bias so that a read at this instant returns `t`.
    pub fn set_time(&mut self, t: u64, elapsed_cycles: u64)
        ensures
            final(self).offset == wrap_sub(t, elapsed_cycles),
    {
        self.offset = t.wrapping_sub(elapsed_cycles);
    }
}

/// osSetTime then osGetTime reads back the set value, advanced by the cycles elapsed since the set
/// (modulo 2^64).
pub proof fn law_set_time_reads_back(t: u64, at: u64, later: u64)
    ensures
        wrap_add(wrap_sub(t, at), at) == t,
        wrap_add(wrap_sub(t, at), later) == wrap_add(t, wrap_sub(later, at)),
{
    let m: int = 0x1_0000_0000_0000_0000;
    let a = wrap_sub(t, at) as int;
    assert(a == (t - at + m) % m);
    assert((a + at) % m == t) by (nonlinear_arith)
        requires
            a == (t - at + m) % m,
            m == 0x1_0000_0000_0000_0000,
            0 <= t < m,
            0 <= at < m,
    ;
    let b = wrap_sub(later, at) as int;
    assert((a + later) % m == (t + b) % m) by (nonlinear_arith)
        requires
            a == (t - at + m) % m,
            b == (later - at + m) % m,
            m == 0x1_0000_0000_0000_0000,
            0 <= t < m,
            0 <= at < m,
            0 <= later < m,
    ;
}

} // verus!
