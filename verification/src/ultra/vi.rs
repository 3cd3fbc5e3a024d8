use vstd::prelude::*;

verus! {

/// N64 retrace rates: NTSC and MPAL pace at 60 Hz, PAL at 50 Hz.
pub const REFRESH_NTSC_HZ: u32 = 60;

pub const REFRESH_PAL_HZ: u32 = 50;

/// `osTvType` values.
pub const TV_TYPE_PAL: u32 = 0;

pub const TV_TYPE_NTSC: u32 = 1;

pub const TV_TYPE_MPAL: u32 = 2;

/// Stable family codes for C consumers (the audio AI frequency path).
pub const TV_FAMILY_NTSC: u32 = 0;

pub const TV_FAMILY_PAL: u32 = 1;

pub const TV_FAMILY_MPAL: u32 = 2;

pub const TV_FAMILY_UNKNOWN: u32 = 0xFFFF_FFFF;

/// "No osViSetMode override": the rate comes from `osTvType`.
pub const VI_MODE_UNSET: u32 = 0xFFFF_FFFF;

pub const NANOS_PER_SEC: u128 = 1_000_000_000;

/// Refresh families, keyed by TV type or VI mode index.
#[derive(Clone, Copy, PartialEq, Eq, Debug)]
pub enum TvFamily {
    Ntsc,
    Pal,
    Mpal,
}

/// Errors from resolving a refresh rate or scheduling a deadline.
#[derive(Clone, Copy, PartialEq, Eq, Debug)]
pub enum ViClockError {
    /// The TV type or VI mode index maps to no faithful refresh family (FPAL, or unknown).
    UnknownMode,
    /// The tick's nanosecond deadline does not fit a u64 (about 584 years).
    TickOverflow,
}

pub open spec fn family_hz(f: TvFamily) -> u32 {
    match f {
        TvFamily::Ntsc => REFRESH_NTSC_HZ,
        TvFamily::Mpal => REFRESH_NTSC_HZ,
        TvFamily::Pal => REFRESH_PAL_HZ,
    }
}

pub open spec fn family_code(f: TvFamily) -> u32 {
    match f {
        TvFamily::Ntsc => TV_FAMILY_NTSC,
        TvFamily::Pal => TV_FAMILY_PAL,
        TvFamily::Mpal => TV_FAMILY_MPAL,
    }
}

impl TvFamily {
    /// Retrace rate for this family.
    pub fn hz(self) -> (r: u32)
        ensures
            r == family_hz(self),
    {
        match self {
            TvFamily::Ntsc | TvFamily::Mpal => REFRESH_NTSC_HZ,
            TvFamily::Pal => REFRESH_PAL_HZ,
        }
    }

    /// Stable C-ABI code.
    pub fn code(self) -> (r: u32)
        ensures
            r == family_code(self),
    {
        match self {
            TvFamily::Ntsc => TV_FAMILY_NTSC,
            TvFamily::Pal => TV_FAMILY_PAL,
            TvFamily::Mpal => TV_FAMILY_MPAL,
        }
    }
}

pub open spec fn spec_family_from_tv_type(t: u32) -> Result<TvFamily, ViClockError> {
    if t == TV_TYPE_PAL {
        Ok(TvFamily::Pal)
    } else if t == TV_TYPE_NTSC {
        Ok(TvFamily::Ntsc)
    } else if t == TV_TYPE_MPAL {
        Ok(TvFamily::Mpal)
    } else {
        Err(ViClockError::UnknownMode)
    }
}

/// VI mode index table layout: 0..=13 NTSC, 14..=27 PAL, 28..=41 MPAL; FPAL (42..=55) and
/// anything else has no faithful refresh.
pub open spec fn spec_family_from_mode(m: u32) -> Result<TvFamily, ViClockError> {
    if m <= 13 {
        Ok(TvFamily::Ntsc)
    } else if m <= 27 {
        Ok(TvFamily::Pal)
    } else if m <= 41 {
        Ok(TvFamily::Mpal)
    } else {
        Err(ViClockError::UnknownMode)
    }
}

/// Family for an `osTvType` value.
pub fn family_from_tv_type(os_tv_type: u32) -> (r: Result<TvFamily, ViClockError>)
    ensures
        r == spec_family_from_tv_type(os_tv_type),
{
    if os_tv_type == TV_TYPE_PAL {
        Ok(TvFamily::Pal)
    } else if os_tv_type == TV_TYPE_NTSC {
        Ok(TvFamily::Ntsc)
    } else if os_tv_type == TV_TYPE_MPAL {
        Ok(TvFamily::Mpal)
    } else {
        Err(ViClockError::UnknownMode)
    }
}

/// Family for a VI mode index.
pub fn family_from_mode(active_mode: u32) -> (r: Result<TvFamily, ViClockError>)
    ensures
        r == spec_family_from_mode(active_mode),
{
    if active_mode <= 13 {
        Ok(TvFamily::Ntsc)
    } else if active_mode <= 27 {
        Ok(TvFamily::Pal)
    } else if active_mode <= 41 {
        Ok(TvFamily::Mpal)
    } else {
        Err(ViClockError::UnknownMode)
    }
}

pub open spec fn spec_refresh_hz(os_tv_type: u32, active_mode: u32) -> Result<u32, ViClockError> {
    let f = if active_mode == VI_MODE_UNSET {
        spec_family_from_tv_type(os_tv_type)
    } else {
        spec_family_from_mode(active_mode)
    };
    match f {
        Ok(fam) => Ok(family_hz(fam)),
        Err(e) => Err(e),
    }
}

/// The retrace rate: from the active VI mode index when one is set, else from `osTvType`.
pub fn refresh_hz(os_tv_type: u32, active_mode: u32) -> (r: Result<u32, ViClockError>)
    ensures
        r == spec_refresh_hz(os_tv_type, active_mode),
{
    let family = if active_mode == VI_MODE_UNSET {
        match family_from_tv_type(os_tv_type) {
            Ok(f) => f,
            Err(e) => return Err(e),
        }
    } else {
        match family_from_mode(active_mode) {
            Ok(f) => f,
            Err(e) => return Err(e),
        }
    };
    Ok(family.hz())
}

/// The family code of an `osTvType` (`TV_FAMILY_UNKNOWN` when unmapped): the same mapping the
/// retrace rate uses.
pub fn tv_family_code(os_tv_type: u32) -> (r: u32)
    ensures
        r == (match spec_family_from_tv_type(os_tv_type) {
            Ok(f) => family_code(f),
            Err(_) => TV_FAMILY_UNKNOWN,
        }),
{
    match family_from_tv_type(os_tv_type) {
        Ok(f) => f.code(),
        Err(_) => TV_FAMILY_UNKNOWN,
    }
}

/// The exact deadline of retrace `tick` at `hz`, in nanoseconds from the clock epoch, floored.
pub open spec fn exact_deadline(tick: int, hz: int) -> int {
    tick * 1_000_000_000 / hz
}

/// Nanosecond deadline of retrace `tick` at `hz`, computed exactly before the final narrowing (no
/// accumulated truncation); a deadline past `u64` is truncated like the `as` cast it is.
pub fn deadline_nanos(tick: u64, hz: u32) -> (r: u64)
    requires
        hz > 0,
    ensures
        r == exact_deadline(tick as int, hz as int) as u64,
{
    let x: u128 = tick as u128 * NANOS_PER_SEC;
    (x / hz as u128) as u64
}

/// Overflow-checked deadline: `TickOverflow` when the deadline exceeds `u64` nanoseconds.
pub fn checked_deadline_nanos(tick: u64, hz: u32) -> (r: Result<u64, ViClockError>)
    requires
        hz > 0,
    ensures
        exact_deadline(tick as int, hz as int) <= u64::MAX ==> r == Ok::<u64, ViClockError>(
            exact_deadline(tick as int, hz as int) as u64,
        ),
        exact_deadline(tick as int, hz as int) > u64::MAX ==> r == Err::<u64, ViClockError>(
            ViClockError::TickOverflow,
        ),
{
    let x: u128 = tick as u128 * NANOS_PER_SEC;
    let d = x / hz as u128;
    if d > u64::MAX as u128 {
        Err(ViClockError::TickOverflow)
    } else {
        Ok(d as u64)
    }
}

/// The first tick at or past `(elapsed + 1) * hz / 1e9`, rounded up: the smallest tick whose
/// floored deadline is strictly after `elapsed`.
pub open spec fn spec_next_tick(elapsed: int, hz: int) -> int {
    ((elapsed + 1) * hz + 999_999_999) / 1_000_000_000
}

/// Smallest retrace tick whose deadline lies strictly after `now` (given the clock `epoch`): a
/// late wake coalesces to exactly one tick, never a burst of the missed ones.
pub fn next_tick_after(now: u64, epoch: u64, hz: u32) -> (r: u64)
    ensures
        r == spec_next_tick(if now >= epoch { now - epoch } else { 0 }, hz as int) as u64,
{
    let elapsed: u128 = now.saturating_sub(epoch) as u128;
    let h: u128 = hz as u128;
    assert((elapsed + 1) * h <= 0x1_0000_0000_0000_0000 * 0x1_0000_0000) by (nonlinear_arith)
        requires
            elapsed + 1 <= 0x1_0000_0000_0000_0000,
            h <= 0x1_0000_0000,
    ;
    let x: u128 = (elapsed + 1) * h;
    ((x + 999_999_999) / NANOS_PER_SEC) as u64
}

/// The larger of `current_tick + 1` and the next tick after `elapsed_nanos` (as the clock
/// narrows it to u64).
pub open spec fn spec_advance_tick(current_tick: u64, elapsed_nanos: u64, hz: u32) -> u64 {
    let next = spec_next_tick(elapsed_nanos as int, hz as int) as u64;
    if current_tick + 1 >= next {
        (current_tick + 1) as u64
    } else {
        next
    }
}

/// The tick after a wake: at least one past `current_tick`, jumped past any deadline missed while
/// asleep. One wake means one post and one advance.
pub fn advance_tick(current_tick: u64, elapsed_nanos: u64, hz: u32) -> (r: u64)
    requires
        current_tick < u64::MAX,
    ensures
        r == spec_advance_tick(current_tick, elapsed_nanos, hz),
{
    let a = current_tick + 1;
    let b = next_tick_after(elapsed_nanos, 0, hz);
    if a >= b {
        a
    } else {
        b
    }
}

/// What the retrace clock does once it has slept to a tick's deadline.
#[derive(Clone, Copy, Debug, PartialEq, Eq)]
pub enum ClockWake {
    /// A stop arrived: post nothing for this tick and end the clock.
    Stop,
    /// Post one retrace, then sleep until this tick's deadline.
    Post { next_tick: u64 },
}

/// The clock's decision on waking for `tick`: a stop seen after the sleep suppresses this tick's
/// post; otherwise post exactly once and move on to the first tick past `elapsed_nanos`.
pub fn clock_wake(tick: u64, hz: u32, stop_requested: bool, elapsed_nanos: u64) -> (r: ClockWake)
    requires
        tick < u64::MAX,
    ensures
        stop_requested ==> r == ClockWake::Stop,
        !stop_requested ==> r == (ClockWake::Post { next_tick: spec_advance_tick(tick, elapsed_nanos, hz) }),
{
    if stop_requested {
        ClockWake::Stop
    } else {
        ClockWake::Post { next_tick: advance_tick(tick, elapsed_nanos, hz) }
    }
}

/// The tick the clock schedules after a wake lies strictly after that wake, and the one before it
/// did not: no deadline is replayed as a burst and none is skipped without a post.
pub proof fn law_next_tick_is_first_strictly_after(elapsed: int, hz: int)
    requires
        elapsed >= 0,
        hz > 0,
    ensures
        exact_deadline(spec_next_tick(elapsed, hz), hz) > elapsed,
        spec_next_tick(elapsed, hz) >= 1 ==> exact_deadline(spec_next_tick(elapsed, hz) - 1, hz)
            <= elapsed,
{
    let k = spec_next_tick(elapsed, hz);
    let a = (elapsed + 1) * hz;
    assert(a >= hz) by (nonlinear_arith)
        requires
            a == (elapsed + 1) * hz,
            elapsed >= 0,
            hz > 0,
    ;
    assert(k * 1_000_000_000 >= a && (k - 1) * 1_000_000_000 < a) by (nonlinear_arith)
        requires
            k == (a + 999_999_999) / 1_000_000_000,
            a >= 1,
    ;
    assert(k * 1_000_000_000 / hz >= elapsed + 1) by (nonlinear_arith)
        requires
            k * 1_000_000_000 >= (elapsed + 1) * hz,
            hz > 0,
            elapsed >= 0,
    ;
    if k >= 1 {
        assert((k - 1) * 1_000_000_000 / hz <= elapsed) by (nonlinear_arith)
            requires
                (k - 1) * 1_000_000_000 < (elapsed + 1) * hz,
                hz > 0,
                k >= 1,
        ;
    }
}

/// The registered retrace target: post `msg` to queue `mq` every `retrace` retraces;
/// `remaining` counts down to the next post.
#[derive(Clone, Copy, Debug, PartialEq, Eq)]
pub struct ViEvent {
    pub mq: usize,
    pub msg: usize,
    pub retrace: u32,
    pub remaining: u32,
}

pub open spec fn period_of(retrace: u32) -> u32 {
    if retrace == 0 {
        1
    } else {
        retrace
    }
}

/// osViSetEvent: install the target and seed its countdown with the period (at least 1), together,
/// so a post can never pair a new queue with a stale countdown.
pub fn set_event(slot: &mut Option<ViEvent>, mq: usize, msg: usize, retrace: u32)
    ensures
        *final(slot) == Some(
            ViEvent { mq, msg, retrace: period_of(retrace), remaining: period_of(retrace) },
        ),
{
    let period = if retrace == 0 {
        1
    } else {
        retrace
    };
    *slot = Some(ViEvent { mq, msg, retrace: period, remaining: period });
}

/// One retrace: count down, and on reaching zero reload the period and post.
pub open spec fn retrace_step(ev: ViEvent) -> (ViEvent, bool) {
    let r = if ev.remaining == 0 { 0 } else { (ev.remaining - 1) as u32 };
    if r == 0 {
        (ViEvent { remaining: period_of(ev.retrace), ..ev }, true)
    } else {
        (ViEvent { remaining: r, ..ev }, false)
    }
}

/// One retrace of the clock: honor the divisor, and name the (queue, message) to post when this
/// retrace is a posting one. Nothing happens with no target registered.
pub fn post_retrace(slot: &mut Option<ViEvent>) -> (post: Option<(usize, usize)>)
    ensures
        match *old(slot) {
            None => *final(slot) is None && post is None,
            Some(ev) => {
                &&& *final(slot) == Some(retrace_step(ev).0)
                &&& post == (if retrace_step(ev).1 { Some((ev.mq, ev.msg)) } else { None })
            },
        },
{
    match slot.take() {
        None => None,
        Some(ev) => {
            let mut e = ev;
            e.remaining = e.remaining.saturating_sub(1);
            if e.remaining == 0 {
                e.remaining = if e.retrace == 0 {
                    1
                } else {
                    e.retrace
                };
                *slot = Some(e);
                Some((e.mq, e.msg))
            } else {
                *slot = Some(e);
                None
            }
        },
    }
}

/// The target after `c` retraces.
pub open spec fn after_retraces(ev: ViEvent, c: nat) -> ViEvent
    decreases c,
{
    if c == 0 {
        ev
    } else {
        retrace_step(after_retraces(ev, (c - 1) as nat)).0
    }
}

/// Whether retrace number `c` (counting from 1) posts.
pub open spec fn retrace_posts(ev: ViEvent, c: nat) -> bool {
    c >= 1 && retrace_step(after_retraces(ev, (c - 1) as nat)).1
}

/// The retrace divisor is honored exactly: after a target is registered with period `n`, the
/// retraces that post are precisely every `n`-th one (every one for `n` of 0 or 1).
pub proof fn law_retrace_divisor(ev: ViEvent, c: nat)
    requires
        ev.retrace >= 1,
        ev.remaining == ev.retrace,
        c >= 1,
    ensures
        retrace_posts(ev, c) <==> c % (ev.retrace as nat) == 0,
{
    lemma_countdown(ev, (c - 1) as nat);
    let n = ev.retrace as int;
    let j = (c - 1) as int;
    assert(c % (n as nat) == (j + 1) % n);
    assert((j % n == n - 1) <==> ((j + 1) % n == 0)) by (nonlinear_arith)
        requires
            n >= 1,
            j >= 0,
    ;
}

proof fn lemma_countdown(ev: ViEvent, c: nat)
    requires
        ev.retrace >= 1,
        ev.remaining == ev.retrace,
    ensures
        after_retraces(ev, c).remaining == ev.retrace - c % (ev.retrace as nat),
        after_retraces(ev, c).retrace == ev.retrace,
    decreases c,
{
    let n = ev.retrace as int;
    if c > 0 {
        lemma_countdown(ev, (c - 1) as nat);
        let j = (c - 1) as int;
        assert(0 <= j % n < n) by (nonlinear_arith)
            requires
                n >= 1,
        ;
        assert(j % n < n - 1 ==> (j + 1) % n == j % n + 1) by (nonlinear_arith)
            requires
                n >= 1,
                j >= 0,
        ;
        assert(j % n == n - 1 ==> (j + 1) % n == 0) by (nonlinear_arith)
            requires
                n >= 1,
                j >= 0,
        ;
        assert(c as int == j + 1);
    } else {
        assert(0nat % (ev.retrace as nat) == 0) by (nonlinear_arith)
            requires
                ev.retrace >= 1,
        ;
    }
}

/// What the retrace clock's owner must do.
#[derive(Clone, Copy, Debug, PartialEq, Eq)]
pub enum ClockAction {
    /// Nothing: the running clock already paces at this rate (or none is to be started).
    Keep,
    /// Spawn a clock at this rate.
    Start(u32),
    /// Stop and join the running clock, then spawn a fresh epoch at this rate.
    Restart(u32),
}

/// The process retrace clock's state as the decisions see it: the rate it runs at, if running.
pub struct ClockSlot {
    pub hz: Option<u32>,
}

impl ClockSlot {
    pub fn new() -> (s: ClockSlot)
        ensures
            s.hz is None,
    {
        ClockSlot { hz: None }
    }

    /// Ensure a clock runs at `hz`: a same-rate call keeps the running clock; a rate change
    /// restarts it (stopping the old one first); an idle slot starts one.
    pub fn apply_clock_rate(&mut self, hz: u32) -> (a: ClockAction)
        ensures
            final(self).hz == Some(hz),
            a == (match old(self).hz {
                Some(h) => if h == hz { ClockAction::Keep } else { ClockAction::Restart(hz) },
                None => ClockAction::Start(hz),
            }),
    {
        let a = match self.hz {
            Some(h) => if h == hz {
                ClockAction::Keep
            } else {
                ClockAction::Restart(hz)
            },
            None => ClockAction::Start(hz),
        };
        self.hz = Some(hz);
        a
    }

    /// A VI mode change re-paces a running clock only when its rate resolves; an idle clock is
    /// left for osViSetEvent to start.
    pub fn repace(&mut self, resolved: Result<u32, ViClockError>) -> (a: ClockAction)
        ensures
            match (old(self).hz, resolved) {
                (Some(h), Ok(hz)) => final(self).hz == Some(hz) && a == (if h == hz {
                    ClockAction::Keep
                } else {
                    ClockAction::Restart(hz)
                }),
                _ => final(self).hz == old(self).hz && a == ClockAction::Keep,
            },
    {
        match (self.hz, resolved) {
            (Some(_), Ok(hz)) => self.apply_clock_rate(hz),
            _ => ClockAction::Keep,
        }
    }
}

/// Stop the process retrace clock if one runs; idempotent. True when there was one to stop and
/// join.
pub fn stop_clock(slot: &mut ClockSlot) -> (stopped: bool)
    ensures
        final(slot).hz is None,
        stopped == old(slot).hz is Some,
{
    let stopped = slot.hz.is_some();
    slot.hz = None;
    stopped
}

} // verus!
