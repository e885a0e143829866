use vstd::prelude::*;

verus! {

/// Longest single wait for records inside a poll, in milliseconds.
pub const TICK_MS: u64 = 100;

/// Wall-clock budget of one poll made by the tail endpoint, in milliseconds.
pub const POLL_TIMEOUT_MS: u64 = 3000;

/// Most records that one poll made by the tail endpoint returns.
pub const POLL_MAX_RECORDS: usize = 100;

/// Period of the idle sweep, in milliseconds.
pub const SWEEP_PERIOD_MS: u64 = 10000;

/// How long a session may go unpolled before the sweep drops it, in milliseconds.
pub const IDLE_THRESHOLD_MS: u64 = 20000;

/// A session last accessed at `last` is idle at `now` when at least
/// `threshold` has passed since.
pub open spec fn idle(last: int, now: int, threshold: int) -> bool {
    now - last >= threshold
}

/// Whether a poll that began `elapsed` ago, holds `collected` records and has
/// had `empty_ticks` ticks that gave no record goes on with another tick: it
/// goes on until the timeout or the record budget. The count of empty ticks
/// only bounds the loop for termination; a tick takes real time, so no poll
/// comes near `u64::MAX` of them, and failed reads never end a poll early.
pub open spec fn poll_goes_on(
    elapsed: int,
    timeout: int,
    collected: int,
    max: int,
    empty_ticks: int,
) -> bool {
    elapsed < timeout && collected < max && empty_ticks < u64::MAX
}

/// Decides whether a session last accessed at `last` is idle at `now`.
pub fn is_idle(last: u64, now: u64, threshold: u64) -> (r: bool)
    ensures
        r == idle(last as int, now as int, threshold as int),
{
    now >= last && now - last >= threshold
}

/// Decides whether a poll goes on with another tick.
pub fn poll_continues(
    elapsed: u64,
    timeout: u64,
    collected: usize,
    max: usize,
    empty_ticks: u64,
) -> (r: bool)
    ensures
        r == poll_goes_on(
            elapsed as int,
            timeout as int,
            collected as int,
            max as int,
            empty_ticks as int,
        ),
{
    elapsed < timeout && collected < max && empty_ticks < u64::MAX
}

/// When the poll decision lets another tick start, that tick starts before
/// the timeout, so a tick of at most `TICK_MS` that starts then ends before
/// `timeout + TICK_MS`; and the record it may add keeps the count within `max`.
pub proof fn lemma_poll_budget(
    elapsed: int,
    timeout: int,
    collected: int,
    max: int,
    empty_ticks: int,
)
    requires
        poll_goes_on(elapsed, timeout, collected, max, empty_ticks),
    ensures
        elapsed + TICK_MS < timeout + TICK_MS,
        collected + 1 <= max,
{
}

/// A session whose poll started at `start` is not dropped by a sweep at `now`
/// while that poll still runs, provided the idle threshold is at least the
/// longest a poll can take: its last access is at least `start`, as a poll
/// refreshes it first and it never goes back.
pub proof fn lemma_no_eviction_during_poll(
    start: int,
    last: int,
    now: int,
    timeout: int,
    threshold: int,
)
    requires
        start <= last,
        now < start + timeout + TICK_MS,
        threshold >= timeout + TICK_MS,
    ensures
        !idle(last, now, threshold),
{
}

/// The default idle threshold exceeds the poll timeout plus one tick plus one
/// sweep period, so the defaults meet what `lemma_no_eviction_during_poll` asks.
pub proof fn lemma_default_settings_are_safe()
    ensures
        IDLE_THRESHOLD_MS > POLL_TIMEOUT_MS + TICK_MS + SWEEP_PERIOD_MS,
{
}

/// A session left unpolled for longer than the threshold is idle at every
/// later sweep, and so is gone after the first sweep at or past that time;
/// with a sweep every `period`, that sweep comes at most `period` later.
pub proof fn lemma_idle_stays_idle(last: int, now: int, later: int, threshold: int)
    requires
        idle(last, now, threshold),
        now <= later,
    ensures
        idle(last, later, threshold),
{
}

/// A session that is not idle at a later sweep was not idle at any earlier
/// one either, so with no access in between it survives every sweep up to
/// that later one.
pub proof fn lemma_fresh_survives_earlier_sweeps(last: int, now: int, later: int, threshold: int)
    requires
        !idle(last, later, threshold),
        now <= later,
    ensures
        !idle(last, now, threshold),
{
}

} // verus!
