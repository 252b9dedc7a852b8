//! The press-and-hold timer: its phases, one tick of its transition rule,
//! and what runs of ticks do.
//!
//! A terminal reports repeated key presses while a key is held, never a
//! release; a release is inferred once more than `RELEASE_TICKS` ticks pass
//! without a press.

use vstd::prelude::*;

verus! {

/// Ticks that a fresh countdown starts from.
pub const COUNTDOWN_START: i32 = 1500;

/// Ticks without a press that still count as the key being held.
pub const RELEASE_TICKS: u32 = 60;

#[derive(Clone, Copy, Debug, PartialEq, Eq, Structural)]
pub enum TimerStatus {
    Paused,
    CountingDown,
    CountingUp,
}

/// The timer's state: its phase, its count of ticks, and how many ticks in
/// a row have passed without a press.
pub ghost struct TimerView {
    pub status: TimerStatus,
    pub time: int,
    pub silent_ticks: nat,
}

pub open spec fn initial_timer() -> TimerView {
    TimerView { status: TimerStatus::Paused, time: 0, silent_ticks: 0 }
}

/// The count after one tick in the given phase.
pub open spec fn counted(status: TimerStatus, time: int) -> int {
    match status {
        TimerStatus::CountingDown => time - 1,
        TimerStatus::CountingUp => time + 1,
        TimerStatus::Paused => time,
    }
}

/// One tick: the count moves with the phase; a press clears the silent run
/// and, on a paused timer with no run in progress, starts the countdown; a
/// tick without a press during the countdown lengthens the silent run, and
/// once that run is longer than `RELEASE_TICKS` the timer counts up from 0.
pub open spec fn timer_step(t: TimerView, key: bool) -> TimerView {
    let time = counted(t.status, t.time);
    if key {
        if t.status == TimerStatus::Paused && t.silent_ticks == 0 {
            TimerView {
                status: TimerStatus::CountingDown,
                time: COUNTDOWN_START as int,
                silent_ticks: 0,
            }
        } else {
            TimerView { status: t.status, time, silent_ticks: 0 }
        }
    } else if t.status != TimerStatus::CountingDown {
        TimerView { status: t.status, time, silent_ticks: t.silent_ticks }
    } else if t.silent_ticks + 1 > RELEASE_TICKS {
        TimerView { status: TimerStatus::CountingUp, time: 0, silent_ticks: 0 }
    } else {
        TimerView { status: t.status, time, silent_ticks: t.silent_ticks + 1 }
    }
}

/// The tick's arithmetic stays within the machine counters (`i32` count,
/// `u32` silent run).
pub open spec fn step_fits(t: TimerView) -> bool {
    match t.status {
        TimerStatus::CountingDown => t.time - 1 >= i32::MIN && t.silent_ticks + 1 <= u32::MAX,
        TimerStatus::CountingUp => t.time + 1 <= i32::MAX,
        TimerStatus::Paused => true,
    }
}

/// The silent run never exceeds `RELEASE_TICKS` and is empty outside the
/// countdown.
pub open spec fn timer_wf(t: TimerView) -> bool {
    &&& t.silent_ticks <= RELEASE_TICKS
    &&& (t.status != TimerStatus::CountingDown ==> t.silent_ticks == 0)
}

/// The state after one tick for each entry of `keys`, in order; an entry
/// says whether the key was pressed during that tick.
pub open spec fn run_ticks(t: TimerView, keys: Seq<bool>) -> TimerView
    decreases keys.len(),
{
    if keys.len() == 0 {
        t
    } else {
        timer_step(run_ticks(t, keys.drop_last()), keys.last())
    }
}

/// `k` ticks without a press.
pub open spec fn silent(k: nat) -> Seq<bool> {
    Seq::new(k, |i: int| false)
}

/// A tick keeps the timer well formed.
pub proof fn lemma_step_keeps_wf(t: TimerView, key: bool)
    requires
        timer_wf(t),
    ensures
        timer_wf(timer_step(t, key)),
{
}

/// Running two sequences of ticks one after the other is running them joined.
pub proof fn lemma_run_append(t: TimerView, a: Seq<bool>, b: Seq<bool>)
    ensures
        run_ticks(t, a + b) == run_ticks(run_ticks(t, a), b),
    decreases b.len(),
{
    if b.len() > 0 {
        assert((a + b).drop_last() =~= a + b.drop_last());
        lemma_run_append(t, a, b.drop_last());
    } else {
        assert(a + b =~= a);
    }
}

/// A press on a paused timer with no silent run starts the countdown from
/// `COUNTDOWN_START`.
pub proof fn lemma_press_starts_countdown(t: TimerView)
    requires
        t.status == TimerStatus::Paused,
        t.silent_ticks == 0,
    ensures
        timer_step(t, true) == (TimerView {
            status: TimerStatus::CountingDown,
            time: COUNTDOWN_START as int,
            silent_ticks: 0,
        }),
{
}

/// One tick of the countdown: without a press, the count goes down and the
/// silent run grows while it stays within `RELEASE_TICKS`, and the tick
/// that takes it beyond counts up from 0; with a press, the count goes down
/// and the silent run is cleared.
pub proof fn lemma_countdown_tick(t: TimerView)
    requires
        t.status == TimerStatus::CountingDown,
        t.silent_ticks <= RELEASE_TICKS,
    ensures
        t.silent_ticks < RELEASE_TICKS ==> timer_step(t, false) == (TimerView {
            status: TimerStatus::CountingDown,
            time: t.time - 1,
            silent_ticks: t.silent_ticks + 1,
        }),
        t.silent_ticks == RELEASE_TICKS ==> timer_step(t, false) == (TimerView {
            status: TimerStatus::CountingUp,
            time: 0,
            silent_ticks: 0,
        }),
        timer_step(t, true) == (TimerView {
            status: TimerStatus::CountingDown,
            time: t.time - 1,
            silent_ticks: 0,
        }),
{
}

/// During the countdown, up to `RELEASE_TICKS` ticks without a press in all
/// keep counting down and lengthen the silent run.
pub proof fn lemma_silent_countdown(t: TimerView, k: nat)
    requires
        t.status == TimerStatus::CountingDown,
        t.silent_ticks + k <= RELEASE_TICKS,
    ensures
        run_ticks(t, silent(k)) == (TimerView {
            status: TimerStatus::CountingDown,
            time: t.time - k,
            silent_ticks: t.silent_ticks + k,
        }),
    decreases k,
{
    if k > 0 {
        assert(silent(k).drop_last() =~= silent((k - 1) as nat));
        lemma_silent_countdown(t, (k - 1) as nat);
    }
}

/// From a countdown with no silent run, `RELEASE_TICKS` ticks without a
/// press leave it counting down `RELEASE_TICKS` lower; one tick more without
/// a press takes the key as released and counts up from 0.
pub proof fn lemma_release_after_silence(t: TimerView)
    requires
        t.status == TimerStatus::CountingDown,
        t.silent_ticks == 0,
    ensures
        run_ticks(t, silent(RELEASE_TICKS as nat)) == (TimerView {
            status: TimerStatus::CountingDown,
            time: t.time - RELEASE_TICKS,
            silent_ticks: RELEASE_TICKS as nat,
        }),
        run_ticks(t, silent(RELEASE_TICKS as nat + 1)) == (TimerView {
            status: TimerStatus::CountingUp,
            time: 0,
            silent_ticks: 0,
        }),
{
    lemma_silent_countdown(t, RELEASE_TICKS as nat);
    assert(silent(RELEASE_TICKS as nat + 1).drop_last() =~= silent(RELEASE_TICKS as nat));
}

/// During the countdown, a press after `k` ticks without one, before the
/// release is inferred, clears the silent run and keeps counting down; the
/// ticks without a press that follow count down from there.
pub proof fn lemma_press_renews_hold(t: TimerView, k: nat, m: nat)
    requires
        t.status == TimerStatus::CountingDown,
        t.silent_ticks == 0,
        k <= RELEASE_TICKS,
        m <= RELEASE_TICKS,
    ensures
        run_ticks(t, silent(k).push(true)) == (TimerView {
            status: TimerStatus::CountingDown,
            time: t.time - k - 1,
            silent_ticks: 0,
        }),
        run_ticks(t, silent(k).push(true) + silent(m)) == (TimerView {
            status: TimerStatus::CountingDown,
            time: t.time - k - 1 - m,
            silent_ticks: m,
        }),
{
    lemma_silent_countdown(t, k);
    assert(silent(k).push(true).drop_last() =~= silent(k));
    let held = run_ticks(t, silent(k).push(true));
    lemma_run_append(t, silent(k).push(true), silent(m));
    lemma_silent_countdown(held, m);
}

} // verus!
