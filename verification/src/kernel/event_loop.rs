//! Decisions of the kernel's main loop.
//!
//! Each pass of the loop reads the touch controller, reacts to the event
//! and then checks whether the system has been idle long enough to drop to
//! the economical performance mode. The caller performs the display, serial
//! and power-manager work that the returned action asks for.
use vstd::prelude::*;
use crate::arch::aarch64::get_timer_value;
use crate::drivers::touch::TouchEvent;

verus! {

/// Timer ticks without a press after which the loop asks for economy mode.
pub const IDLE_TICKS: u64 = 1_000_000;

/// Every this many presses the loop asks for full performance.
pub const PERFORMANCE_EVERY: u32 = 5;

/// What the loop remembers between passes.
#[derive(Debug, Clone, Copy, PartialEq, Eq, Structural)]
pub struct LoopState {
    /// Presses seen so far.
    pub touch_count: u32,
    /// Timer value read at the last press.
    pub last_touch_time: u64,
}

/// Feedback shown for a press.
#[derive(Debug, Clone, Copy, PartialEq, Eq, Structural)]
pub struct PressFeedback {
    /// Number of this press (1 for the first).
    pub touch_number: u32,
    pub x: i32,
    pub y: i32,
    /// Switch to full performance (otherwise to economy).
    pub performance: bool,
}

/// What the caller does after one pass.
#[derive(Debug, Clone, Copy)]
pub struct LoopAction {
    /// Show press feedback and set the performance mode it names.
    pub press: Option<PressFeedback>,
    /// Log a release at these coordinates.
    pub release: Option<(i32, i32)>,
    /// Switch to economy mode because no press came for too long.
    pub idle_eco: bool,
}

impl LoopState {
    /// No presses yet, last press at time 0.
    pub fn new() -> (r: Self)
        ensures
            r.touch_count == 0,
            r.last_touch_time == 0,
    {
        LoopState { touch_count: 0, last_touch_time: 0 }
    }
}

/// The state after `event` when the first timer read of the pass gives `now`.
pub open spec fn state_after(s: LoopState, event: TouchEvent, now: u64) -> LoopState {
    match event {
        TouchEvent::Press(_, _) => LoopState { touch_count: (s.touch_count + 1) as u32, last_touch_time: now },
        _ => s,
    }
}

/// The timer value the idle check reads after `event` (a press reads the
/// timer once before it).
pub open spec fn idle_check_time(event: TouchEvent, now: u64) -> int {
    if event is Press {
        now + 1
    } else {
        now as int
    }
}

/// One pass of the main loop for `event`, reading the demo timer: a press
/// is counted, time-stamped and answered with feedback (full performance on
/// every fifth press), a release is logged, and economy mode is asked for
/// once more than `IDLE_TICKS` ticks have passed since the last press.
pub fn loop_step(state: &mut LoopState, timer: &mut u64, event: TouchEvent) -> (a: LoopAction)
    requires
        old(state).last_touch_time <= *old(timer),
        *old(timer) < u64::MAX - 1,
        event is Press ==> old(state).touch_count < u32::MAX,
    ensures
        *final(state) == state_after(*old(state), event, *old(timer)),
        *final(timer) == idle_check_time(event, *old(timer)) + 1,
        final(state).last_touch_time <= *final(timer),
        a.press == (match event {
            TouchEvent::Press(x, y) => Some(
                PressFeedback {
                    touch_number: final(state).touch_count,
                    x,
                    y,
                    performance: final(state).touch_count % PERFORMANCE_EVERY == 0,
                },
            ),
            _ => None,
        }),
        a.release == (match event {
            TouchEvent::Release(x, y) => Some((x, y)),
            _ => None,
        }),
        a.idle_eco == (idle_check_time(event, *old(timer)) - final(state).last_touch_time > IDLE_TICKS),
{
    let mut press: Option<PressFeedback> = None;
    let mut release: Option<(i32, i32)> = None;
    match event {
        TouchEvent::Press(x, y) => {
            state.touch_count = state.touch_count + 1;
            state.last_touch_time = get_timer_value(timer);
            press = Some(
                PressFeedback {
                    touch_number: state.touch_count,
                    x,
                    y,
                    performance: state.touch_count % PERFORMANCE_EVERY == 0,
                },
            );
        },
        TouchEvent::Release(x, y) => {
            release = Some((x, y));
        },
        _ => {},
    }
    let now = get_timer_value(timer);
    let idle_eco = now - state.last_touch_time > IDLE_TICKS;
    LoopAction { press, release, idle_eco }
}

/// A press is counted and never followed by an economy request in the
/// same pass.
pub proof fn law_press_never_idles(s: LoopState, x: i32, y: i32, now: u64)
    requires
        now < u64::MAX - 1,
        s.touch_count < u32::MAX,
    ensures
        idle_check_time(TouchEvent::Press(x, y), now) - state_after(s, TouchEvent::Press(x, y), now).last_touch_time
            <= IDLE_TICKS,
        state_after(s, TouchEvent::Press(x, y), now).touch_count == s.touch_count + 1,
{
}

/// Events other than presses leave the loop state alone.
pub proof fn law_only_presses_change_state(s: LoopState, event: TouchEvent, now: u64)
    requires
        !(event is Press),
    ensures
        state_after(s, event, now) == s,
{
}

} // verus!
