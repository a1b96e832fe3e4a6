//! The liveness watchdog: it expects a token from the control loop within
//! every window and halts for good when one fails to come.
use crate::tools::{after_arrival, all_closed, StateWait};
use vstd::prelude::*;
use vstd::std_specs::cmp::PartialEqSpecImpl;

verus! {

/// Length of the window within which the awaited tokens must arrive, in
/// milliseconds.
pub const WATCHDOG_WINDOW_MS: u64 = 1000;

/// The liveness tokens the watchdog knows.
#[derive(Clone, Copy, Debug)]
pub enum SyncWdStateEnum {
    HeatTask,
}

impl PartialEq for SyncWdStateEnum {
    fn eq(&self, other: &Self) -> (r: bool) {
        match (*self, *other) {
            (SyncWdStateEnum::HeatTask, SyncWdStateEnum::HeatTask) => true,
        }
    }
}

impl PartialEqSpecImpl for SyncWdStateEnum {
    open spec fn obeys_eq_spec() -> bool {
        true
    }

    open spec fn eq_spec(&self, other: &Self) -> bool {
        *self == *other
    }
}

/// What the caller has to do after an event.
#[derive(Clone, Copy, Debug, PartialEq, Eq, Structural)]
pub enum WdAction {
    /// Go on waiting in the running window.
    Wait,
    /// All tokens came in time: toggle the heartbeat and start a new window.
    Toggle,
    /// The window ran out: halt the system.
    Halt,
    /// The watchdog has halted before; nothing is left to do.
    Stopped,
}

/// What the watchdog remembers.
pub struct WatchdogState {
    /// Start of the running window.
    pub window_start_ms: u64,
    /// Whether the heartbeat indicator is lit.
    pub led_on: bool,
    /// Whether the watchdog has halted.
    pub halted: bool,
    /// For each awaited token, whether it is still to come in this window.
    pub open: Seq<bool>,
}

/// The tokens awaited in every window.
pub open spec fn awaited_tokens() -> Seq<SyncWdStateEnum> {
    seq![SyncWdStateEnum::HeatTask]
}

impl WatchdogState {
    /// The window that started at `window_start_ms` has run out at `now_ms`
    /// for a token, which is still accepted at the last millisecond.
    pub open spec fn late(self, now_ms: u64) -> bool {
        now_ms - self.window_start_ms > WATCHDOG_WINDOW_MS
    }

    /// The window has run out at `now_ms` for the timer.
    pub open spec fn expired(self, now_ms: u64) -> bool {
        now_ms - self.window_start_ms >= WATCHDOG_WINDOW_MS
    }

    /// The action that the arrival of `token` at `now_ms` calls for.
    pub open spec fn token_action(self, now_ms: u64, token: SyncWdStateEnum) -> WdAction {
        if self.halted {
            WdAction::Stopped
        } else if self.late(now_ms) {
            WdAction::Halt
        } else if all_closed(after_arrival(awaited_tokens(), self.open, token)) {
            WdAction::Toggle
        } else {
            WdAction::Wait
        }
    }

    /// The state after the arrival of `token` at `now_ms`.
    pub open spec fn after_token(self, now_ms: u64, token: SyncWdStateEnum) -> WatchdogState {
        match self.token_action(now_ms, token) {
            WdAction::Stopped => self,
            WdAction::Halt => WatchdogState { halted: true, ..self },
            WdAction::Toggle => WatchdogState {
                window_start_ms: now_ms,
                led_on: !self.led_on,
                halted: false,
                open: seq![true],
            },
            WdAction::Wait => WatchdogState {
                open: after_arrival(awaited_tokens(), self.open, token),
                ..self
            },
        }
    }

    /// The action that the timer calls for at `now_ms`.
    pub open spec fn timer_action(self, now_ms: u64) -> WdAction {
        if self.halted {
            WdAction::Stopped
        } else if self.expired(now_ms) {
            WdAction::Halt
        } else {
            WdAction::Wait
        }
    }

    /// The state after the timer has fired at `now_ms`.
    pub open spec fn after_timer(self, now_ms: u64) -> WatchdogState {
        if self.timer_action(now_ms) == WdAction::Halt {
            WatchdogState { halted: true, ..self }
        } else {
            self
        }
    }

    /// The state after tokens of the control loop have arrived at each of
    /// `times`, in that order.
    pub open spec fn after_tokens(self, times: Seq<u64>) -> WatchdogState
        decreases times.len(),
    {
        if times.len() == 0 {
            self
        } else {
            self.after_token(times[0], SyncWdStateEnum::HeatTask).after_tokens(times.skip(1))
        }
    }
}

/// The liveness watchdog.
pub struct Watchdog {
    wait: StateWait<SyncWdStateEnum, 1>,
    window_start_ms: u64,
    led_on: bool,
    halted: bool,
}

impl View for Watchdog {
    type V = WatchdogState;

    closed spec fn view(&self) -> WatchdogState {
        WatchdogState {
            window_start_ms: self.window_start_ms,
            led_on: self.led_on,
            halted: self.halted,
            open: self.wait.open(),
        }
    }
}

/// A fresh wait for the tokens of one window.
fn new_window() -> (r: StateWait<SyncWdStateEnum, 1>)
    ensures
        r.states() == awaited_tokens(),
        r.open() == seq![true],
{
    let r = StateWait::new([SyncWdStateEnum::HeatTask]);
    assert(r.states() =~= awaited_tokens());
    assert(r.open()[0]);
    assert(r.open() =~= seq![true]);
    r
}

impl Watchdog {
    /// A watchdog whose first window starts at `now_ms`, with the heartbeat
    /// indicator dark.
    pub fn new(now_ms: u64) -> (r: Self)
        ensures
            r@ == (WatchdogState {
                window_start_ms: now_ms,
                led_on: false,
                halted: false,
                open: seq![true],
            }),
    {
        Watchdog { wait: new_window(), window_start_ms: now_ms, led_on: false, halted: false }
    }

    /// Whether the heartbeat indicator is lit.
    pub fn led_on(&self) -> (r: bool)
        ensures
            r == self@.led_on,
    {
        self.led_on
    }

    /// Whether the watchdog has halted.
    pub fn is_halted(&self) -> (r: bool)
        ensures
            r == self@.halted,
    {
        self.halted
    }

    /// A token has arrived at `now_ms`.
    pub fn on_token(&mut self, now_ms: u64, token: SyncWdStateEnum) -> (r: WdAction)
        ensures
            r == old(self)@.token_action(now_ms, token),
            final(self)@ == old(self)@.after_token(now_ms, token),
    {
        if self.halted {
            return WdAction::Stopped;
        }
        if now_ms > self.window_start_ms && now_ms - self.window_start_ms > WATCHDOG_WINDOW_MS {
            self.halted = true;
            return WdAction::Halt;
        }
        proof {
            // There is one token, so the one message awaited is that token.
            self.wait.lemma_lengths();
            assert(self.wait.states() =~= awaited_tokens());
        }
        let done: bool = self.wait.observe(&token);
        if done {
            self.wait = new_window();
            self.window_start_ms = now_ms;
            self.led_on = !self.led_on;
            WdAction::Toggle
        } else {
            WdAction::Wait
        }
    }

    /// The timer has fired at `now_ms`.
    pub fn on_timer(&mut self, now_ms: u64) -> (r: WdAction)
        ensures
            r == old(self)@.timer_action(now_ms),
            final(self)@ == old(self)@.after_timer(now_ms),
    {
        if self.halted {
            return WdAction::Stopped;
        }
        if now_ms >= self.window_start_ms && now_ms - self.window_start_ms >= WATCHDOG_WINDOW_MS {
            self.halted = true;
            return WdAction::Halt;
        }
        WdAction::Wait
    }
}

/// A token of the control loop that arrives within the window is answered by
/// a toggle of the heartbeat and opens a new window at its arrival.
pub proof fn lemma_token_in_time(w: WatchdogState, now_ms: u64)
    requires
        !w.halted,
        w.open == seq![true],
        now_ms - w.window_start_ms <= WATCHDOG_WINDOW_MS,
    ensures
        w.token_action(now_ms, SyncWdStateEnum::HeatTask) == WdAction::Toggle,
        w.after_token(now_ms, SyncWdStateEnum::HeatTask) == (WatchdogState {
            window_start_ms: now_ms,
            led_on: !w.led_on,
            halted: false,
            open: seq![true],
        }),
{
    let states = awaited_tokens();
    crate::tools::lemma_first_open_match_unique(states, w.open, SyncWdStateEnum::HeatTask, 0);
    let closed = after_arrival(states, w.open, SyncWdStateEnum::HeatTask);
    assert(closed =~= seq![false]);
}

/// Tokens that follow each other by no more than the window, the first of
/// them the start of the running window, never let the watchdog halt: so a
/// token every 500 ms keeps it alive for ever.
pub proof fn lemma_regular_tokens_never_halt(w: WatchdogState, times: Seq<u64>)
    requires
        !w.halted,
        w.open == seq![true],
        times.len() > 0 ==> w.window_start_ms <= times[0] && times[0] - w.window_start_ms
            <= WATCHDOG_WINDOW_MS,
        forall|i: int|
            0 < i < times.len() ==> times[i - 1] <= #[trigger] times[i] && times[i] - times[i - 1]
                <= WATCHDOG_WINDOW_MS,
    ensures
        !w.after_tokens(times).halted,
        w.after_tokens(times).open == seq![true],
    decreases times.len(),
{
    if times.len() > 0 {
        lemma_token_in_time(w, times[0]);
        let next = w.after_token(times[0], SyncWdStateEnum::HeatTask);
        let rest = times.skip(1);
        assert forall|i: int| 0 < i < rest.len() implies rest[i - 1] <= #[trigger] rest[i]
            && rest[i] - rest[i - 1] <= WATCHDOG_WINDOW_MS by {
            assert(rest[i] == times[i + 1]);
            assert(rest[i - 1] == times[i + 1 - 1]);
        }
        if rest.len() > 0 {
            assert(rest[0] == times[1]);
            assert(times[1 - 1] <= times[1]);
        }
        lemma_regular_tokens_never_halt(next, rest);
    }
}

/// When the window runs out without its tokens the timer halts the
/// watchdog, and a token that comes after the window does so too. The halt
/// is reported once: every later event is answered with `Stopped` and
/// changes nothing.
pub proof fn lemma_missing_token_halts_once(
    w: WatchdogState,
    now_ms: u64,
    later_ms: u64,
    token: SyncWdStateEnum,
)
    requires
        !w.halted,
        now_ms - w.window_start_ms > WATCHDOG_WINDOW_MS,
    ensures
        w.timer_action(now_ms) == WdAction::Halt,
        w.token_action(now_ms, token) == WdAction::Halt,
        w.after_timer(now_ms).halted,
        w.after_token(now_ms, token).halted,
        w.after_timer(now_ms).timer_action(later_ms) == WdAction::Stopped,
        w.after_timer(now_ms).token_action(later_ms, token) == WdAction::Stopped,
        w.after_timer(now_ms).after_timer(later_ms) == w.after_timer(now_ms),
        w.after_timer(now_ms).after_token(later_ms, token) == w.after_timer(now_ms),
{
}

} // verus!
