//! The actuator gateway: the one owner of the spotlight deadline and of the
//! physical device handle.
//!
//! `GateHardwareInner` is the record that the caller keeps behind its
//! exclusive/shared lock; every method here is the body of one critical
//! section. Instants and durations are milliseconds on a monotonic clock
//! supplied by the caller. The single rule that makes overlapping requests
//! safe: `turn_on_spotlight` always overwrites the deadline with its own
//! (newest request wins), and a deferred check never acts on a deadline it
//! captured earlier — it re-reads the shared one and compares it against the
//! instant at which it fires.
//!
//! Each method also appends the device operations it performs to a ghost
//! log, so contracts can state not only the resulting deadline but exactly
//! which primitives were pulsed — in particular, that a request finding the
//! light already on performs none.

use vstd::prelude::*;

verus! {

/// The raw device: three synchronous, fire-and-forget primitives. Impls are
/// supplied by the caller (a GPIO-backed device, or a mock for tests).
pub trait RawHardware: Send + Sync + 'static {
    fn unlock_gate(&mut self);

    fn turn_on_spotlight(&mut self);

    fn turn_off_spotlight(&mut self);
}

/// One invocation of a device primitive, as recorded in the ghost log.
pub enum HwOp {
    PulseUnlock,
    SpotlightOn,
    SpotlightOff,
}

/// True iff the spotlight is supposed to be on: a deadline is set,
/// regardless of its value.
pub open spec fn spec_spotlight_on(deadline: Option<u64>) -> bool {
    deadline is Some
}

/// The deadline that `turn_on_spotlight` installs: the instant of the call
/// plus the requested duration, unconditionally replacing any earlier one.
pub open spec fn spec_deadline_after_turn_on(now: u64, duration_ms: u64) -> Option<u64>
    recommends
        now + duration_ms <= u64::MAX,
{
    Some((now + duration_ms) as u64)
}

/// Whether a deferred check firing at `now` turns the spotlight off: only
/// when a deadline is set and `now` has reached it.
pub open spec fn spec_check_turns_off(deadline: Option<u64>, now: u64) -> bool {
    deadline matches Some(d) && now >= d
}

/// The synchronized record guarding the device: the handle itself and the
/// instant until which the spotlight must stay on, if any.
pub struct GateHardwareInner<T: RawHardware> {
    pub hardware: T,
    pub instant_to_turn_off: Option<u64>,
    /// Ghost log of every device primitive this record has invoked.
    pub ops: Ghost<Seq<HwOp>>,
}

impl<T: RawHardware> GateHardwareInner<T> {
    /// A fresh record: no deadline, no operation performed yet.
    pub fn new(hardware: T) -> (r: GateHardwareInner<T>)
        ensures
            r.instant_to_turn_off is None,
            r.ops@ == Seq::<HwOp>::empty(),
    {
        GateHardwareInner { hardware, instant_to_turn_off: None, ops: Ghost(Seq::empty()) }
    }

    /// True iff an unexpired on-request exists — a deadline is set. This is
    /// the authoritative answer, not a pin read.
    pub fn is_spotlight_on(&self) -> (r: bool)
        ensures
            r == spec_spotlight_on(self.instant_to_turn_off),
    {
        self.instant_to_turn_off.is_some()
    }

    /// Turn the spotlight on and keep it on for `duration_ms` from `now`:
    /// pulse the device's on-primitive and install `now + duration_ms` as
    /// the deadline, overwriting any earlier one — even a later one, so the
    /// newest request always owns the deadline. Returns the instant at which
    /// the caller must fire the matching deferred check.
    pub fn turn_on_spotlight(&mut self, now: u64, duration_ms: u64) -> (check_at: u64)
        requires
            now + duration_ms <= u64::MAX,
        ensures
            check_at == now + duration_ms,
            final(self).instant_to_turn_off == spec_deadline_after_turn_on(now, duration_ms),
            final(self).ops@ == old(self).ops@.push(HwOp::SpotlightOn),
    {
        self.hardware.turn_on_spotlight();
        let check_at = now + duration_ms;
        self.instant_to_turn_off = Some(check_at);
        self.ops = Ghost(self.ops@.push(HwOp::SpotlightOn));
        check_at
    }

    /// The deferred check, fired once per `turn_on_spotlight` call at the
    /// instant that call returned: re-read the shared deadline and, only if
    /// it is set and already reached, pulse the off-primitive and clear it.
    /// A check that finds a later deadline does nothing — the check spawned
    /// by the newer request owns the eventual turn-off.
    pub fn check_spotlight_should_be_turned_off(&mut self, now: u64) -> (turned_off: bool)
        ensures
            turned_off == spec_check_turns_off(old(self).instant_to_turn_off, now),
            final(self).instant_to_turn_off == if turned_off {
                None::<u64>
            } else {
                old(self).instant_to_turn_off
            },
            final(self).ops@ == if turned_off {
                old(self).ops@.push(HwOp::SpotlightOff)
            } else {
                old(self).ops@
            },
    {
        match self.instant_to_turn_off {
            Some(instant_to_turn_off) => {
                if now >= instant_to_turn_off {
                    self.hardware.turn_off_spotlight();
                    self.instant_to_turn_off = None;
                    self.ops = Ghost(self.ops@.push(HwOp::SpotlightOff));
                    true
                } else {
                    false
                }
            },
            None => false,
        }
    }

    /// Pulse the device's unlock primitive. Repeated calls simply repeat the
    /// pulse; the deadline is untouched.
    pub fn unlock_gate(&mut self)
        ensures
            final(self).instant_to_turn_off == old(self).instant_to_turn_off,
            final(self).ops@ == old(self).ops@.push(HwOp::PulseUnlock),
    {
        self.hardware.unlock_gate();
        self.ops = Ghost(self.ops@.push(HwOp::PulseUnlock));
    }
}

/// A device stand-in that only counts how often each primitive was pulsed.
pub struct MockHardware {
    pub unlock_calls: u64,
    pub spotlight_on_calls: u64,
    pub spotlight_off_calls: u64,
}

impl MockHardware {
    /// A mock with all counters at zero.
    pub fn new() -> (r: MockHardware)
        ensures
            r.unlock_calls == 0,
            r.spotlight_on_calls == 0,
            r.spotlight_off_calls == 0,
    {
        MockHardware { unlock_calls: 0, spotlight_on_calls: 0, spotlight_off_calls: 0 }
    }
}

impl RawHardware for MockHardware {
    fn unlock_gate(&mut self) {
        self.unlock_calls = self.unlock_calls.wrapping_add(1);
    }

    fn turn_on_spotlight(&mut self) {
        self.spotlight_on_calls = self.spotlight_on_calls.wrapping_add(1);
    }

    fn turn_off_spotlight(&mut self) {
        self.spotlight_off_calls = self.spotlight_off_calls.wrapping_add(1);
    }
}

/// Law: when two on-requests overlap and the second asks for at least as
/// long (`t1 <= t2`, `d1 <= d2`), the deadline after the second call is
/// `t2 + d2`, which the first call's deadline never exceeds; a deferred
/// check firing before `t2 + d2` — in particular the first call's own check
/// at `t1 + d1`, when that is earlier — leaves the light on, and only a
/// check at or past `t2 + d2` turns it off.
pub proof fn lemma_overlapping_requests_keep_light_until_latest(
    t1: u64,
    d1: u64,
    t2: u64,
    d2: u64,
    t: u64,
)
    requires
        t1 <= t2,
        d1 <= d2,
        t2 + d2 <= u64::MAX,
    ensures
        spec_deadline_after_turn_on(t2, d2) == Some((t2 + d2) as u64),
        t1 + d1 <= t2 + d2,
        t < t2 + d2 ==> !spec_check_turns_off(spec_deadline_after_turn_on(t2, d2), t),
        t >= t2 + d2 ==> spec_check_turns_off(spec_deadline_after_turn_on(t2, d2), t),
{
}

/// Law: a second on-request always overwrites the deadline with its own,
/// even when that moves the deadline backward (`d1 > d2` and the second
/// call arrives before `t1 + d1`): afterwards a deferred check turns the
/// light off exactly when it fires at or past `t2 + d2`, regardless of the
/// first request's longer deadline. This is deliberate: the
/// newest request wins unconditionally.
pub proof fn lemma_newest_request_wins_even_if_shorter(
    t1: u64,
    d1: u64,
    t2: u64,
    d2: u64,
    t: u64,
)
    requires
        d1 > d2,
        t1 + d1 <= u64::MAX,
        t2 + d2 <= u64::MAX,
    ensures
        spec_deadline_after_turn_on(t2, d2) == Some((t2 + d2) as u64),
        spec_check_turns_off(spec_deadline_after_turn_on(t2, d2), t) == (t >= t2 + d2),
{
}

/// Law: with no deadline the spotlight is off; immediately after an
/// on-request it is on, and a deferred check firing before the installed
/// deadline does not turn it off.
pub proof fn lemma_spotlight_lifecycle(now: u64, duration_ms: u64, t: u64)
    requires
        now + duration_ms <= u64::MAX,
    ensures
        !spec_spotlight_on(None::<u64>),
        spec_spotlight_on(spec_deadline_after_turn_on(now, duration_ms)),
        t < now + duration_ms ==> !spec_check_turns_off(
            spec_deadline_after_turn_on(now, duration_ms),
            t,
        ),
{
}

/// A new reading of the entrance-gate sensor pin, after debouncing.
#[derive(Debug, Clone, Copy, PartialEq, Eq, Structural)]
pub enum NewGateState {
    OPEN,
    CLOSED,
}

/// The state a raw pin value stands for: high is open, anything else closed.
pub open spec fn spec_state_of_pin(pin_value: u8) -> NewGateState {
    if pin_value == 1 {
        NewGateState::OPEN
    } else {
        NewGateState::CLOSED
    }
}

/// The debounce core of the entrance-gate sensor: remembers the last stable
/// state and judges whether a settled reading is a real change. The caller
/// owns the pin, blocks on its interrupts, and waits out the quiet period;
/// it hands the settled readings here.
pub struct GateOpenNoiseFilter {
    pub last_stable_state: NewGateState,
}

impl GateOpenNoiseFilter {
    /// A filter whose last known stable state is `initial_state`, the state
    /// the pin showed when listening began.
    pub fn new(initial_state: NewGateState) -> (r: GateOpenNoiseFilter)
        ensures
            r.last_stable_state == initial_state,
    {
        GateOpenNoiseFilter { last_stable_state: initial_state }
    }

    /// Map a raw pin value to the state it stands for.
    pub fn map_u8_to_state(pin_value: u8) -> (r: NewGateState)
        ensures
            r == spec_state_of_pin(pin_value),
    {
        if pin_value == 1 {
            NewGateState::OPEN
        } else {
            NewGateState::CLOSED
        }
    }

    /// Map what a bounded poll of the pin returned: a new value if one
    /// arrived within the wait, nothing otherwise.
    pub fn map_polled_value(polled: Option<u8>) -> (r: Option<NewGateState>)
        ensures
            r == match polled {
                Some(pin_value) => Some(spec_state_of_pin(pin_value)),
                None => None::<NewGateState>,
            },
    {
        match polled {
            Some(pin_value) => Some(GateOpenNoiseFilter::map_u8_to_state(pin_value)),
            None => None,
        }
    }

    /// Judge a reading that stayed quiet for the stabilization period: if it
    /// equals the last stable state, no actual change occurred and the
    /// filter is unchanged; otherwise it becomes the new stable state and is
    /// reported to the caller.
    pub fn accept_stable_state(&mut self, settled: NewGateState) -> (r: Option<NewGateState>)
        ensures
            settled == old(self).last_stable_state ==> r is None
                && final(self).last_stable_state == old(self).last_stable_state,
            settled != old(self).last_stable_state ==> r == Some(settled)
                && final(self).last_stable_state == settled,
    {
        if settled == self.last_stable_state {
            None
        } else {
            self.last_stable_state = settled;
            Some(settled)
        }
    }
}

} // verus!
