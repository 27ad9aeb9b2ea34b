//! The tick engine's state machine: one named instance owns at most one
//! running activation; starting is idempotent, stopping is idempotent, a
//! crashed activation is reaped lazily, and each tick's value, rendering and
//! fault decisions are computed here. The surrounding process performs the
//! waiting, the spawning and the sink I/O and hands the results back as
//! plain events.

use vstd::prelude::*;
use crate::clock::{clock_hours, clock_minutes, clock_seconds, SECONDS_IN_DAY};
use crate::fault::{FaultLimiter, SinkFault, window_allows};
use crate::mode::{advance_saturated, advance_value, Advance, Mode};
use crate::render::{render_timestamp, timestamp_text};

verus! {

/// One named timer instance: the persisted value object of the engine. The
/// transient activation handle (cancellation sender and completion handle)
/// lives with the caller; only the `running` flag models it here.
#[verifier::ext_equal]
pub struct CounterTimer {
    /// Stable identifier, unique among sibling instances.
    pub name: String,
    /// The counting strategy; must only change while idle.
    pub mode: Mode,
    /// Path of the sink file; empty means no sink is configured.
    pub file: String,
    /// The current value in signed seconds: the activation's start value
    /// while idle, and the last value handed back by a tick otherwise.
    pub value_seconds: i64,
    /// Whether an activation is currently recorded for this instance.
    pub running: bool,
}

/// What a fresh activation needs from its instance: the caller moves this
/// into the spawned tick loop.
pub struct ActivationStart {
    /// The counting strategy for the whole activation.
    pub mode: Mode,
    /// The value anchored at the start instant.
    pub start_value: i64,
    /// Path of the sink file; empty means skip writing.
    pub target_path: String,
}

/// The state an instance reaches when `start_counter` is called on it.
pub open spec fn start_transition(s: CounterTimer) -> CounterTimer {
    CounterTimer { running: true, ..s }
}

/// The activation `start_counter` hands out: none when one is already
/// running.
pub open spec fn start_action(s: CounterTimer) -> Option<ActivationStart> {
    if s.running {
        None
    } else {
        Some(
            ActivationStart {
                mode: s.mode,
                start_value: s.value_seconds,
                target_path: s.file,
            },
        )
    }
}

/// The state an instance reaches when `stop_counter` is called on it.
pub open spec fn stop_transition(s: CounterTimer) -> CounterTimer {
    CounterTimer { running: false, ..s }
}

/// Whether `stop_counter` signals cancellation: only when an activation was
/// recorded.
pub open spec fn stop_signals(s: CounterTimer) -> bool {
    s.running
}

/// What the caller observed of the spawned activation when polling its
/// health.
#[derive(Copy, Clone, Debug, PartialEq, Eq, Structural)]
pub enum ActivationHealth {
    /// The activation is still running.
    Running,
    /// The activation finished on its own without a fault.
    FinishedOk,
    /// The activation terminated with a panic.
    Panicked,
}

impl CounterTimer {
    /// A fresh idle instance with the default mode, no sink and value zero.
    pub fn new(name: String) -> (r: Self)
        ensures
            r.name == name,
            r.mode == Mode::Counter,
            r.file@ == Seq::<char>::empty(),
            r.value_seconds == 0,
            !r.running,
    {
        CounterTimer {
            name,
            mode: Mode::Counter,
            file: String::new(),
            value_seconds: 0,
            running: false,
        }
    }

    /// Non-blocking read of the current value.
    pub fn current_value(&self) -> (r: i64)
        ensures
            r == self.value_seconds,
    {
        self.value_seconds
    }

    /// Sets the value; only valid while the instance is idle.
    pub fn set_value(&mut self, value: i64)
        requires
            !old(self).running,
        ensures
            *final(self) == (CounterTimer { value_seconds: value, ..*old(self) }),
    {
        self.value_seconds = value;
    }

    /// Sets the counting strategy; only valid while the instance is idle.
    pub fn set_mode(&mut self, mode: Mode)
        requires
            !old(self).running,
        ensures
            *final(self) == (CounterTimer { mode, ..*old(self) }),
    {
        self.mode = mode;
    }

    /// Sets the sink path; only valid while the instance is idle. An empty
    /// path means no sink is configured.
    pub fn set_file(&mut self, file: String)
        requires
            !old(self).running,
        ensures
            *final(self) == (CounterTimer { file, ..*old(self) }),
    {
        self.file = file;
    }

    /// Begins an activation: a no-op when one is already running, otherwise
    /// it records the running flag and hands out what the activation needs.
    /// The caller anchors the start instant and spawns the tick loop.
    pub fn start_counter(&mut self) -> (r: Option<ActivationStart>)
        ensures
            old(self).running ==> *final(self) == *old(self),
            !old(self).running ==> *final(self) == start_transition(*old(self)),
            r is Some <==> !old(self).running,
            r matches Some(a) ==> a.mode == old(self).mode && a.start_value == old(
                self,
            ).value_seconds && a.target_path@ == old(self).file@,
    {
        if self.running {
            return None;
        }
        self.running = true;
        Some(
            ActivationStart {
                mode: self.mode,
                start_value: self.value_seconds,
                target_path: self.file.clone(),
            },
        )
    }

    /// Requests cancellation: clears the running flag and says whether a
    /// cancellation signal is owed. Stopping an idle instance changes
    /// nothing and signals nothing, so repeated stops are harmless.
    pub fn stop_counter(&mut self) -> (signal: bool)
        ensures
            *final(self) == stop_transition(*old(self)),
            signal == stop_signals(*old(self)),
    {
        let signal = self.running;
        self.running = false;
        signal
    }

    /// Reaps a finished activation: called opportunistically with what the
    /// caller observed of the spawned task. A crash clears the running flag
    /// so a restart is possible, and asks for exactly one fault report.
    pub fn check_counter(&mut self, health: ActivationHealth) -> (report: bool)
        ensures
            !old(self).running ==> *final(self) == *old(self) && !report,
            old(self).running && health is Running ==> *final(self) == *old(self) && !report,
            old(self).running && !(health is Running) ==> *final(self) == stop_transition(
                *old(self),
            ) && report == (health is Panicked),
    {
        if !self.running {
            return false;
        }
        match health {
            ActivationHealth::Running => false,
            ActivationHealth::FinishedOk => {
                self.running = false;
                false
            },
            ActivationHealth::Panicked => {
                self.running = false;
                true
            },
        }
    }
}

impl ActivationStart {
    /// Whether a sink is configured: an empty target path means skip
    /// writing.
    pub fn sink_configured(&self) -> (r: bool)
        ensures
            r == (self.target_path@.len() > 0),
    {
        !self.target_path.as_str().is_empty()
    }
}

/// The per-activation state the tick loop threads through its iterations.
pub struct Activation {
    /// The counting strategy, fixed for the whole activation.
    pub mode: Mode,
    /// The value anchored at the start instant.
    pub start_value: i64,
    /// Whether a sink is configured, so ticks should write.
    pub sink: bool,
    /// Rate limiting of repeated sink fault reports.
    pub limiter: FaultLimiter,
    /// Whether the activation reached its terminal saturation; no further
    /// tick is allowed after it, which bounds the limit-reached report to
    /// exactly one.
    pub finished: bool,
}

/// Everything one tick produces: the new value for the shared cell, the
/// rendered sink text, and whether this tick saturated and so ends the
/// activation.
pub struct TickOutcome {
    /// The new value, in signed seconds.
    pub value: i64,
    /// The rendered text the sink should now hold.
    pub text: String,
    /// Whether the sink should be written this tick.
    pub write_sink: bool,
    /// Whether the value reached a numeric limit: terminal, to be reported
    /// exactly once.
    pub saturated: bool,
}

impl Activation {
    /// A fresh activation; `sink` says whether a sink is configured for
    /// it, so its ticks ask for a write.
    pub fn new(mode: Mode, start_value: i64, sink: bool) -> (r: Self)
        ensures
            r.mode == mode,
            r.start_value == start_value,
            r.sink == sink,
            !r.finished,
            r.limiter.last_open is None,
            r.limiter.last_seek is None,
            r.limiter.last_write is None,
    {
        Activation { mode, start_value, sink, limiter: FaultLimiter::new(), finished: false }
    }

    /// One tick: computes the value this activation shows `elapsed_secs`
    /// whole seconds after its anchor and the text to persist.
    /// `time_of_day` is the local time in seconds past midnight; only the
    /// wall-clock mode reads it. Saturation marks the activation finished.
    pub fn on_tick(&mut self, elapsed_secs: u64, time_of_day: u64) -> (o: TickOutcome)
        requires
            !old(self).finished,
            time_of_day < SECONDS_IN_DAY,
        ensures
            o.value == advance_value(
                old(self).mode,
                old(self).start_value as int,
                elapsed_secs as nat,
                time_of_day as int,
            ),
            o.saturated == advance_saturated(
                old(self).mode,
                old(self).start_value as int,
                elapsed_secs as nat,
            ),
            o.text@ == timestamp_text(
                clock_hours(o.value as int),
                clock_minutes(o.value as int),
                clock_seconds(o.value as int),
                o.value < 0,
            ),
            o.write_sink == old(self).sink,
            final(self).finished == o.saturated,
            final(self).mode == old(self).mode,
            final(self).start_value == old(self).start_value,
            final(self).sink == old(self).sink,
            final(self).limiter == old(self).limiter,
    {
        let adv: Advance = self.mode.get_timestamp(self.start_value, elapsed_secs, time_of_day);
        let text = render_timestamp(adv.hours, adv.minutes, adv.seconds, adv.negative);
        if adv.saturated {
            self.finished = true;
        }
        TickOutcome { value: adv.value, text, write_sink: self.sink, saturated: adv.saturated }
    }

    /// Decides whether a sink fault observed `now_secs` seconds after the
    /// anchor gets a report; repeated identical faults inside the
    /// notification window are suppressed.
    pub fn note_sink_fault(&mut self, kind: SinkFault, now_secs: u64) -> (granted: bool)
        ensures
            granted == window_allows(old(self).limiter.last_of(kind), now_secs as int),
            granted ==> final(self).limiter.last_of(kind) == Some(now_secs),
            !granted ==> final(self).limiter.last_of(kind) == old(self).limiter.last_of(kind),
            forall|other: SinkFault|
                other != kind ==> final(self).limiter.last_of(other) == old(self).limiter.last_of(
                    other,
                ),
            final(self).mode == old(self).mode,
            final(self).start_value == old(self).start_value,
            final(self).sink == old(self).sink,
            final(self).finished == old(self).finished,
    {
        self.limiter.should_report(kind, now_secs)
    }
}

/// Stopping is idempotent: a second stop changes nothing and signals
/// nothing, and stopping an idle instance is already a no-op.
pub proof fn lemma_stop_idempotent(s: CounterTimer)
    ensures
        stop_transition(stop_transition(s)) == stop_transition(s),
        !stop_signals(stop_transition(s)),
        !s.running ==> stop_transition(s) == s,
{
    assert(stop_transition(stop_transition(s)) =~= stop_transition(s));
    if !s.running {
        assert(stop_transition(s) =~= s);
    }
}

/// Starting an already-running instance is a no-op: no fresh activation is
/// handed out, so there is no double-anchoring and no duplicate sink
/// writer, and the recorded state does not change.
pub proof fn lemma_start_when_running(s: CounterTimer)
    requires
        s.running,
    ensures
        start_action(s) is None,
        start_transition(s) == s,
{
    assert(start_transition(s) =~= s);
}

} // verus!
