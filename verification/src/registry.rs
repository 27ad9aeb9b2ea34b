//! The set of named timer instances the engine control surface operates on.
//! Names are the lookup keys and stay unique; adding a taken name is the one
//! misuse reported back synchronously. Each operation addresses one instance
//! by name and leaves every other instance untouched.

use vstd::prelude::*;
use crate::engine::{stop_transition, ActivationHealth, ActivationStart, CounterTimer};
use crate::mode::Mode;

verus! {

/// All named instances, in creation order.
pub struct Registry {
    /// The instances; their names are pairwise distinct whenever `wf`
    /// holds.
    pub timers: Vec<CounterTimer>,
}

impl Registry {
    /// Well-formed: the names are pairwise distinct, so a name addresses at
    /// most one instance.
    pub open spec fn wf(self) -> bool {
        forall|i: int, j: int|
            0 <= i < j < self.timers@.len() ==> self.timers@[i].name@ != self.timers@[j].name@
    }

    /// Whether some instance carries `name`.
    pub open spec fn has_name(self, name: Seq<char>) -> bool {
        exists|i: int| 0 <= i < self.timers@.len() && self.timers@[i].name@ == name
    }

    /// An empty registry.
    pub fn new() -> (r: Self)
        ensures
            r.wf(),
            r.timers@.len() == 0,
    {
        Registry { timers: Vec::new() }
    }

    /// Finds the instance carrying `name`, if any.
    pub fn find(&self, name: &String) -> (r: Option<usize>)
        requires
            self.wf(),
        ensures
            match r {
                Some(i) => i < self.timers@.len() && self.timers@[i as int].name@ == name@,
                None => !self.has_name(name@),
            },
    {
        let mut i: usize = 0;
        while i < self.timers.len()
            invariant
                i <= self.timers@.len(),
                forall|k: int| 0 <= k < i ==> self.timers@[k].name@ != name@,
            decreases self.timers@.len() - i,
        {
            if self.timers[i].name == *name {
                return Some(i);
            }
            i += 1;
        }
        None
    }

    /// Adds a fresh idle instance under `name`. A taken name is refused:
    /// the registry is unchanged and the collision is reported back to the
    /// caller by the `false` result.
    pub fn add(&mut self, name: String) -> (ok: bool)
        requires
            old(self).wf(),
        ensures
            final(self).wf(),
            ok == !old(self).has_name(name@),
            !ok ==> *final(self) == *old(self),
            ok ==> final(self).timers@.len() == old(self).timers@.len() + 1,
            ok ==> forall|k: int|
                0 <= k < old(self).timers@.len() ==> final(self).timers@[k] == old(self).timers@[k],
            ok ==> {
                let t = final(self).timers@.last();
                t.name@ == name@ && t.mode == Mode::Counter && t.file@ == Seq::<char>::empty()
                    && t.value_seconds == 0 && !t.running
            },
    {
        if self.find(&name).is_some() {
            return false;
        }
        let fresh = CounterTimer::new(name);
        self.timers.push(fresh);
        proof {
            assert forall|i: int, j: int| 0 <= i < j < self.timers@.len() implies self.timers@[i].name@
                != self.timers@[j].name@ by {
                if j < self.timers@.len() - 1 {
                    assert(old(self).timers@[i].name@ != old(self).timers@[j].name@);
                } else {
                    assert(!old(self).has_name(self.timers@[j].name@));
                }
            }
        }
        true
    }

    /// The engine control surface's start: finds or creates the instance
    /// carrying `name`, configures it while idle, and begins an activation.
    /// When the instance is already running nothing changes and nothing is
    /// handed out, so there is no double-anchoring and no duplicate sink
    /// writer.
    pub fn start(&mut self, name: &String, mode: Mode, value: i64, path: &String) -> (r: Option<
        ActivationStart,
    >)
        requires
            old(self).wf(),
        ensures
            final(self).wf(),
            r is Some <==> !exists|i: int|
                0 <= i < old(self).timers@.len() && old(self).timers@[i].name@ == name@ && old(self).timers@[i].running,
            r matches Some(a) ==> a.mode == mode && a.start_value == value && a.target_path@
                == path@,
            r is Some ==> exists|i: int|
                0 <= i < final(self).timers@.len() && final(self).timers@[i].name@ == name@
                    && final(self).timers@[i].running && final(self).timers@[i].mode == mode
                    && final(self).timers@[i].value_seconds == value && final(self).timers@[i].file@ == path@,
            r is None ==> *final(self) == *old(self),
            old(self).has_name(name@) ==> final(self).timers@.len() == old(self).timers@.len(),
            !old(self).has_name(name@) ==> final(self).timers@.len() == old(self).timers@.len()
                + 1,
            forall|k: int|
                0 <= k < old(self).timers@.len() && old(self).timers@[k].name@ != name@ ==> final(self).timers@[k] == old(self).timers@[k],
    {
        let found = self.find(name);
        match found {
            Some(i) => {
                if self.timers[i].running {
                    return None;
                }
                let t = timer_at_mut(&mut self.timers, i);
                t.set_mode(mode);
                t.set_value(value);
                t.set_file(path.clone());
                let r = t.start_counter();
                proof {
                    assert(self.timers@[i as int].running);
                    assert(self.wf());
                }
                r
            },
            None => {
                let mut fresh = CounterTimer::new(name.clone());
                fresh.set_mode(mode);
                fresh.set_value(value);
                fresh.set_file(path.clone());
                let r = fresh.start_counter();
                self.timers.push(fresh);
                proof {
                    let n = self.timers@.len() - 1;
                    assert(self.timers@[n].name@ == name@ && self.timers@[n].running);
                    assert forall|i: int, j: int|
                        0 <= i < j < self.timers@.len() implies self.timers@[i].name@
                        != self.timers@[j].name@ by {
                        if j < n {
                            assert(old(self).timers@[i].name@ != old(self).timers@[j].name@);
                        } else {
                            assert(!old(self).has_name(self.timers@[j].name@));
                        }
                    }
                }
                r
            },
        }
    }

    /// The engine control surface's stop: requests cancellation of the
    /// named instance's activation, and says whether a cancellation signal
    /// is owed. Unknown names and idle instances are left as they are, so
    /// repeated stops are harmless.
    pub fn stop(&mut self, name: &String) -> (signal: bool)
        requires
            old(self).wf(),
        ensures
            final(self).wf(),
            signal == exists|i: int|
                0 <= i < old(self).timers@.len() && old(self).timers@[i].name@ == name@ && old(self).timers@[i].running,
            forall|k: int|
                0 <= k < old(self).timers@.len() && old(self).timers@[k].name@ != name@ ==> final(self).timers@[k] == old(self).timers@[k],
            final(self).timers@.len() == old(self).timers@.len(),
            forall|k: int|
                0 <= k < final(self).timers@.len() ==> final(self).timers@[k] == old(self).timers@[k] || final(self).timers@[k] == stop_transition(old(self).timers@[k]),
            !exists|i: int|
                0 <= i < final(self).timers@.len() && final(self).timers@[i].name@ == name@
                    && final(self).timers@[i].running,
    {
        let found = self.find(name);
        match found {
            Some(i) => {
                let t = timer_at_mut(&mut self.timers, i);
                let signal = t.stop_counter();
                proof {
                    assert(self.wf());
                    assert forall|k: int|
                        0 <= k < self.timers@.len() && self.timers@[k].name@ == name@ implies !self.timers@[k].running by {
                        if k != i {
                            assert(old(self).timers@[k].name@ != name@);
                        }
                    }
                }
                signal
            },
            None => false,
        }
    }

    /// The engine control surface's health poll: hands what the caller
    /// observed of the named instance's activation to that instance, and
    /// says whether a crash report is owed. Unknown names change nothing.
    pub fn poll_health(&mut self, name: &String, health: ActivationHealth) -> (report: bool)
        requires
            old(self).wf(),
        ensures
            final(self).wf(),
            final(self).timers@.len() == old(self).timers@.len(),
            forall|k: int|
                0 <= k < old(self).timers@.len() && old(self).timers@[k].name@ != name@ ==> final(self).timers@[k] == old(self).timers@[k],
            forall|k: int|
                0 <= k < final(self).timers@.len() ==> final(self).timers@[k] == old(self).timers@[k] || final(self).timers@[k] == stop_transition(old(self).timers@[k]),
            report == (health is Panicked && exists|i: int|
                0 <= i < old(self).timers@.len() && old(self).timers@[i].name@ == name@ && old(self).timers@[i].running),
            !(health is Running) ==> !exists|i: int|
                0 <= i < final(self).timers@.len() && final(self).timers@[i].name@ == name@
                    && final(self).timers@[i].running,
    {
        let found = self.find(name);
        match found {
            Some(i) => {
                let t = timer_at_mut(&mut self.timers, i);
                let report = t.check_counter(health);
                proof {
                    assert(self.wf());
                    assert forall|k: int|
                        0 <= k < self.timers@.len() && self.timers@[k].name@ == name@ && !(
                        health is Running) implies !self.timers@[k].running by {
                        if k != i {
                            assert(old(self).timers@[k].name@ != name@);
                        }
                    }
                }
                report
            },
            None => false,
        }
    }

    /// Destroys the named instance, handing back whether a cancellation
    /// signal is owed for a still-recorded activation; the caller should
    /// normally stop the instance first. Unknown names change nothing.
    pub fn remove(&mut self, name: &String) -> (signal: bool)
        requires
            old(self).wf(),
        ensures
            final(self).wf(),
            !final(self).has_name(name@),
            !old(self).has_name(name@) ==> *final(self) == *old(self) && !signal,
            old(self).has_name(name@) ==> exists|i: int|
                0 <= i < old(self).timers@.len() && old(self).timers@[i].name@ == name@ && final(self).timers@ == old(self).timers@.remove(i) && signal == old(self).timers@[i].running,
    {
        let found = self.find(name);
        match found {
            Some(i) => {
                let removed = self.timers.remove(i);
                proof {
                    assert(self.timers@ == old(self).timers@.remove(i as int));
                    assert forall|i2: int, j: int|
                        0 <= i2 < j < self.timers@.len() implies self.timers@[i2].name@
                        != self.timers@[j].name@ by {
                        let oi = if i2 < i { i2 } else { i2 + 1 };
                        let oj = if j < i { j } else { j + 1 };
                        assert(self.timers@[i2] == old(self).timers@[oi]);
                        assert(self.timers@[j] == old(self).timers@[oj]);
                        assert(old(self).timers@[oi].name@ != old(self).timers@[oj].name@);
                    }
                    assert forall|k: int|
                        0 <= k < self.timers@.len() implies self.timers@[k].name@ != name@ by {
                        let ok = if k < i { k } else { k + 1 };
                        assert(self.timers@[k] == old(self).timers@[ok]);
                        if ok != i {
                            assert(old(self).timers@[ok].name@ != old(self).timers@[i as int].name@);
                        }
                    }
                }
                removed.running
            },
            None => false,
        }
    }

    /// Non-blocking read of the named instance's current value; an unknown
    /// name reads as zero, the value a fresh instance would carry.
    pub fn current_value(&self, name: &String) -> (r: i64)
        requires
            self.wf(),
        ensures
            forall|i: int|
                0 <= i < self.timers@.len() && self.timers@[i].name@ == name@ ==> r
                    == self.timers@[i].value_seconds,
            !self.has_name(name@) ==> r == 0,
    {
        let found = self.find(name);
        match found {
            Some(i) => self.timers[i].current_value(),
            None => 0,
        }
    }

    /// Requests cancellation of every instance's activation, for process
    /// shutdown: afterwards no instance records a running activation, and
    /// nothing else about any instance changes.
    pub fn stop_all(&mut self)
        requires
            old(self).wf(),
        ensures
            final(self).wf(),
            final(self).timers@.len() == old(self).timers@.len(),
            forall|k: int|
                0 <= k < final(self).timers@.len() ==> final(self).timers@[k] == stop_transition(
                    old(self).timers@[k],
                ),
    {
        let mut i: usize = 0;
        while i < self.timers.len()
            invariant
                i <= self.timers@.len(),
                self.timers@.len() == old(self).timers@.len(),
                forall|k: int|
                    0 <= k < i ==> self.timers@[k] == stop_transition(old(self).timers@[k]),
                forall|k: int| i <= k < self.timers@.len() ==> self.timers@[k] == old(self).timers@[k],
            decreases self.timers@.len() - i,
        {
            let t = timer_at_mut(&mut self.timers, i);
            t.stop_counter();
            i += 1;
        }
        proof {
            assert forall|i2: int, j: int|
                0 <= i2 < j < self.timers@.len() implies self.timers@[i2].name@
                != self.timers@[j].name@ by {
                assert(old(self).timers@[i2].name@ != old(self).timers@[j].name@);
            }
        }
    }
}

/// A mutable borrow of one instance in place, leaving the rest of the
/// vector as it was.
fn timer_at_mut(v: &mut Vec<CounterTimer>, i: usize) -> (t: &mut CounterTimer)
    requires
        i < old(v)@.len(),
    ensures
        *t == old(v)@[i as int],
        final(v)@ == old(v)@.update(i as int, *final(t)),
{
    &mut v[i]
}

} // verus!
