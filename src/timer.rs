use vstd::prelude::*;

verus! {

/// What the owner of a timer must do to the remaining time it keeps.
#[derive(Clone, Copy, Debug, PartialEq, Eq, Structural)]
pub enum TimeAction {
    /// Leave the remaining time as it is.
    Keep,
    /// Add one cooldown period to the remaining time (carrying the overshoot).
    AddCooldown,
    /// Set the remaining time to zero.
    Clear,
    /// Set the remaining time to the full cooldown.
    Restart,
}

/// The abstract state of a timer: its mode and its two flags.
pub struct TimerView {
    pub repeating: bool,
    pub done: bool,
    pub just_done: bool,
}

impl TimerView {
    /// `just_done` is only ever set together with `done`.
    pub open spec fn wf(self) -> bool {
        self.just_done ==> self.done
    }

    /// The state after one tick, where `expired` says whether the remaining
    /// time fell below zero on that tick. `just_done` is cleared by every tick
    /// and set again only by the tick that fires, so it lasts one tick per
    /// firing; a one-shot timer stays done once it has fired.
    pub open spec fn ticked(self, expired: bool) -> TimerView {
        if self.repeating {
            TimerView { repeating: true, done: expired, just_done: expired }
        } else if expired {
            TimerView { repeating: false, done: true, just_done: !self.done }
        } else {
            TimerView { just_done: false, ..self }
        }
    }

    /// What one tick asks of the remaining time.
    pub open spec fn tick_action(self, expired: bool) -> TimeAction {
        if !expired {
            TimeAction::Keep
        } else if self.repeating {
            TimeAction::AddCooldown
        } else {
            TimeAction::Clear
        }
    }
}

/// How many of the ticks driven by `events` leave the timer reporting
/// `just_done`.
pub open spec fn pulses(t: TimerView, events: Seq<bool>) -> nat
    decreases events.len(),
{
    if events.len() == 0 {
        0
    } else {
        let next = t.ticked(events[0]);
        (if next.just_done { 1nat } else { 0nat }) + pulses(next, events.subrange(1, events.len() as int))
    }
}

/// The state after ticking through all of `events`.
pub open spec fn run(t: TimerView, events: Seq<bool>) -> TimerView
    decreases events.len(),
{
    if events.len() == 0 {
        t
    } else {
        run(t.ticked(events[0]), events.subrange(1, events.len() as int))
    }
}

/// A repeating timer created in the done state reports `done` and
/// `just_done` before any tick, and no longer reports `just_done` after a
/// tick that does not expire (such as a tick by zero from a remaining time
/// of zero): "done" is a one-tick pulse.
pub proof fn lemma_repeating_pulse()
    ensures
        ({
            let t = TimerView { repeating: true, done: true, just_done: true };
            t.done && t.just_done && !t.ticked(false).just_done && !t.ticked(false).done
        }),
{
}

proof fn lemma_fired_one_shot_stays_quiet(t: TimerView, events: Seq<bool>)
    requires
        !t.repeating,
        t.done,
    ensures
        pulses(t, events) == 0,
        run(t, events).done,
    decreases events.len(),
{
    if events.len() > 0 {
        let rest = events.subrange(1, events.len() as int);
        lemma_fired_one_shot_stays_quiet(t.ticked(events[0]), rest);
    }
}

/// A one-shot timer that is not yet done reports `just_done` on exactly one
/// tick of any sequence of ticks that crosses the end of its countdown, and is
/// done at the end of it; with no tick that expires it never fires.
pub proof fn lemma_one_shot_fires_once(t: TimerView, events: Seq<bool>)
    requires
        t.wf(),
        !t.repeating,
        !t.done,
    ensures
        pulses(t, events) == (if events.contains(true) { 1nat } else { 0nat }),
        run(t, events).done == events.contains(true),
    decreases events.len(),
{
    if events.len() == 0 {
        assert(!events.contains(true));
    } else {
        let rest = events.subrange(1, events.len() as int);
        if events[0] {
            assert(events.contains(true));
            lemma_fired_one_shot_stays_quiet(t.ticked(true), rest);
        } else {
            lemma_one_shot_fires_once(t.ticked(false), rest);
            if events.contains(true) {
                let k = choose|k: int| 0 <= k < events.len() && events[k] == true;
                assert(k > 0);
                assert(rest[k - 1] == true);
            }
            if rest.contains(true) {
                let k = choose|k: int| 0 <= k < rest.len() && rest[k] == true;
                assert(events[k + 1] == true);
            }
        }
    }
}

/// A tick that expires fires a repeating timer exactly once, however far the
/// remaining time fell below zero: one carry-over of the cooldown, one pulse.
pub proof fn lemma_repeating_fires_at_most_once_per_tick(t: TimerView, expired: bool)
    requires
        t.repeating,
    ensures
        t.ticked(expired).just_done == expired,
        t.ticked(expired).done == expired,
        t.tick_action(expired) == (if expired { TimeAction::AddCooldown } else { TimeAction::Keep }),
{
}

/// A countdown with one-shot or repeating semantics. The remaining time is
/// kept by the owner; the timer decides the flags and tells the owner how to
/// adjust the remaining time.
#[derive(Clone, Copy, Debug)]
pub struct Timer {
    repeating: bool,
    is_done: bool,
    is_just_done: bool,
}

impl View for Timer {
    type V = TimerView;

    closed spec fn view(&self) -> TimerView {
        TimerView { repeating: self.repeating, done: self.is_done, just_done: self.is_just_done }
    }
}

impl Timer {
    /// A timer that is either armed, or already done and just fired.
    pub fn new(start_done: bool, repeating: bool) -> (r: Timer)
        ensures
            r@ == (TimerView { repeating, done: start_done, just_done: start_done }),
            r@.wf(),
    {
        Timer { repeating, is_done: start_done, is_just_done: start_done }
    }

    /// The remaining time a new timer starts from: zero when it starts done,
    /// the full cooldown otherwise.
    pub fn initial_action(&self) -> (r: TimeAction)
        ensures
            r == (if self@.done { TimeAction::Clear } else { TimeAction::Restart }),
    {
        if self.is_done {
            TimeAction::Clear
        } else {
            TimeAction::Restart
        }
    }

    /// One tick. `expired` is whether the remaining time, after the owner
    /// subtracted the elapsed time, is below zero.
    pub fn tick(&mut self, expired: bool) -> (r: TimeAction)
        ensures
            final(self)@ == old(self)@.ticked(expired),
            r == old(self)@.tick_action(expired),
            old(self)@.wf() ==> final(self)@.wf(),
    {
        if self.repeating {
            self.is_done = false;
            self.is_just_done = false;
            if expired {
                self.is_done = true;
                self.is_just_done = true;
                TimeAction::AddCooldown
            } else {
                TimeAction::Keep
            }
        } else {
            self.is_just_done = false;
            if expired {
                if !self.is_done {
                    self.is_done = true;
                    self.is_just_done = true;
                }
                TimeAction::Clear
            } else {
                TimeAction::Keep
            }
        }
    }

    /// Re-arms the timer: not done, a full cooldown to go.
    pub fn start(&mut self) -> (r: TimeAction)
        ensures
            final(self)@ == (TimerView { repeating: old(self)@.repeating, done: false, just_done: false }),
            r == TimeAction::Restart,
    {
        self.is_done = false;
        self.is_just_done = false;
        TimeAction::Restart
    }

    /// Forces the timer into the state of having just fired.
    pub fn finish(&mut self) -> (r: TimeAction)
        ensures
            final(self)@ == (TimerView { repeating: old(self)@.repeating, done: true, just_done: true }),
            r == TimeAction::Clear,
    {
        self.is_done = true;
        self.is_just_done = true;
        TimeAction::Clear
    }

    pub fn done(&self) -> (r: bool)
        ensures
            r == self@.done,
    {
        self.is_done
    }

    pub fn just_done(&self) -> (r: bool)
        ensures
            r == self@.just_done,
    {
        self.is_just_done
    }

    pub fn repeating(&self) -> (r: bool)
        ensures
            r == self@.repeating,
    {
        self.repeating
    }
}

} // verus!
