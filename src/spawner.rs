use vstd::prelude::*;

use crate::timer::{TimeAction, Timer, TimerView};

verus! {

/// What one frame of a spawner asks of its owner: how many particles to
/// spawn, and what to do to the remaining time of its countdown.
#[derive(Clone, Copy, Debug, PartialEq, Eq, Structural)]
pub struct Emission {
    pub count: usize,
    pub action: TimeAction,
}

/// The abstract state of a spawner's control part.
pub struct EmitterView {
    pub active: bool,
    pub timer: TimerView,
    pub amount: nat,
}

impl EmitterView {
    /// A spawner's timer repeats, and its flags are consistent.
    pub open spec fn wf(self) -> bool {
        self.timer.repeating && self.timer.wf()
    }

    /// The state after one frame. An inactive spawner is frozen: its timer is
    /// not ticked, so its countdown pauses.
    pub open spec fn after(self, expired: bool) -> EmitterView {
        if self.active {
            EmitterView { timer: self.timer.ticked(expired), ..self }
        } else {
            self
        }
    }

    /// How many particles one frame emits: the whole batch when the timer is
    /// done after its tick, none otherwise or while inactive.
    pub open spec fn emitted(self, expired: bool) -> nat {
        if self.active && self.timer.ticked(expired).done {
            self.amount
        } else {
            0
        }
    }

    /// What one frame asks of the remaining time.
    pub open spec fn action(self, expired: bool) -> TimeAction {
        if self.active {
            self.timer.tick_action(expired)
        } else {
            TimeAction::Keep
        }
    }
}

/// The state after one frame for each of `events`.
pub open spec fn frames(e: EmitterView, events: Seq<bool>) -> EmitterView
    decreases events.len(),
{
    if events.len() == 0 {
        e
    } else {
        frames(e.after(events[0]), events.subrange(1, events.len() as int))
    }
}

/// How many particles the frames driven by `events` emit in all.
pub open spec fn emitted_over(e: EmitterView, events: Seq<bool>) -> nat
    decreases events.len(),
{
    if events.len() == 0 {
        0
    } else {
        e.emitted(events[0]) + emitted_over(e.after(events[0]), events.subrange(1, events.len() as int))
    }
}

/// An inactive spawner emits nothing over any number of frames, and its timer
/// is left exactly where it was, so that once reactivated it resumes from the
/// same progress.
pub proof fn lemma_inactive_spawner_is_frozen(e: EmitterView, events: Seq<bool>)
    requires
        !e.active,
    ensures
        emitted_over(e, events) == 0,
        frames(e, events) == e,
    decreases events.len(),
{
    if events.len() > 0 {
        lemma_inactive_spawner_is_frozen(e.after(events[0]), events.subrange(1, events.len() as int));
    }
}

/// The control part of a point spawner: its activation flag, its repeating
/// timer and the size of each batch. The emission point and the countdown
/// value are kept by the owner.
#[derive(Clone, Copy, Debug)]
pub struct Emitter {
    active: bool,
    timer: Timer,
    amount: usize,
}

impl View for Emitter {
    type V = EmitterView;

    closed spec fn view(&self) -> EmitterView {
        EmitterView { active: self.active, timer: self.timer@, amount: self.amount as nat }
    }
}

impl Emitter {
    /// A spawner whose repeating timer starts done, so that it fires on its
    /// first active frame.
    pub fn new(amount: usize, start_active: bool) -> (r: Emitter)
        ensures
            r@ == (EmitterView {
                active: start_active,
                timer: TimerView { repeating: true, done: true, just_done: true },
                amount: amount as nat,
            }),
            r@.wf(),
    {
        Emitter { active: start_active, timer: Timer::new(true, true), amount }
    }

    /// The remaining time the countdown starts from.
    pub fn initial_action(&self) -> (r: TimeAction)
        ensures
            r == (if self@.timer.done { TimeAction::Clear } else { TimeAction::Restart }),
    {
        self.timer.initial_action()
    }

    /// Turns the spawner on, keeping the timer's progress.
    pub fn activate(&mut self)
        ensures
            final(self)@ == (EmitterView { active: true, ..old(self)@ }),
    {
        self.active = true;
    }

    /// Turns the spawner off, keeping the timer's progress.
    pub fn deactivate(&mut self)
        ensures
            final(self)@ == (EmitterView { active: false, ..old(self)@ }),
    {
        self.active = false;
    }

    pub fn is_active(&self) -> (r: bool)
        ensures
            r == self@.active,
    {
        self.active
    }

    pub fn amount(&self) -> (r: usize)
        ensures
            r as nat == self@.amount,
    {
        self.amount
    }

    /// One frame. While active the owner subtracts the elapsed time from the
    /// countdown and passes whether it fell below zero; while inactive
    /// `expired` is ignored.
    pub fn update(&mut self, expired: bool) -> (r: Emission)
        ensures
            final(self)@ == old(self)@.after(expired),
            r.count as nat == old(self)@.emitted(expired),
            r.action == old(self)@.action(expired),
            old(self)@.wf() ==> final(self)@.wf(),
    {
        if self.active {
            let action = self.timer.tick(expired);
            let count = if self.timer.done() { self.amount } else { 0 };
            Emission { count, action }
        } else {
            Emission { count: 0, action: TimeAction::Keep }
        }
    }
}

} // verus!
