use vstd::prelude::*;

use crate::animation::{entry_steps, flicker_tick, AnimationEngine, Step};
use crate::channel::EventChannel;
use crate::event::Event;
use crate::state_machine::{next_level, next_mode, update_state, Mode, LEVEL_MAX};

verus! {

/// The level a controller starts at.
pub const DEFAULT_LEVEL: u8 = 5;

/// What the driver of the PWM outputs has to do after one tick.
#[derive(Debug, PartialEq, Eq)]
pub enum Action {
    /// Nothing to play.
    Idle,
    /// One flicker frame: both channels get the flicker duty of this tick.
    Flicker(u16),
    /// Play these frames to the end before the next tick.
    Animate(Vec<Step>),
}

/// The mode machine together with the animation engine it drives.
pub struct Controller {
    pub mode: Mode,
    pub level: u8,
    pub engine: AnimationEngine,
}

impl Controller {
    /// The level stays within `0..=LEVEL_MAX`.
    pub open spec fn wf(&self) -> bool {
        self.level <= LEVEL_MAX
    }

    /// A controller that is off, at the default level, with its flicker counter at 0.
    pub fn new() -> (r: Controller)
        ensures
            r.wf(),
            r.mode == Mode::PowerOff,
            r.level == DEFAULT_LEVEL,
            r.engine.time_stamp == 0,
    {
        Controller { mode: Mode::default(), level: DEFAULT_LEVEL, engine: AnimationEngine::new() }
    }

    /// One tick with `event` (or none) taken from the mailbox: moves the mode and
    /// level by the transition table; in the flicker mode yields a flicker frame
    /// on every tick; otherwise yields the entry animation of the new mode when
    /// the mode changed, and nothing when it did not.
    pub fn step(&mut self, event: Option<Event>) -> (r: Action)
        requires
            old(self).wf(),
        ensures
            final(self).wf(),
            final(self).mode == next_mode(old(self).mode, old(self).level, event),
            final(self).level == next_level(old(self).mode, old(self).level, event),
            final(self).mode == Mode::Nikomi ==> r == Action::Flicker(old(self).engine.time_stamp)
                && final(self).engine.time_stamp == flicker_tick(old(self).engine.time_stamp, 1),
            final(self).mode != Mode::Nikomi ==> final(self).engine == old(self).engine,
            final(self).mode != Mode::Nikomi && final(self).mode != old(self).mode ==> r is Animate
                && r->Animate_0@ == entry_steps(final(self).mode, final(self).level as int),
            final(self).mode != Mode::Nikomi && final(self).mode == old(self).mode ==> r == Action::Idle,
    {
        let before = self.mode;
        let mode = update_state(before, &mut self.level, event);
        self.mode = mode;
        if mode == Mode::Nikomi {
            Action::Flicker(self.engine.nikomi())
        } else if mode != before {
            Action::Animate(self.engine.enter(mode, &self.level))
        } else {
            Action::Idle
        }
    }

    /// One tick of the running controller: takes the oldest event waiting in
    /// `chan`, if any, and does what `step` does with it.
    pub fn tick(&mut self, chan: &mut EventChannel) -> (r: Action)
        requires
            old(self).wf(),
        ensures
            final(self).wf(),
            old(chan)@.len() == 0 ==> final(chan)@ == old(chan)@,
            old(chan)@.len() > 0 ==> final(chan)@ == old(chan)@.drop_first(),
            final(self).mode == next_mode(old(self).mode, old(self).level, first_of(old(chan)@)),
            final(self).level == next_level(old(self).mode, old(self).level, first_of(old(chan)@)),
            final(self).mode == Mode::Nikomi ==> r == Action::Flicker(old(self).engine.time_stamp)
                && final(self).engine.time_stamp == flicker_tick(old(self).engine.time_stamp, 1),
            final(self).mode != Mode::Nikomi ==> final(self).engine == old(self).engine,
            final(self).mode != Mode::Nikomi && final(self).mode != old(self).mode ==> r is Animate
                && r->Animate_0@ == entry_steps(final(self).mode, final(self).level as int),
            final(self).mode != Mode::Nikomi && final(self).mode == old(self).mode ==> r == Action::Idle,
    {
        let event = chan.try_take();
        self.step(event)
    }
}

/// The oldest of the waiting events, if any.
pub open spec fn first_of(events: Seq<Event>) -> Option<Event> {
    if events.len() > 0 { Some(events[0]) } else { None }
}

} // verus!
