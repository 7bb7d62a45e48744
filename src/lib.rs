//! Controller logic for a ring of LEDs on two PWM channels: an event-driven
//! mode machine, the animations it plays on each mode change, the flicker
//! clock, the proximity filter and the bounded event mailbox between them.

pub mod animation;
pub mod channel;
pub mod controller;
pub mod event;
pub mod proximity;
pub mod state_machine;

pub use animation::{
    duty_micros, duty_percent, AnimationEngine, Output, Step, FAST_RAMP_MS, MAX_DUTY_MICRO, SETTLE_MS,
    SLOW_RAMP_MS,
};
pub use channel::{EventChannel, CHANNEL_CAPACITY};
pub use controller::{Action, Controller, DEFAULT_LEVEL};
pub use event::{ButtonKind, Event};
pub use proximity::{magnitude, raw_from_bytes, ProximityMonitor, CHANGE_THRESHOLD, MAX_RAW};
pub use state_machine::{update_state, Mode, LEVEL_MAX, PAN_OFF_TH, PAN_ON_TH};
