use vstd::prelude::*;

use crate::event::{ButtonKind, Event};

verus! {

/// Below this proximity magnitude a standby ring turns on.
pub const PAN_ON_TH: u16 = 1500;

/// Above this proximity magnitude a lit ring falls back to standby.
pub const PAN_OFF_TH: u16 = 3500;

/// The highest brightness level; levels run from 0 to this value.
pub const LEVEL_MAX: u8 = 9;

/// The operating mode of the controller.
#[derive(Clone, Copy, Debug, PartialEq, Eq, Structural)]
pub enum Mode {
    PowerOff,
    Standby,
    PowerOn,
    PanShake,
    Nikomi,
    LevelUp,
    LevelDown,
}

impl Default for Mode {
    /// A controller starts switched off.
    fn default() -> (r: Mode)
        ensures
            r == Mode::PowerOff,
    {
        Mode::PowerOff
    }
}

/// Outcome of a `Weak` press in a mode that handles level buttons.
pub open spec fn weak_mode(level: u8) -> Mode {
    if level > 0 { Mode::LevelDown } else { Mode::PowerOn }
}

/// Outcome of a `Strong` press in a mode that handles level buttons.
pub open spec fn strong_mode(level: u8) -> Mode {
    if level < LEVEL_MAX { Mode::LevelUp } else { Mode::PowerOn }
}

/// The transition table: the mode after `event` (or no event) arrives in `mode`.
pub open spec fn next_mode(mode: Mode, level: u8, event: Option<Event>) -> Mode {
    match mode {
        Mode::PowerOff => match event {
            Some(Event::ButtonPressed(ButtonKind::Power)) => Mode::Standby,
            _ => Mode::PowerOff,
        },
        Mode::Standby => match event {
            Some(Event::ButtonPressed(ButtonKind::Power)) => Mode::PowerOff,
            Some(Event::ProximityCurrent(p)) => if p < PAN_ON_TH { Mode::PowerOn } else { Mode::Standby },
            Some(Event::ProximityChanged(p)) => if p < PAN_ON_TH { Mode::PowerOn } else { Mode::Standby },
            _ => Mode::Standby,
        },
        Mode::PowerOn => match event {
            Some(Event::ButtonPressed(ButtonKind::Power)) => Mode::PowerOff,
            Some(Event::ButtonPressed(ButtonKind::Weak)) => weak_mode(level),
            Some(Event::ButtonPressed(ButtonKind::Strong)) => strong_mode(level),
            Some(Event::ButtonPressed(ButtonKind::Nikomi)) => Mode::Nikomi,
            Some(Event::ProximityChanged(p)) => if p > PAN_OFF_TH { Mode::Standby } else { Mode::PanShake },
            _ => Mode::PowerOn,
        },
        Mode::PanShake => match event {
            Some(Event::ButtonPressed(ButtonKind::Power)) => Mode::PowerOff,
            Some(Event::ProximityChanged(p)) => if p > PAN_OFF_TH { Mode::Standby } else { Mode::PowerOn },
            _ => Mode::PowerOn,
        },
        Mode::Nikomi => match event {
            Some(Event::ButtonPressed(ButtonKind::Power)) => Mode::PowerOff,
            Some(Event::ButtonPressed(ButtonKind::Weak)) => weak_mode(level),
            Some(Event::ButtonPressed(ButtonKind::Strong)) => strong_mode(level),
            Some(Event::ProximityChanged(p)) => if p <= PAN_OFF_TH { Mode::PanShake } else { Mode::Nikomi },
            _ => Mode::Nikomi,
        },
        Mode::LevelUp | Mode::LevelDown => Mode::PowerOn,
    }
}

/// Whether `mode` reacts to the `Weak` and `Strong` buttons.
pub open spec fn handles_level_buttons(mode: Mode) -> bool {
    mode == Mode::PowerOn || mode == Mode::Nikomi
}

/// The level after `event` (or no event) arrives in `mode`.
pub open spec fn next_level(mode: Mode, level: u8, event: Option<Event>) -> u8 {
    if handles_level_buttons(mode) {
        match event {
            Some(Event::ButtonPressed(ButtonKind::Weak)) => if level > 0 { (level - 1) as u8 } else { level },
            Some(Event::ButtonPressed(ButtonKind::Strong)) => if level < LEVEL_MAX { (level + 1) as u8 } else { level },
            _ => level,
        }
    } else {
        level
    }
}

/// Applies one `Weak` press to the level.
fn press_weak(level: &mut u8) -> (r: Mode)
    ensures
        r == weak_mode(*old(level)),
        *final(level) == (if *old(level) > 0 { (*old(level) - 1) as u8 } else { *old(level) }),
{
    if *level > 0 {
        *level = *level - 1;
        Mode::LevelDown
    } else {
        Mode::PowerOn
    }
}

/// Applies one `Strong` press to the level.
fn press_strong(level: &mut u8) -> (r: Mode)
    ensures
        r == strong_mode(*old(level)),
        *final(level) == (if *old(level) < LEVEL_MAX { (*old(level) + 1) as u8 } else { *old(level) }),
{
    if *level < LEVEL_MAX {
        *level = *level + 1;
        Mode::LevelUp
    } else {
        Mode::PowerOn
    }
}

/// One step of the mode machine: the mode that `event` (or no event) leads to
/// from `state`; `level` moves by one on a `Weak` or `Strong` press in a mode
/// that handles them, within `0..=LEVEL_MAX`.
pub fn update_state(state: Mode, level: &mut u8, event: Option<Event>) -> (r: Mode)
    requires
        *old(level) <= LEVEL_MAX,
    ensures
        r == next_mode(state, *old(level), event),
        *final(level) == next_level(state, *old(level), event),
        *final(level) <= LEVEL_MAX,
{
    match state {
        Mode::PowerOff => match event {
            Some(Event::ButtonPressed(ButtonKind::Power)) => Mode::Standby,
            _ => Mode::PowerOff,
        },
        Mode::Standby => match event {
            Some(Event::ButtonPressed(ButtonKind::Power)) => Mode::PowerOff,
            Some(Event::ProximityCurrent(p)) | Some(Event::ProximityChanged(p)) => {
                if p < PAN_ON_TH {
                    Mode::PowerOn
                } else {
                    Mode::Standby
                }
            },
            _ => Mode::Standby,
        },
        Mode::PowerOn => match event {
            Some(Event::ButtonPressed(ButtonKind::Power)) => Mode::PowerOff,
            Some(Event::ButtonPressed(ButtonKind::Weak)) => press_weak(level),
            Some(Event::ButtonPressed(ButtonKind::Strong)) => press_strong(level),
            Some(Event::ButtonPressed(ButtonKind::Nikomi)) => Mode::Nikomi,
            Some(Event::ProximityChanged(p)) => {
                if p > PAN_OFF_TH {
                    Mode::Standby
                } else {
                    Mode::PanShake
                }
            },
            _ => Mode::PowerOn,
        },
        Mode::PanShake => match event {
            Some(Event::ButtonPressed(ButtonKind::Power)) => Mode::PowerOff,
            Some(Event::ProximityChanged(p)) => {
                if p > PAN_OFF_TH {
                    Mode::Standby
                } else {
                    Mode::PowerOn
                }
            },
            _ => Mode::PowerOn,
        },
        Mode::Nikomi => match event {
            Some(Event::ButtonPressed(ButtonKind::Power)) => Mode::PowerOff,
            Some(Event::ButtonPressed(ButtonKind::Weak)) => press_weak(level),
            Some(Event::ButtonPressed(ButtonKind::Strong)) => press_strong(level),
            Some(Event::ProximityChanged(p)) => {
                if p <= PAN_OFF_TH {
                    Mode::PanShake
                } else {
                    Mode::Nikomi
                }
            },
            _ => Mode::Nikomi,
        },
        Mode::LevelUp | Mode::LevelDown => Mode::PowerOn,
    }
}

/// The mode and level after `events` arrive one per tick, starting from `mode` at `level`.
pub open spec fn run(mode: Mode, level: u8, events: Seq<Option<Event>>) -> (Mode, u8)
    decreases events.len(),
{
    if events.len() == 0 {
        (mode, level)
    } else {
        run(next_mode(mode, level, events[0]), next_level(mode, level, events[0]), events.drop_first())
    }
}

/// An idle tick, or a proximity reading inside the hysteresis band `PAN_ON_TH..=PAN_OFF_TH`.
pub open spec fn in_band(event: Option<Event>) -> bool {
    match event {
        None => true,
        Some(Event::ProximityChanged(p)) => PAN_ON_TH <= p <= PAN_OFF_TH,
        Some(Event::ProximityCurrent(p)) => PAN_ON_TH <= p <= PAN_OFF_TH,
        Some(Event::ButtonPressed(_)) => false,
    }
}

/// The modes in which the ring is lit by the proximity of a pan.
pub open spec fn is_lit(mode: Mode) -> bool {
    mode == Mode::PowerOn || mode == Mode::PanShake
}

/// A `Strong` press at the top level leaves the level there and plays no
/// level-up pulse; where level buttons count, the mode resolves to `PowerOn`.
pub proof fn strong_at_top_level_saturates(mode: Mode)
    ensures
        next_level(mode, LEVEL_MAX, Some(Event::ButtonPressed(ButtonKind::Strong))) == LEVEL_MAX,
        next_mode(mode, LEVEL_MAX, Some(Event::ButtonPressed(ButtonKind::Strong))) != Mode::LevelUp,
        handles_level_buttons(mode) ==> next_mode(mode, LEVEL_MAX, Some(Event::ButtonPressed(ButtonKind::Strong)))
            == Mode::PowerOn,
{
}

/// A `Weak` press at level 0 leaves the level there and plays no level-down
/// pulse; where level buttons count, the mode resolves to `PowerOn`.
pub proof fn weak_at_bottom_level_saturates(mode: Mode)
    ensures
        next_level(mode, 0, Some(Event::ButtonPressed(ButtonKind::Weak))) == 0,
        next_mode(mode, 0, Some(Event::ButtonPressed(ButtonKind::Weak))) != Mode::LevelDown,
        handles_level_buttons(mode) ==> next_mode(mode, 0, Some(Event::ButtonPressed(ButtonKind::Weak)))
            == Mode::PowerOn,
{
}

/// Hysteresis: however readings inside the band between the two thresholds
/// come and go, a ring in standby stays in standby and a lit ring (`PowerOn`
/// or `PanShake`) stays lit; only a reading outside the band crosses over.
/// Every prefix of such a sequence is one too, so this holds at every tick.
pub proof fn hysteresis_band_keeps_side(mode: Mode, level: u8, events: Seq<Option<Event>>)
    requires
        mode == Mode::Standby || is_lit(mode),
        forall|i: int| 0 <= i < events.len() ==> in_band(#[trigger] events[i]),
    ensures
        mode == Mode::Standby ==> run(mode, level, events).0 == Mode::Standby,
        is_lit(mode) ==> is_lit(run(mode, level, events).0),
    decreases events.len(),
{
    if events.len() > 0 {
        let e = events[0];
        assert(in_band(e));
        let rest = events.drop_first();
        assert forall|i: int| 0 <= i < rest.len() implies in_band(#[trigger] rest[i]) by {
            assert(rest[i] == events[i + 1]);
        }
        hysteresis_band_keeps_side(next_mode(mode, level, e), next_level(mode, level, e), rest);
    }
}

} // verus!
