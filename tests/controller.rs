use flame_ring::{
    Action, AnimationEngine, ButtonKind, Controller, Event, EventChannel, Mode, Output, ProximityMonitor, Step,
    CHANNEL_CAPACITY, DEFAULT_LEVEL,
};
use flame_ring::{magnitude, raw_from_bytes};

fn press(kind: ButtonKind) -> Option<Event> {
    Some(Event::ButtonPressed(kind))
}

#[test]
fn power_press_from_off_plays_standby_pulse() {
    let mut c = Controller::new();
    assert_eq!(c.mode, Mode::PowerOff);
    assert_eq!(c.level, DEFAULT_LEVEL);
    let action = c.step(press(ButtonKind::Power));
    assert_eq!(c.mode, Mode::Standby);
    let expected = AnimationEngine::new().standby(&5);
    assert_eq!(action, Action::Animate(expected.clone()));
    assert_eq!(expected[0], Step::Duty(Output::Both, 0));
    assert_eq!(expected[120], Step::Duty(Output::Both, 60));
    assert_eq!(expected[122], Step::Duty(Output::Both, 60));
    assert_eq!(expected[242], Step::Duty(Output::Both, 0));
    assert_eq!(expected[244], Step::Pause(500));
    assert_eq!(c.step(None), Action::Idle);
}

#[test]
fn strong_press_at_five_flashes_and_settles() {
    let mut c = Controller { mode: Mode::PowerOn, level: 5, engine: AnimationEngine::new() };
    let action = c.step(press(ButtonKind::Strong));
    assert_eq!(c.level, 6);
    assert_eq!(c.mode, Mode::LevelUp);
    let steps = match action {
        Action::Animate(steps) => steps,
        other => panic!("expected an animation, got {:?}", other),
    };
    assert_eq!(steps[0], Step::Duty(Output::Pwm1, 70));
    assert_eq!(steps[1], Step::Duty(Output::Pwm0, 50));
    assert_eq!(steps[2], Step::Pause(5));
    assert_eq!(steps[101], Step::Duty(Output::Pwm0, 100));
    assert_eq!(steps[103], Step::Duty(Output::Pwm0, 100));
    assert_eq!(steps[steps.len() - 2], Step::Duty(Output::Pwm0, 70));
    assert_eq!(steps.len(), 1 + 51 * 2 + 31 * 2);
    let next = c.step(None);
    assert_eq!(c.mode, Mode::PowerOn);
    assert_eq!(next, Action::Animate(vec![Step::Duty(Output::Both, 70)]));
}

#[test]
fn nikomi_flickers_every_tick() {
    let mut c = Controller { mode: Mode::PowerOn, level: 5, engine: AnimationEngine::new() };
    assert_eq!(c.step(press(ButtonKind::Nikomi)), Action::Flicker(0));
    assert_eq!(c.step(None), Action::Flicker(1));
    assert_eq!(c.step(Some(Event::ProximityCurrent(10))), Action::Flicker(2));
    assert_eq!(c.engine.time_stamp, 3);
    assert_eq!(c.step(press(ButtonKind::Power)), Action::Animate(AnimationEngine::new().power_off(&5)));
    assert_eq!(c.engine.time_stamp, 3);
}

#[test]
fn mailbox_keeps_order_and_pushes_back_when_full() {
    let events = [
        Event::ButtonPressed(ButtonKind::Power),
        Event::ProximityCurrent(1000),
        Event::ProximityChanged(1000),
        Event::ButtonPressed(ButtonKind::Strong),
        Event::ButtonPressed(ButtonKind::Weak),
    ];
    let mut chan = EventChannel::new();
    for e in &events[..CHANNEL_CAPACITY] {
        assert_eq!(chan.try_publish(*e), Ok(()));
    }
    // The fifth producer is handed its event back and has to wait.
    assert_eq!(chan.try_publish(events[4]), Err(events[4]));
    let mut delivered = Vec::new();
    delivered.push(chan.try_take().unwrap());
    assert_eq!(chan.try_publish(events[4]), Ok(()));
    while let Some(e) = chan.try_take() {
        delivered.push(e);
    }
    assert_eq!(delivered, events.to_vec());
    assert_eq!(chan.try_take(), None);
}

#[test]
fn tick_takes_one_event_per_tick() {
    let mut chan = EventChannel::new();
    assert_eq!(chan.try_publish(Event::ButtonPressed(ButtonKind::Power)), Ok(()));
    assert_eq!(chan.try_publish(Event::ProximityCurrent(1000)), Ok(()));
    let mut c = Controller::new();
    assert!(matches!(c.tick(&mut chan), Action::Animate(_)));
    assert_eq!(c.mode, Mode::Standby);
    assert_eq!(c.tick(&mut chan), Action::Animate(vec![Step::Duty(Output::Both, 60)]));
    assert_eq!(c.mode, Mode::PowerOn);
    assert_eq!(c.tick(&mut chan), Action::Idle);
    assert_eq!(c.mode, Mode::PowerOn);
}

#[test]
fn proximity_reads_little_endian_and_inverts() {
    assert_eq!(raw_from_bytes([0x34, 0x12]), 0x1234);
    assert_eq!(magnitude(0), 4095);
    assert_eq!(magnitude(4095), 0);
    assert_eq!(magnitude(1000), 3095);
    assert_eq!(magnitude(5000), 0);
}

#[test]
fn proximity_reports_changes_beyond_threshold() {
    let mut m = ProximityMonitor::new();
    assert_eq!(m.poll(None), vec![]);
    assert_eq!(m.last_changed, 0);
    // raw 4090 -> magnitude 5: within 10 of the last change.
    let near = 4090u16.to_le_bytes();
    assert_eq!(m.poll(Some(near)), vec![Event::ProximityCurrent(5)]);
    assert_eq!(m.last_changed, 0);
    // raw 4084 -> magnitude 11: more than 10 away.
    let moved = 4084u16.to_le_bytes();
    assert_eq!(m.poll(Some(moved)), vec![Event::ProximityCurrent(11), Event::ProximityChanged(11)]);
    assert_eq!(m.last_changed, 11);
    // exactly 10 away is no change.
    let ten = (4095u16 - 21).to_le_bytes();
    assert_eq!(m.poll(Some(ten)), vec![Event::ProximityCurrent(21)]);
    assert_eq!(m.last_changed, 11);
    let back = 4095u16.to_le_bytes();
    assert_eq!(m.poll(Some(back)), vec![Event::ProximityCurrent(0), Event::ProximityChanged(0)]);
    assert_eq!(m.last_changed, 0);
}
