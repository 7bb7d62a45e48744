use vstd::prelude::*;

use crate::event::Event;

verus! {

/// The largest raw value the proximity sensor reports.
pub const MAX_RAW: u16 = 4095;

/// A reading must move by more than this since the last change event to make a new one.
pub const CHANGE_THRESHOLD: u16 = 10;

/// The raw sensor value held in the two bytes of a register read, low byte first.
pub open spec fn raw_of(bytes: [u8; 2]) -> int {
    bytes[0] + 256 * bytes[1]
}

/// Distance-like magnitude of a raw reading: larger is farther. A raw value
/// above the sensor's range counts as touching.
pub open spec fn magnitude_of(raw: int) -> u16 {
    if raw <= MAX_RAW { (MAX_RAW - raw) as u16 } else { 0 }
}

/// Whether two magnitudes lie more than the change threshold apart.
pub open spec fn moved(a: u16, b: u16) -> bool {
    a - b > CHANGE_THRESHOLD || b - a > CHANGE_THRESHOLD
}

/// Reads the little-endian raw value of a register read.
pub fn raw_from_bytes(bytes: [u8; 2]) -> (r: u16)
    ensures
        r == raw_of(bytes),
{
    (bytes[0] as u16) + 256 * (bytes[1] as u16)
}

/// Converts a raw reading to its magnitude.
pub fn magnitude(raw: u16) -> (r: u16)
    ensures
        r == magnitude_of(raw as int),
{
    if raw <= MAX_RAW {
        MAX_RAW - raw
    } else {
        0
    }
}

/// The filter between the sensor and the mailbox; it remembers the magnitude of
/// the last change event.
pub struct ProximityMonitor {
    pub last_changed: u16,
}

impl ProximityMonitor {
    /// A monitor whose last change event is taken to be 0.
    pub fn new() -> (r: ProximityMonitor)
        ensures
            r.last_changed == 0,
    {
        ProximityMonitor { last_changed: 0 }
    }

    /// The events to publish, in order, for one poll of the sensor: none when the
    /// read failed; else the current magnitude, followed by a change event when
    /// it moved by more than the threshold since the last one.
    pub fn poll(&mut self, reading: Option<[u8; 2]>) -> (r: Vec<Event>)
        ensures
            reading is None ==> r@ == Seq::<Event>::empty() && *final(self) == *old(self),
            reading is Some ==> ({
                let m = magnitude_of(raw_of(reading->Some_0));
                if moved(m, old(self).last_changed) {
                    r@ == seq![Event::ProximityCurrent(m), Event::ProximityChanged(m)]
                        && final(self).last_changed == m
                } else {
                    r@ == seq![Event::ProximityCurrent(m)] && *final(self) == *old(self)
                }
            }),
    {
        let mut events: Vec<Event> = Vec::new();
        match reading {
            None => {},
            Some(bytes) => {
                let m = magnitude(raw_from_bytes(bytes));
                events.push(Event::ProximityCurrent(m));
                let far = if m > self.last_changed {
                    m - self.last_changed > CHANGE_THRESHOLD
                } else {
                    self.last_changed - m > CHANGE_THRESHOLD
                };
                if far {
                    events.push(Event::ProximityChanged(m));
                    self.last_changed = m;
                }
                proof {
                    assert(events@ =~= if far {
                        seq![Event::ProximityCurrent(m), Event::ProximityChanged(m)]
                    } else {
                        seq![Event::ProximityCurrent(m)]
                    });
                }
            },
        }
        events
    }
}

} // verus!
