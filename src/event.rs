use vstd::prelude::*;

verus! {

/// One of the four momentary buttons.
#[derive(Clone, Copy, Debug, PartialEq, Eq, Structural)]
pub enum ButtonKind {
    Nikomi,
    Weak,
    Strong,
    Power,
}

/// What the monitors publish and the mode machine consumes.
#[derive(Clone, Copy, Debug, PartialEq, Eq, Structural)]
pub enum Event {
    /// A reading that moved by more than the change threshold since the last such event.
    ProximityChanged(u16),
    /// The reading of the current poll, published on every successful poll.
    ProximityCurrent(u16),
    ButtonPressed(ButtonKind),
}

} // verus!
