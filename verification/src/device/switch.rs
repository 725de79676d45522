//! The switch event model shared by the decoder and the session.

use vstd::prelude::*;

verus! {

/// Largest pin index a digital event can carry (six bits).
pub const DIGITAL_PIN_MAX: u8 = 63;

/// Largest pin index an analog event can carry (five bits).
pub const ANALOG_PIN_MAX: u8 = 31;

/// Largest state a digital event can carry (one bit).
pub const DIGITAL_STATE_MAX: u16 = 1;

/// Largest state an analog event can carry (ten bits).
pub const ANALOG_STATE_MAX: u16 = 1023;

/// The kind of switch wired to a pin of the peripheral.
#[derive(Clone, Copy, Debug, PartialEq, Eq, Structural)]
pub enum SwitchKind {
    /// A binary input: tact switch, toggle switch.
    Digital,
    /// A multi-level input: potentiometer, analog joystick.
    Analog,
}

impl Default for SwitchKind {
    fn default() -> (kind: Self)
        ensures
            kind == SwitchKind::Digital,
    {
        SwitchKind::Digital
    }
}

/// One switch event as decoded from a frame.
#[derive(Clone, Copy, Debug, PartialEq, Eq, Structural)]
pub struct SwitchInfo {
    /// The kind of switch that produced the event.
    pub kind: SwitchKind,
    /// The pin of the peripheral the switch is wired to.
    pub pin: u8,
    /// The reading: 0 or 1 for a digital switch, a ten-bit value for an analog one.
    pub state: u16,
    /// Host time at which the event was decoded, in microseconds since the
    /// Unix epoch. It is not part of the frame.
    pub timestamp_micros: i64,
}

impl SwitchInfo {
    /// The pin and the state both fit the ranges that the wire format gives
    /// to events of this kind.
    pub open spec fn in_range(&self) -> bool {
        match self.kind {
            SwitchKind::Digital => self.pin <= DIGITAL_PIN_MAX && self.state <= DIGITAL_STATE_MAX,
            SwitchKind::Analog => self.pin <= ANALOG_PIN_MAX && self.state <= ANALOG_STATE_MAX,
        }
    }

    /// Two events agree on everything that came over the wire: kind, pin and
    /// state. The host-side timestamp is left out of the comparison.
    pub open spec fn same_reading(&self, other: &SwitchInfo) -> bool {
        &&& self.kind == other.kind
        &&& self.pin == other.pin
        &&& self.state == other.state
    }
}

impl Default for SwitchInfo {
    fn default() -> (info: Self)
        ensures
            info == (SwitchInfo {
                kind: SwitchKind::Digital,
                pin: 0,
                state: 0,
                timestamp_micros: 0,
            }),
            info.in_range(),
    {
        SwitchInfo { kind: SwitchKind::Digital, pin: 0, state: 0, timestamp_micros: 0 }
    }
}

} // verus!
