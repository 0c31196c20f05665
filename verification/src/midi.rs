//! Decoding of raw control-surface events.
//!
//! A raw event arrives as three bytes in the conventional compact form:
//! a status byte whose high nibble is the event kind and whose low nibble
//! is the channel, then two data bytes. Only control-change events matter
//! to the relay: the one matching the designated scale control becomes a
//! scale update, every other one is forwarded to the OSC path.

use crate::scale::{unipolar_from_midi, ScaleFactor, MIDI_VALUE_MAX};
use vstd::prelude::*;

verus! {

/// A control identifier: the channel and the controller number.
#[derive(Clone, Copy, Debug, Hash, PartialEq, Eq, Structural)]
pub struct MidiControl {
    /// The channel, from the status byte's low nibble.
    pub channel: u8,
    /// The controller number, from the first data byte.
    pub control: u8,
}

/// Specification for what type of midi event.
#[derive(Debug, Copy, Clone, Hash, PartialEq, Eq, Structural)]
pub enum EventType {
    /// A key released.
    NoteOff,
    /// A key pressed.
    NoteOn,
    /// A controller moved.
    ControlChange,
}

/// What a raw control-surface event means to the relay.
#[derive(Debug, PartialEq, Eq, Structural)]
pub enum ControlAction {
    /// An event kind the relay does not implement; logged and dropped.
    Unimplemented(u8),
    /// An implemented kind that is not a control change; dropped silently.
    Ignored(EventType),
    /// The designated scale control moved: update the live scale.
    Scale(ScaleFactor),
    /// Any other control change: forward to the OSC path.
    Forward(MidiControl, u8),
}

/// The event kind a status byte's high nibble selects, if implemented.
pub open spec fn classify_spec(status: u8) -> Option<EventType> {
    match status >> 4 {
        8u8 => Some(EventType::NoteOff),
        9u8 => Some(EventType::NoteOn),
        11u8 => Some(EventType::ControlChange),
        _ => None,
    }
}

/// The control identifier a control-change event names.
pub open spec fn control_of(status: u8, data1: u8) -> MidiControl {
    MidiControl { channel: status & 15, control: data1 }
}

/// Decode one raw three-byte event against the designated scale control.
pub fn midi_event_action(rescale_control: MidiControl, status: u8, data1: u8, data2: u8) -> (r:
    ControlAction)
    ensures
        r == (match classify_spec(status) {
            None => ControlAction::Unimplemented(status >> 4),
            Some(EventType::ControlChange) => {
                if control_of(status, data1) == rescale_control {
                    ControlAction::Scale(
                        ScaleFactor {
                            num: if data2 as u16 > MIDI_VALUE_MAX {
                                MIDI_VALUE_MAX
                            } else {
                                data2 as u16
                            },
                            den: MIDI_VALUE_MAX,
                        },
                    )
                } else {
                    ControlAction::Forward(control_of(status, data1), data2)
                }
            },
            Some(kind) => ControlAction::Ignored(kind),
        }),
        r matches ControlAction::Scale(s) ==> s.wf(),
{
    let kind = status >> 4;
    let event_type = match kind {
        8 => EventType::NoteOff,
        9 => EventType::NoteOn,
        11 => EventType::ControlChange,
        _ => {
            return ControlAction::Unimplemented(kind);
        },
    };
    if !matches!(event_type, EventType::ControlChange) {
        return ControlAction::Ignored(event_type);
    }
    let control = MidiControl { channel: status & 15, control: data1 };
    if control == rescale_control {
        ControlAction::Scale(unipolar_from_midi(data2))
    } else {
        ControlAction::Forward(control, data2)
    }
}

/// The position of the first port whose name equals `name` exactly, if
/// any port matches.
pub fn get_named_port(port_names: &Vec<String>, name: &String) -> (r: Option<usize>)
    ensures
        match r {
            Some(i) => i < port_names@.len() && port_names@[i as int]@ == name@ && (forall|j: int|
                0 <= j < i ==> port_names@[j]@ != name@),
            None => forall|j: int| 0 <= j < port_names@.len() ==> port_names@[j]@ != name@,
        },
{
    let mut i: usize = 0;
    while i < port_names.len()
        invariant
            i <= port_names@.len(),
            forall|j: int| 0 <= j < i ==> port_names@[j]@ != name@,
        decreases port_names@.len() - i,
    {
        if port_names[i].eq(name) {
            return Some(i);
        }
        i += 1;
    }
    None
}

} // verus!
