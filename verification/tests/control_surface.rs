use rescaler::midi::{get_named_port, midi_event_action, ControlAction, EventType, MidiControl};
use rescaler::osc::{osc_route, OscMapping};
use rescaler::scale::ScaleFactor;

fn scale_control() -> MidiControl {
    MidiControl { channel: 2, control: 40 }
}

#[test]
fn control_change_on_scale_control_updates_scale() {
    // Status 0xB2: control change on channel 2.
    let action = midi_event_action(scale_control(), 0xB2, 40, 64);
    assert_eq!(action, ControlAction::Scale(ScaleFactor::new(64, 127)));
}

#[test]
fn control_change_elsewhere_is_forwarded() {
    let action = midi_event_action(scale_control(), 0xB2, 41, 99);
    assert_eq!(
        action,
        ControlAction::Forward(MidiControl { channel: 2, control: 41 }, 99)
    );
    // Same controller number on another channel is a different control.
    let action = midi_event_action(scale_control(), 0xB3, 40, 99);
    assert_eq!(
        action,
        ControlAction::Forward(MidiControl { channel: 3, control: 40 }, 99)
    );
}

#[test]
fn notes_are_ignored_and_unknown_kinds_reported() {
    assert_eq!(
        midi_event_action(scale_control(), 0x92, 40, 64),
        ControlAction::Ignored(EventType::NoteOn)
    );
    assert_eq!(
        midi_event_action(scale_control(), 0x82, 40, 64),
        ControlAction::Ignored(EventType::NoteOff)
    );
    assert_eq!(
        midi_event_action(scale_control(), 0xE2, 40, 64),
        ControlAction::Unimplemented(0xE)
    );
}

#[test]
fn get_named_port_matches_exact_name_first() {
    let names = vec![
        String::from("Other Device"),
        String::from("Controller"),
        String::from("Controller"),
    ];
    assert_eq!(get_named_port(&names, &String::from("Controller")), Some(1));
    assert_eq!(get_named_port(&names, &String::from("Other Device")), Some(0));
    assert_eq!(get_named_port(&names, &String::from("controller")), None);
    assert_eq!(get_named_port(&Vec::new(), &String::from("Controller")), None);
}

#[test]
fn unmapped_control_produces_no_route() {
    let mappings = vec![
        OscMapping { midi: MidiControl { channel: 0, control: 1 }, osc: String::from("/a") },
        OscMapping { midi: MidiControl { channel: 0, control: 2 }, osc: String::from("/b") },
    ];
    assert_eq!(osc_route(&mappings, MidiControl { channel: 0, control: 3 }), None);
    // Other mappings are unaffected by the miss.
    assert_eq!(
        osc_route(&mappings, MidiControl { channel: 0, control: 2 }),
        Some(&String::from("/b"))
    );
}

#[test]
fn osc_route_last_mapping_wins() {
    let control = MidiControl { channel: 1, control: 9 };
    let mappings = vec![
        OscMapping { midi: control, osc: String::from("/first") },
        OscMapping { midi: control, osc: String::from("/second") },
    ];
    assert_eq!(osc_route(&mappings, control), Some(&String::from("/second")));
}
