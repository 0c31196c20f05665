use artnet_protocol::{ArtCommand, Output, Poll, PollReply};
use rescaler::dispatch::{
    Action, ActionTable, Config, ConfigError, DispatchState, Frame, UniverseActions,
};
use rescaler::midi::MidiControl;
use rescaler::osc::OscForward;
use rescaler::remap::Remapping;
use rescaler::scale::ScaleFactor;
use rescaler::{Host, SockAddress, PORT};

fn host() -> Host {
    Host::V4 { a: 10, b: 0, c: 0, d: 7 }
}

fn single_universe_state(universe: u16, rescale: bool, remap: Vec<Remapping>) -> DispatchState {
    let table = ActionTable {
        entries: vec![(universe, UniverseActions { rescale, remap, destination: host() })],
    };
    DispatchState::new(table)
}

fn decode_output(payload: &[u8]) -> Output {
    match ArtCommand::from_buffer(payload).expect("emitted frame should decode") {
        ArtCommand::Output(output) => output,
        other => panic!("emitted frame decoded to {:?}", other),
    }
}

#[test]
fn unconfigured_universe_is_dropped() {
    let mut state = single_universe_state(1, true, Vec::new());
    let scale_before = state.scale;
    let out = state.handle(Action::Packet(Frame { universe: 2, data: vec![1, 2, 3] }));
    assert!(out.is_empty());
    assert_eq!(state.scale, scale_before);
}

#[test]
fn poll_produces_one_reply_to_source_on_wellknown_port() {
    let mut state = single_universe_state(1, false, Vec::new());
    let source = SockAddress { host: Host::V4 { a: 192, b: 168, c: 0, d: 9 }, port: 39123 };
    let out = state.handle(Action::PollResp(source));
    assert_eq!(out.len(), 1);
    assert_eq!(out[0].dest, SockAddress { host: source.host, port: PORT });
    assert_eq!(out[0].payload.len(), 239);
    assert_eq!(&out[0].payload[26..34], b"rescaler");
    match ArtCommand::from_buffer(&out[0].payload).expect("reply should decode") {
        ArtCommand::PollReply(reply) => {
            assert_eq!(&reply.short_name[..8], b"rescaler");
            assert!(reply.short_name[8..].iter().all(|&b| b == 0));
            assert_eq!(reply.port, PORT);
        }
        other => panic!("reply decoded to {:?}", other),
    }
}

#[test]
fn scale_updates_apply_in_order_not_retroactively() {
    let mut state = single_universe_state(7, true, Vec::new());
    assert!(state.handle(Action::Scale(ScaleFactor::new(1, 2))).is_empty());
    let first = state.handle(Action::Packet(Frame { universe: 7, data: vec![200] }));
    assert!(state.handle(Action::Scale(ScaleFactor::one())).is_empty());
    let second = state.handle(Action::Packet(Frame { universe: 7, data: vec![200] }));

    assert_eq!(first.len(), 1);
    assert_eq!(second.len(), 1);
    assert_eq!(first[0].dest, SockAddress { host: host(), port: PORT });
    // The wire pads payloads to an even length with one zero byte.
    assert_eq!(decode_output(&first[0].payload).data.as_ref(), &vec![100u8, 0]);
    assert_eq!(decode_output(&second[0].payload).data.as_ref(), &vec![200u8, 0]);
}

#[test]
fn emitted_frame_keeps_universe_and_transforms_payload() {
    let rules = vec![Remapping { start: 1, length: 2, new_start: 0 }];
    let mut state = single_universe_state(12, true, rules);
    state.handle(Action::Scale(ScaleFactor::new(1, 2)));
    let out = state.handle(Action::Packet(Frame { universe: 12, data: vec![100, 200, 60] }));
    assert_eq!(out.len(), 1);
    let output = decode_output(&out[0].payload);
    assert_eq!(u16::from(output.port_address), 12);
    // Rescaled to [50, 100, 30], then bytes 1..3 remapped to the front of
    // a zeroed maximum-length payload.
    let data = output.data.as_ref();
    assert_eq!(data.len(), 512);
    assert_eq!(&data[..2], &[100u8, 30]);
    assert!(data[2..].iter().all(|&b| b == 0));
}

#[test]
fn oversized_payload_is_not_emitted() {
    let mut state = single_universe_state(3, false, Vec::new());
    let out = state.handle(Action::Packet(Frame { universe: 3, data: vec![1u8; 600] }));
    assert!(out.is_empty());
    let out = state.handle(Action::Packet(Frame { universe: 3, data: Vec::new() }));
    assert!(out.is_empty());
}

#[test]
fn receive_artnet_maps_decoded_kinds() {
    let from = SockAddress { host: Host::V4 { a: 2, b: 3, c: 4, d: 5 }, port: 51234 };

    let poll = ArtCommand::Poll(Poll::default()).write_to_buffer().unwrap();
    match rescaler::dispatch::receive_artnet(&poll, from) {
        Ok(Some(Action::PollResp(to))) => {
            assert_eq!(to, SockAddress { host: from.host, port: PORT });
        }
        other => panic!("poll mapped to {:?}", other),
    }

    let output = ArtCommand::Output(Output {
        port_address: 5.into(),
        data: vec![10, 20, 30, 40].into(),
        ..Output::default()
    })
    .write_to_buffer()
    .unwrap();
    match rescaler::dispatch::receive_artnet(&output, from) {
        Ok(Some(Action::Packet(frame))) => {
            assert_eq!(frame.universe, 5);
            assert_eq!(frame.data, vec![10, 20, 30, 40]);
        }
        other => panic!("output mapped to {:?}", other),
    }

    // A decoded kind the relay ignores, such as another node's poll reply.
    let reply = ArtCommand::PollReply(Box::new(PollReply::default()))
        .write_to_buffer()
        .unwrap();
    assert!(matches!(rescaler::dispatch::receive_artnet(&reply, from), Ok(None)));

    assert!(rescaler::dispatch::receive_artnet(b"not artnet at all", from).is_err());
}

fn config_with(universes: Vec<(u8, UniverseActions)>) -> Config {
    Config {
        midi_port: String::from("port"),
        rescale_midi_control: MidiControl { channel: 0, control: 1 },
        osc_forward: OscForward {
            destination: SockAddress { host: host(), port: 9000 },
            mappings: Vec::new(),
        },
        universes,
    }
}

#[test]
fn actions_builds_widened_table() {
    let config = config_with(vec![
        (0, UniverseActions { rescale: true, remap: Vec::new(), destination: host() }),
        (200, UniverseActions { rescale: false, remap: Vec::new(), destination: host() }),
    ]);
    let table = config.actions().expect("valid configuration");
    assert_eq!(table.entries.len(), 2);
    assert_eq!(table.entries[0].0, 0u16);
    assert_eq!(table.entries[1].0, 200u16);
    assert!(table.lookup(200).is_some());
    assert!(table.lookup(1).is_none());
}

#[test]
fn actions_rejects_remap_past_maximum_payload() {
    let config = config_with(vec![(
        1,
        UniverseActions {
            rescale: false,
            remap: vec![Remapping { start: 0, length: 3, new_start: 510 }],
            destination: host(),
        },
    )]);
    assert_eq!(config.actions().unwrap_err(), ConfigError::RemapOutOfRange);
}

#[test]
fn scale_update_mutates_state_and_emits_nothing() {
    let mut state = single_universe_state(1, true, Vec::new());
    assert_eq!(state.scale, ScaleFactor::one());
    let out = state.handle(Action::Scale(ScaleFactor::new(3, 4)));
    assert!(out.is_empty());
    assert_eq!(state.scale, ScaleFactor::new(3, 4));
}

#[test]
fn config_errors_describe_themselves() {
    assert_eq!(
        ConfigError::RemapOutOfRange.describe(),
        "remap rule destination range exceeds the maximum payload length"
    );
    assert_eq!(
        ConfigError::DuplicateUniverse.describe(),
        "two universe entries name the same universe"
    );
}

#[test]
fn actions_rejects_duplicate_universe() {
    let config = config_with(vec![
        (4, UniverseActions { rescale: false, remap: Vec::new(), destination: host() }),
        (4, UniverseActions { rescale: true, remap: Vec::new(), destination: host() }),
    ]);
    assert_eq!(config.actions().unwrap_err(), ConfigError::DuplicateUniverse);
}
