//! The dispatch engine: the relay's single point of serialization.
//!
//! All mutable state (the live scale factor and the per-universe action
//! table) is owned by one `DispatchState`, mutated only by consuming one
//! `Action` at a time. Each consumed action yields the exact list of
//! datagrams to send, so the sequence of observed effects is the arrival
//! order of the actions.

use crate::artnet::{
    artnet_decode_of, artnet_output_bytes, artnet_poll_reply_bytes, decode_art_command,
    encode_output, node_name_bytes, pad_even, poll_response, reply_name_field, DecodedFrame,
    FrameKind,
};
use crate::remap::{remap_result, remap_universe, Remapping, UNIVERSE_MAX};
use crate::scale::{rescale_result, rescale_universe, ScaleFactor};
use crate::{Host, Outbound, SockAddress, PORT};
use vstd::prelude::*;

verus! {

/// What the relay does with frames for one configured universe: rescale
/// or not, remap by the listed rules, and forward to a destination.
#[derive(Debug)]
pub struct UniverseActions {
    /// Whether the live scale factor applies to this universe.
    pub rescale: bool,
    /// The remap rules, applied in order; empty means no remapping.
    pub remap: Vec<Remapping>,
    /// The host the transformed frame is sent to, on the well-known port.
    pub destination: Host,
}

impl UniverseActions {
    /// Every remap rule's destination range fits in the protocol-maximum
    /// payload.
    pub open spec fn wf(self) -> bool {
        forall|j: int| 0 <= j < self.remap@.len() ==> (#[trigger] self.remap@[j]).dest_ok()
    }

    /// The same configuration, field for field.
    pub open spec fn eqv(self, other: UniverseActions) -> bool {
        self.rescale == other.rescale && self.remap@ == other.remap@ && self.destination
            == other.destination
    }

    /// An owned copy with the same field values.
    pub fn duplicate(&self) -> (r: UniverseActions)
        ensures
            r.eqv(*self),
    {
        let mut remap: Vec<Remapping> = Vec::new();
        let mut i: usize = 0;
        while i < self.remap.len()
            invariant
                i <= self.remap@.len(),
                remap@ == self.remap@.take(i as int),
            decreases self.remap@.len() - i,
        {
            remap.push(self.remap[i]);
            proof {
                assert(self.remap@.take(i + 1) =~= self.remap@.take(i as int).push(
                    self.remap@[i as int],
                ));
            }
            i += 1;
        }
        assert(self.remap@.take(self.remap@.len() as int) =~= self.remap@);
        UniverseActions { rescale: self.rescale, remap, destination: self.destination }
    }
}

/// The payload a configured universe's frame is transformed to: rescaled
/// by the current scale if configured, then remapped if any rule is
/// configured.
pub open spec fn transform_spec(ua: UniverseActions, scale: ScaleFactor, data: Seq<u8>) -> Seq<
    u8,
> {
    let rescaled = if ua.rescale {
        rescale_result(scale, data)
    } else {
        data
    };
    if ua.remap@.len() > 0 {
        remap_result(ua.remap@, rescaled)
    } else {
        rescaled
    }
}

/// The first-match lookup over a sequence of keyed entries.
pub open spec fn table_lookup(entries: Seq<(u16, UniverseActions)>, universe: u16) -> Option<
    UniverseActions,
>
    decreases entries.len(),
{
    if entries.len() == 0 {
        None
    } else if entries.first().0 == universe {
        Some(entries.first().1)
    } else {
        table_lookup(entries.drop_first(), universe)
    }
}

/// The per-universe action table, built once from configuration and
/// immutable for the process lifetime.
#[derive(Debug)]
pub struct ActionTable {
    /// The configured universes and their actions; keys are unique.
    pub entries: Vec<(u16, UniverseActions)>,
}

impl ActionTable {
    /// Keys are unique and every entry's remap rules stay in bounds.
    pub open spec fn wf(self) -> bool {
        &&& forall|i: int, j: int|
            0 <= i < j < self.entries@.len() ==> (#[trigger] self.entries@[i]).0 != (
            #[trigger] self.entries@[j]).0
        &&& forall|i: int| 0 <= i < self.entries@.len() ==> (#[trigger] self.entries@[i]).1.wf()
    }

    /// The actions configured for a universe, if any.
    pub open spec fn lookup_spec(self, universe: u16) -> Option<UniverseActions> {
        table_lookup(self.entries@, universe)
    }

    /// Look a universe up in the table.
    pub fn lookup(&self, universe: u16) -> (r: Option<&UniverseActions>)
        ensures
            match r {
                Some(ua) => self.lookup_spec(universe) == Some(*ua),
                None => self.lookup_spec(universe) is None,
            },
    {
        let mut i: usize = 0;
        assert(self.entries@.skip(0) =~= self.entries@);
        while i < self.entries.len()
            invariant
                i <= self.entries@.len(),
                table_lookup(self.entries@, universe) == table_lookup(
                    self.entries@.skip(i as int),
                    universe,
                ),
            decreases self.entries@.len() - i,
        {
            proof {
                assert(self.entries@.skip(i as int).first() == self.entries@[i as int]);
                assert(self.entries@.skip(i as int).drop_first() =~= self.entries@.skip(i + 1));
            }
            if self.entries[i].0 == universe {
                return Some(&self.entries[i].1);
            }
            i += 1;
        }
        None
    }
}

/// A successful lookup returns a value that stands in the entries, keyed
/// by the universe looked up, so a found entry satisfies everything the
/// table's well-formedness says of its entries.
pub proof fn lemma_table_lookup_in_entries(entries: Seq<(u16, UniverseActions)>, universe: u16)
    requires
        table_lookup(entries, universe) is Some,
    ensures
        exists|k: int|
            0 <= k < entries.len() && #[trigger] entries[k] == (
                universe,
                table_lookup(entries, universe).unwrap(),
            ),
    decreases entries.len(),
{
    if entries.first().0 == universe {
        assert(entries[0] == (universe, table_lookup(entries, universe).unwrap()));
    } else {
        lemma_table_lookup_in_entries(entries.drop_first(), universe);
        let rest = entries.drop_first();
        let k = choose|k: int|
            0 <= k < rest.len() && #[trigger] rest[k] == (
                universe,
                table_lookup(rest, universe).unwrap(),
            );
        assert(entries[k + 1] == (universe, table_lookup(entries, universe).unwrap()));
    }
}

/// A universe output frame as the relay handles it: the universe
/// identifier and the channel levels.
#[derive(Debug)]
pub struct Frame {
    /// The 15-bit universe identifier.
    pub universe: u16,
    /// The channel levels.
    pub data: Vec<u8>,
}

/// One message consumed by the dispatch engine.
#[derive(Debug)]
pub enum Action {
    /// Replace the live scale factor.
    Scale(ScaleFactor),
    /// Transform and forward a universe output frame.
    Packet(Frame),
    /// Answer a discovery poll, replying to the given address.
    PollResp(SockAddress),
}

/// A datagram the codec rejected.
#[derive(Debug, PartialEq, Eq, Structural)]
pub struct DecodeError;

/// The dispatch message a decoded datagram produces: a poll becomes a
/// reply request addressed to the poll's source on the well-known port, a
/// universe output frame is handed on as it is, every other kind produces
/// nothing, and a rejected datagram is an error.
pub open spec fn action_for(
    kind: FrameKind,
    from: SockAddress,
    r: Result<Option<Action>, DecodeError>,
) -> bool {
    match kind {
        FrameKind::Poll => r matches Ok(Some(Action::PollResp(to))) && to == (SockAddress {
            host: from.host,
            port: PORT,
        }),
        FrameKind::Output { universe, data } => r matches Ok(Some(Action::Packet(f)))
            && f.universe == universe && f.data@ == data,
        FrameKind::Other => r matches Ok(None),
        FrameKind::Invalid => r is Err,
    }
}

/// Turn one decoded datagram into the dispatch message it stands for.
pub fn frame_action(decoded: DecodedFrame, from: SockAddress) -> (r: Result<
    Option<Action>,
    DecodeError,
>)
    ensures
        action_for(decoded@, from, r),
{
    match decoded {
        DecodedFrame::Poll => Ok(Some(Action::PollResp(from.with_port(PORT)))),
        DecodedFrame::Output { universe, data } => Ok(
            Some(Action::Packet(Frame { universe, data })),
        ),
        DecodedFrame::Other => Ok(None),
        DecodedFrame::Invalid => Err(DecodeError),
    }
}

/// Decode one raw datagram and turn it into the dispatch message it
/// stands for: a poll becomes a reply request addressed to `from` on the
/// well-known port, a universe output frame becomes a packet action, any
/// other well-formed kind produces nothing, and a datagram the codec
/// rejects is an error.
pub fn receive_artnet(buf: &[u8], from: SockAddress) -> (r: Result<Option<Action>, DecodeError>)
    ensures
        action_for(artnet_decode_of(buf@), from, r),
{
    frame_action(decode_art_command(buf), from)
}

/// All state the dispatch engine owns: the live scale factor and the
/// immutable action table.
#[derive(Debug)]
pub struct DispatchState {
    /// The current scale factor; replaced by consuming a scale action.
    pub scale: ScaleFactor,
    /// The per-universe action table.
    pub table: ActionTable,
}

/// What consuming one action does: the state after it, and the datagrams
/// it emits, each a destination and the bytes to send.
pub open spec fn handle_spec(s: DispatchState, action: Action) -> (DispatchState, Seq<
    (SockAddress, Seq<u8>),
>) {
    match action {
        Action::Scale(v) => (DispatchState { scale: v, table: s.table }, Seq::empty()),
        Action::PollResp(addr) => (
            s,
            seq![
                (
                    SockAddress { host: addr.host, port: PORT },
                    artnet_poll_reply_bytes(reply_name_field()),
                ),
            ],
        ),
        Action::Packet(f) => (
            s,
            match s.table.lookup_spec(f.universe) {
                None => Seq::empty(),
                Some(ua) => {
                    let out = transform_spec(ua, s.scale, f.data@);
                    if f.universe <= 32767 && 1 <= out.len() <= UNIVERSE_MAX {
                        seq![
                            (
                                SockAddress { host: ua.destination, port: PORT },
                                artnet_output_bytes(f.universe, out),
                            ),
                        ]
                    } else {
                        Seq::empty()
                    }
                },
            },
        ),
    }
}

impl DispatchState {
    /// The table stays well formed and the scale stays in [0, 1].
    pub open spec fn wf(self) -> bool {
        self.scale.wf() && self.table.wf()
    }

    /// The engine's state at startup: the identity scale and the table
    /// built from configuration.
    pub fn new(table: ActionTable) -> (r: DispatchState)
        ensures
            r.table == table,
            r.scale.wf(),
            r.scale.num == r.scale.den,
            table.wf() ==> r.wf(),
    {
        DispatchState { scale: ScaleFactor::one(), table }
    }

    /// Consume one action: update the state and return the datagrams to
    /// send, exactly as `handle_spec` says. An emitted poll reply carries
    /// the identifying name; an emitted frame decodes back to the
    /// transformed payload (padded to an even length) at the frame's own
    /// universe.
    pub fn handle(&mut self, action: Action) -> (out: Vec<Outbound>)
        requires
            old(self).wf(),
            action matches Action::Scale(v) ==> v.wf(),
        ensures
            final(self).wf(),
            *final(self) == handle_spec(*old(self), action).0,
            out@.len() == handle_spec(*old(self), action).1.len(),
            forall|i: int|
                0 <= i < out@.len() ==> (out@[i].dest, out@[i].payload@) == handle_spec(
                    *old(self),
                    action,
                ).1[i],
            action is PollResp && out@.len() == 1 ==> out@[0].payload@.len() == 239
                && out@[0].payload@.subrange(26, 34) == node_name_bytes(),
            action matches Action::Packet(f) ==> (out@.len() == 1 ==> (old(
                self,
            ).table.lookup_spec(f.universe) matches Some(ua) && artnet_decode_of(
                out@[0].payload@,
            ) == (FrameKind::Output {
                universe: f.universe,
                data: pad_even(transform_spec(ua, old(self).scale, f.data@)),
            }))),
    {
        let mut out: Vec<Outbound> = Vec::new();
        match action {
            Action::Scale(v) => {
                self.scale = v;
            },
            Action::PollResp(addr) => {
                let payload = poll_response();
                out.push(
                    Outbound { dest: SockAddress { host: addr.host, port: PORT }, payload },
                );
            },
            Action::Packet(f) => {
                match self.table.lookup(f.universe) {
                    None => {},
                    Some(ua) => {
                        proof {
                            lemma_table_lookup_in_entries(self.table.entries@, f.universe);
                        }
                        let mut data = f.data;
                        if ua.rescale {
                            rescale_universe(self.scale, &mut data);
                        }
                        if ua.remap.len() > 0 {
                            remap_universe(&ua.remap, &mut data);
                        }
                        match encode_output(f.universe, &data) {
                            Some(payload) => {
                                out.push(
                                    Outbound {
                                        dest: SockAddress { host: ua.destination, port: PORT },
                                        payload,
                                    },
                                );
                            },
                            None => {},
                        }
                    },
                }
            },
        }
        out
    }
}

/// A configuration shape the relay rejects at startup.
#[derive(Debug, Clone, Copy, PartialEq, Eq, Structural)]
pub enum ConfigError {
    /// Some remap rule's destination range runs past the protocol-maximum
    /// payload length.
    RemapOutOfRange,
    /// Two universe entries name the same universe.
    DuplicateUniverse,
}

impl ConfigError {
    /// A short description, for reporting the startup failure.
    pub fn describe(&self) -> (r: &'static str)
        ensures
            r@.len() > 0,
    {
        let r = match self {
            ConfigError::RemapOutOfRange => "remap rule destination range exceeds the maximum payload length",
            ConfigError::DuplicateUniverse => "two universe entries name the same universe",
        };
        proof {
            reveal_strlit("remap rule destination range exceeds the maximum payload length");
            reveal_strlit("two universe entries name the same universe");
        }
        r
    }
}

/// Every remap rule of every universe keeps its destination range inside
/// the protocol-maximum payload.
pub open spec fn all_rules_dest_ok(universes: Seq<(u8, UniverseActions)>) -> bool {
    forall|i: int| 0 <= i < universes.len() ==> (#[trigger] universes[i]).1.wf()
}

/// No two universe entries name the same universe.
pub open spec fn keys_unique(universes: Seq<(u8, UniverseActions)>) -> bool {
    forall|i: int, j: int|
        0 <= i < j < universes.len() ==> (#[trigger] universes[i]).0 != (
        #[trigger] universes[j]).0
}

/// The relay's configuration, as the core consumes it: the name of the
/// control-surface input port, the designated scale control, the OSC
/// forwarding setup, and the per-universe actions.
#[derive(Debug)]
pub struct Config {
    /// The exact name of the control-surface input port to open.
    pub midi_port: String,
    /// The control identifier that drives the live scale factor.
    pub rescale_midi_control: crate::midi::MidiControl,
    /// The OSC forwarding destination and mappings.
    pub osc_forward: crate::osc::OscForward,
    /// The configured universes and what to do with their frames.
    pub universes: Vec<(u8, UniverseActions)>,
}

impl Config {
    /// Build the action table the dispatch engine runs on, widening each
    /// universe identifier to the protocol's addressing width. A
    /// configuration whose remap rules run out of range, or that names a
    /// universe twice, is rejected.
    pub fn actions(&self) -> (r: Result<ActionTable, ConfigError>)
        ensures
            r is Ok <==> (all_rules_dest_ok(self.universes@) && keys_unique(self.universes@)),
            r == Err::<ActionTable, ConfigError>(ConfigError::RemapOutOfRange) <==> !all_rules_dest_ok(
                self.universes@,
            ),
            r matches Ok(t) ==> t.wf() && t.entries@.len() == self.universes@.len() && (forall|
                i: int,
            |
                0 <= i < self.universes@.len() ==> (#[trigger] t.entries@[i]).0 == (
                self.universes@[i].0 as u16) && t.entries@[i].1.eqv(self.universes@[i].1)),
    {
        let n = self.universes.len();
        let mut i: usize = 0;
        while i < n
            invariant
                n == self.universes@.len(),
                i <= n,
                forall|k: int| 0 <= k < i ==> (#[trigger] self.universes@[k]).1.wf(),
            decreases n - i,
        {
            let rules = &self.universes[i].1.remap;
            let mut j: usize = 0;
            while j < rules.len()
                invariant
                    n == self.universes@.len(),
                    i < n,
                    rules@ == self.universes@[i as int].1.remap@,
                    j <= rules@.len(),
                    forall|k: int| 0 <= k < j ==> (#[trigger] rules@[k]).dest_ok(),
                decreases rules@.len() - j,
            {
                let rule = rules[j];
                if !(rule.length <= UNIVERSE_MAX && rule.new_start <= UNIVERSE_MAX - rule.length) {
                    assert(!rule.dest_ok());
                    assert(!(#[trigger] self.universes@[i as int]).1.wf());
                    assert(!all_rules_dest_ok(self.universes@));
                    return Err(ConfigError::RemapOutOfRange);
                }
                j += 1;
            }
            i += 1;
        }
        assert(all_rules_dest_ok(self.universes@));
        let mut i: usize = 0;
        while i < n
            invariant
                n == self.universes@.len(),
                i <= n,
                all_rules_dest_ok(self.universes@),
                forall|a: int, b: int|
                    0 <= a < b < n && a < i ==> (#[trigger] self.universes@[a]).0 != (
                    #[trigger] self.universes@[b]).0,
            decreases n - i,
        {
            let key = self.universes[i].0;
            let mut j: usize = i + 1;
            while j < n
                invariant
                    n == self.universes@.len(),
                    i < j,
                    i < n,
                    j <= n,
                    all_rules_dest_ok(self.universes@),
                    key == self.universes@[i as int].0,
                    forall|b: int|
                        i < b < j ==> (#[trigger] self.universes@[b]).0 != self.universes@[i as int].0,
                decreases n - j,
            {
                if self.universes[j].0 == key {
                    assert((#[trigger] self.universes@[j as int]).0 == (
                    #[trigger] self.universes@[i as int]).0);
                    assert(!keys_unique(self.universes@));
                    return Err(ConfigError::DuplicateUniverse);
                }
                j += 1;
            }
            i += 1;
        }
        assert(keys_unique(self.universes@));
        let mut entries: Vec<(u16, UniverseActions)> = Vec::new();
        let mut i: usize = 0;
        while i < n
            invariant
                n == self.universes@.len(),
                i <= n,
                all_rules_dest_ok(self.universes@),
                keys_unique(self.universes@),
                entries@.len() == i,
                forall|k: int|
                    0 <= k < i ==> (#[trigger] entries@[k]).0 == (self.universes@[k].0 as u16)
                        && entries@[k].1.eqv(self.universes@[k].1),
            decreases n - i,
        {
            let key: u16 = self.universes[i].0 as u16;
            let ua = self.universes[i].1.duplicate();
            entries.push((key, ua));
            i += 1;
        }
        let table = ActionTable { entries };
        assert forall|a: int, b: int| 0 <= a < b < table.entries@.len() implies (
        #[trigger] table.entries@[a]).0 != (#[trigger] table.entries@[b]).0 by {
            assert(self.universes@[a].0 != self.universes@[b].0);
        }
        assert forall|k: int| 0 <= k < table.entries@.len() implies (
        #[trigger] table.entries@[k]).1.wf() by {
            assert(self.universes@[k].1.wf());
        }
        Ok(table)
    }
}

/// A frame for a universe absent from the action table produces no
/// outbound sends and no state change.
pub proof fn lemma_unconfigured_universe_dropped(s: DispatchState, f: Frame)
    requires
        s.table.lookup_spec(f.universe) is None,
    ensures
        handle_spec(s, Action::Packet(f)).0 == s,
        handle_spec(s, Action::Packet(f)).1 =~= Seq::<(SockAddress, Seq<u8>)>::empty(),
{
}

/// A poll produces exactly one reply, addressed to the poll's source host
/// on the well-known port, and no state change.
pub proof fn lemma_poll_reply(s: DispatchState, addr: SockAddress)
    ensures
        handle_spec(s, Action::PollResp(addr)).0 == s,
        handle_spec(s, Action::PollResp(addr)).1 =~= seq![
            (
                SockAddress { host: addr.host, port: PORT },
                artnet_poll_reply_bytes(reply_name_field()),
            ),
        ],
{
}

/// Scale updates apply in arrival order and never retroactively: in the
/// sequence update, frame, update, frame, for a universe configured to
/// rescale and not remap, each frame is emitted rescaled by exactly the
/// update that preceded it.
pub proof fn lemma_scale_updates_apply_in_order(
    s0: DispatchState,
    v1: ScaleFactor,
    v2: ScaleFactor,
    f: Frame,
)
    requires
        s0.table.lookup_spec(f.universe) matches Some(ua) && ua.rescale && ua.remap@.len() == 0,
        f.universe <= 32767,
        1 <= f.data@.len() <= UNIVERSE_MAX,
    ensures
        ({
            let ua = s0.table.lookup_spec(f.universe).unwrap();
            let dest = SockAddress { host: ua.destination, port: PORT };
            let (s1, o1) = handle_spec(s0, Action::Scale(v1));
            let (s2, o2) = handle_spec(s1, Action::Packet(f));
            let (s3, o3) = handle_spec(s2, Action::Scale(v2));
            let (s4, o4) = handle_spec(s3, Action::Packet(f));
            o1.len() == 0 && o3.len() == 0 && o2 =~= seq![
                (dest, artnet_output_bytes(f.universe, rescale_result(v1, f.data@))),
            ] && o4 =~= seq![
                (dest, artnet_output_bytes(f.universe, rescale_result(v2, f.data@))),
            ]
        }),
{
}

} // verus!
