//! The boundary to the wire-protocol codec.
//!
//! The byte-level encode and decode of the lighting-control protocol is
//! the `artnet_protocol` crate's job; this module holds the trusted
//! wrappers around it, the plain decoded-message type the rest of the
//! library works on, and the discovery-reply builder. Every wrapper's
//! contract states only what the codec's source shows.

use crate::PORT;
use vstd::prelude::*;

verus! {

/// The decoded kind of an inbound datagram, reduced to what the relay
/// reacts to. `Other` is a well-formed message of a kind the relay
/// ignores; `Invalid` is a datagram the codec rejected.
#[derive(Debug)]
pub enum DecodedFrame {
    /// A discovery poll.
    Poll,
    /// A universe output frame: the universe identifier and its payload.
    Output {
        /// The 15-bit universe identifier.
        universe: u16,
        /// The channel levels the frame carries.
        data: Vec<u8>,
    },
    /// Any other decoded message kind; the relay ignores it.
    Other,
    /// A datagram the codec could not decode.
    Invalid,
}

/// The spec-level value of a decoded datagram.
pub enum FrameKind {
    /// A discovery poll.
    Poll,
    /// A universe output frame.
    Output { universe: u16, data: Seq<u8> },
    /// Any other decoded message kind.
    Other,
    /// A datagram the codec could not decode.
    Invalid,
}

impl View for DecodedFrame {
    type V = FrameKind;

    open spec fn view(&self) -> FrameKind {
        match self {
            DecodedFrame::Poll => FrameKind::Poll,
            DecodedFrame::Output { universe, data } => FrameKind::Output {
                universe: *universe,
                data: data@,
            },
            DecodedFrame::Other => FrameKind::Other,
            DecodedFrame::Invalid => FrameKind::Invalid,
        }
    }
}

/// What the codec decodes a byte sequence to. The codec's result depends
/// on the bytes alone.
pub uninterp spec fn artnet_decode_of(buf: Seq<u8>) -> FrameKind;

/// What the codec encodes a universe output frame to, for a universe
/// identifier and payload it accepts. The result depends on the
/// arguments alone.
pub uninterp spec fn artnet_output_bytes(universe: u16, data: Seq<u8>) -> Seq<u8>;

/// What the codec encodes the relay's discovery reply to, for a given
/// 18-byte short-name field. The result depends on the name alone.
pub uninterp spec fn artnet_poll_reply_bytes(name: Seq<u8>) -> Seq<u8>;

/// A payload as the wire carries it: padded with one zero byte when its
/// length is odd, since the protocol sends an even number of data bytes.
pub open spec fn pad_even(data: Seq<u8>) -> Seq<u8> {
    if data.len() % 2 == 1 {
        data.push(0u8)
    } else {
        data
    }
}

/// Relies on `artnet_protocol::ArtCommand::from_buffer`: decoding is a
/// function of the bytes alone. A `Poll` decodes to `Poll`, an `Output`
/// to its 15-bit universe identifier and payload, every other decoded
/// kind to `Other`, and a decode error to `Invalid`.
#[verifier::external_body]
pub fn decode_art_command(buf: &[u8]) -> (r: DecodedFrame)
    ensures
        r@ == artnet_decode_of(buf@),
{
    match artnet_protocol::ArtCommand::from_buffer(buf) {
        Ok(artnet_protocol::ArtCommand::Poll(_)) => DecodedFrame::Poll,
        Ok(artnet_protocol::ArtCommand::Output(output)) => DecodedFrame::Output {
            universe: u16::from(output.port_address),
            data: output.data.as_ref().clone(),
        },
        Ok(_) => DecodedFrame::Other,
        Err(_) => DecodedFrame::Invalid,
    }
}

/// Relies on `artnet_protocol::ArtCommand::write_to_buffer` on an
/// `Output` command: encoding succeeds exactly when the universe
/// identifier fits in 15 bits and the payload length is between 1 and
/// 512; the encoded frame decodes back to the same universe and the
/// payload padded to an even length.
#[verifier::external_body]
pub fn encode_output(universe: u16, data: &Vec<u8>) -> (r: Option<Vec<u8>>)
    ensures
        r is Some <==> (universe <= 32767 && 1 <= data@.len() <= 512),
        r matches Some(b) ==> b@ == artnet_output_bytes(universe, data@),
        r matches Some(b) ==> artnet_decode_of(b@) == (FrameKind::Output {
            universe,
            data: pad_even(data@),
        }),
{
    let port_address = match artnet_protocol::PortAddress::try_from(universe) {
        Ok(p) => p,
        Err(_) => return None,
    };
    let output = artnet_protocol::Output {
        port_address,
        data: data.clone().into(),
        ..Default::default()
    };
    artnet_protocol::ArtCommand::Output(output).write_to_buffer().ok()
}

/// Relies on `artnet_protocol::ArtCommand::write_to_buffer` on a
/// `PollReply` command, which the codec's source shows cannot fail: every
/// field is a fixed-width write. The reply is 239 bytes; its short-name
/// field sits at bytes 26..44.
#[verifier::external_body]
pub fn encode_poll_reply(name: &Vec<u8>) -> (r: Vec<u8>)
    requires
        name@.len() == 18,
    ensures
        r@ == artnet_poll_reply_bytes(name@),
        r@.len() == 239,
        r@.subrange(26, 44) == name@,
{
    let mut short_name = [0u8; 18];
    short_name.copy_from_slice(&name[..]);
    let reply = artnet_protocol::PollReply {
        address: [1u8, 1, 1, 1].into(),
        port: PORT,
        short_name,
        ..Default::default()
    };
    match artnet_protocol::ArtCommand::PollReply(Box::new(reply)).write_to_buffer() {
        Ok(buf) => buf,
        Err(_) => Vec::new(),
    }
}

/// The identifying short name the relay announces, as the bytes of
/// `"rescaler"`.
pub open spec fn node_name_bytes() -> Seq<u8> {
    seq![114u8, 101u8, 115u8, 99u8, 97u8, 108u8, 101u8, 114u8]
}

/// The 18-byte short-name field of the relay's discovery reply: the
/// identifying name, zero-padded.
pub open spec fn reply_name_field() -> Seq<u8> {
    node_name_bytes() + Seq::new(10, |i: int| 0u8)
}

/// Build the short-name field: the identifying name followed by zeros.
pub fn reply_short_name() -> (r: Vec<u8>)
    ensures
        r@ == reply_name_field(),
        r@.len() == 18,
{
    let mut name: Vec<u8> = Vec::new();
    name.push(114u8);
    name.push(101u8);
    name.push(115u8);
    name.push(99u8);
    name.push(97u8);
    name.push(108u8);
    name.push(101u8);
    name.push(114u8);
    assert(name@ =~= node_name_bytes());
    let mut i: usize = 0;
    while i < 10
        invariant
            i <= 10,
            name@.len() == 8 + i,
            forall|j: int| 0 <= j < 8 ==> name@[j] == node_name_bytes()[j],
            forall|j: int| 8 <= j < name@.len() ==> name@[j] == 0u8,
        decreases 10 - i,
    {
        name.push(0u8);
        i += 1;
    }
    assert(name@ =~= reply_name_field());
    name
}

/// The encoded discovery reply: a fixed-shape announcement carrying the
/// identifying name in its short-name field.
pub fn poll_response() -> (r: Vec<u8>)
    ensures
        r@ == artnet_poll_reply_bytes(reply_name_field()),
        r@.len() == 239,
        r@.subrange(26, 44) == reply_name_field(),
        r@.subrange(26, 34) == node_name_bytes(),
{
    let name = reply_short_name();
    let r = encode_poll_reply(&name);
    assert(r@.subrange(26, 34) =~= r@.subrange(26, 44).subrange(0, 8));
    assert(reply_name_field().subrange(0, 8) =~= node_name_bytes());
    r
}

} // verus!
