//! Routing of forwarded control events to OSC output addresses.
//!
//! The forwarder holds a static mapping from control identifiers to OSC
//! address strings, built once from configuration. An event whose control
//! identifier is unmapped produces no outbound send; when several
//! mappings name the same control, the last one wins.

use crate::midi::MidiControl;
use crate::SockAddress;
use vstd::prelude::*;

verus! {

/// One configured mapping from a control identifier to an OSC address.
#[derive(Debug)]
pub struct OscMapping {
    /// The control identifier to match.
    pub midi: MidiControl,
    /// The OSC address string events on that control go to.
    pub osc: String,
}

/// The OSC forwarding configuration: the destination socket address and
/// the control-to-address mappings.
#[derive(Debug)]
pub struct OscForward {
    /// Where OSC datagrams are sent.
    pub destination: SockAddress,
    /// The configured mappings.
    pub mappings: Vec<OscMapping>,
}

/// The OSC address the mappings give a control: the `osc` string of the
/// last mapping whose `midi` field equals the control, if any matches.
pub open spec fn osc_route_spec(mappings: Seq<OscMapping>, control: MidiControl) -> Option<
    Seq<char>,
>
    decreases mappings.len(),
{
    if mappings.len() == 0 {
        None
    } else if mappings.last().midi == control {
        Some(mappings.last().osc@)
    } else {
        osc_route_spec(mappings.drop_last(), control)
    }
}

/// No mapping names the control exactly when the route is `None`.
pub proof fn lemma_unmapped_control_not_routed(mappings: Seq<OscMapping>, control: MidiControl)
    ensures
        (osc_route_spec(mappings, control) is None) <==> (forall|j: int|
            0 <= j < mappings.len() ==> (#[trigger] mappings[j]).midi != control),
    decreases mappings.len(),
{
    if mappings.len() > 0 {
        lemma_unmapped_control_not_routed(mappings.drop_last(), control);
        assert(forall|j: int|
            0 <= j < mappings.len() - 1 ==> mappings.drop_last()[j] == mappings[j]);
    }
}

/// Look up the OSC address for a control identifier: the last matching
/// mapping wins; an unmapped control yields `None`.
pub fn osc_route<'a>(mappings: &'a Vec<OscMapping>, control: MidiControl) -> (r: Option<&'a String>)
    ensures
        match r {
            Some(addr) => osc_route_spec(mappings@, control) == Some(addr@),
            None => osc_route_spec(mappings@, control) is None,
        },
{
    let mut i: usize = mappings.len();
    assert(mappings@.take(i as int) =~= mappings@);
    while i > 0
        invariant
            i <= mappings@.len(),
            osc_route_spec(mappings@, control) == osc_route_spec(
                mappings@.take(i as int),
                control,
            ),
        decreases i,
    {
        i -= 1;
        proof {
            assert(mappings@.take(i + 1).last() == mappings@[i as int]);
            assert(mappings@.take(i + 1).drop_last() =~= mappings@.take(i as int));
        }
        if mappings[i].midi == control {
            return Some(&mappings[i].osc);
        }
    }
    None
}

} // verus!
