use vstd::prelude::*;

use crate::codec::{decode, encode, encoding_of, spec_decode, ParseError};
use crate::identity::{valid_name, Identity};
use crate::net::SocketAddress;

verus! {

/// A peer identity paired with the network address it was seen from,
/// produced transiently on message receipt and consumed by logging.
#[derive(Clone, Debug, PartialEq, Eq)]
pub struct Observation {
    pub peer: Identity,
    pub source: SocketAddress,
}

/// What the global responder does with one received datagram.
#[derive(Debug)]
pub enum ResponderStep {
    /// The payload decoded: log the observation and send the reply payload,
    /// as a unicast datagram, to the reply address.
    Reply { observed: Observation, payload: Vec<u8>, reply_to: SocketAddress },
    /// The payload did not decode: log the reason, drop the datagram, and
    /// keep the receive loop running.
    Ignore { error: ParseError },
}

/// Decides, for one datagram the global responder received, whether to
/// reply and with what.
///
/// Reply correctness: a well-formed identity message from source address
/// `source` yields exactly one reply, carrying the encoding of the local
/// identity, addressed to exactly `source`.
///
/// Malformed-payload resilience: a payload that is no well-formed encoding
/// is ignored; the responder never treats it as fatal, so its receive loop
/// keeps running whatever bytes arrive.
pub fn responder_step(me: &Identity, payload_in: &Vec<u8>, source: SocketAddress) -> (r:
    ResponderStep)
    requires
        me.well_formed(),
    ensures
        spec_decode(payload_in@) is Ok <==> r is Reply,
        match r {
            ResponderStep::Reply { observed, payload, reply_to } => {
                &&& observed.peer.well_formed()
                &&& spec_decode(payload_in@) == Ok::<Seq<u8>, ParseError>(observed.peer@)
                &&& payload_in@ == encoding_of(observed.peer@)
                &&& observed.source == source
                &&& payload@ == encoding_of(me@)
                &&& reply_to == source
            },
            ResponderStep::Ignore { error } => {
                &&& spec_decode(payload_in@) == Err::<Seq<u8>, ParseError>(error)
                &&& forall|n: Seq<u8>| valid_name(n) ==> encoding_of(n) != payload_in@
            },
        },
{
    match decode(payload_in) {
        Ok(peer) => {
            let payload = encode(me);
            ResponderStep::Reply {
                observed: Observation { peer, source },
                payload,
                reply_to: source,
            }
        },
        Err(error) => ResponderStep::Ignore { error },
    }
}

} // verus!
