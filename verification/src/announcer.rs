use vstd::prelude::*;

use crate::codec::{decode, encode, encoding_of, spec_decode, ParseError};
use crate::identity::Identity;
use crate::net::SocketAddress;
use crate::responder::Observation;

verus! {

/// The per-interface announcer: bound to one specific local address, it
/// sends one multicast announcement and then only listens. Replying is
/// exclusively the global responder's job.
pub struct Announcer {
    me: Identity,
    announced: bool,
}

impl Announcer {
    /// The local identity this announcer advertises.
    pub closed spec fn me_spec(&self) -> Identity {
        self.me
    }

    /// Whether the single announcement has been handed out already.
    pub closed spec fn has_announced(&self) -> bool {
        self.announced
    }

    pub open spec fn well_formed(&self) -> bool {
        self.me_spec().well_formed()
    }

    /// A fresh announcer that has not announced yet.
    pub fn new(me: Identity) -> (r: Announcer)
        requires
            me.well_formed(),
        ensures
            r.me_spec() == me,
            !r.has_announced(),
            r.well_formed(),
    {
        Announcer { me, announced: false }
    }

    /// The single multicast announcement. The first call yields the
    /// encoding of the local identity, to be sent once to the multicast
    /// group; every later call yields nothing, so over its lifetime an
    /// announcer sends exactly one announcement.
    pub fn take_announcement(&mut self) -> (r: Option<Vec<u8>>)
        requires
            old(self).well_formed(),
        ensures
            final(self).me_spec() == old(self).me_spec(),
            final(self).well_formed(),
            final(self).has_announced(),
            r is Some <==> !old(self).has_announced(),
            match r {
                Some(payload) => payload@ == encoding_of(old(self).me_spec()@),
                None => true,
            },
    {
        if self.announced {
            None
        } else {
            self.announced = true;
            Some(encode(&self.me))
        }
    }

    /// The listening step: decode one received datagram. On success the
    /// observation is logged by the caller; no reply is ever produced
    /// here. A payload that does not decode is an error that this
    /// component treats as fatal, unlike the global responder (a design
    /// asymmetry that is kept, not mended).
    pub fn observe(&self, payload_in: &Vec<u8>, source: SocketAddress) -> (r: Result<
        Observation,
        ParseError,
    >)
        ensures
            spec_decode(payload_in@) is Ok <==> r is Ok,
            match r {
                Ok(obs) => {
                    &&& obs.peer.well_formed()
                    &&& spec_decode(payload_in@) == Ok::<Seq<u8>, ParseError>(obs.peer@)
                    &&& payload_in@ == encoding_of(obs.peer@)
                    &&& obs.source == source
                },
                Err(e) => spec_decode(payload_in@) == Err::<Seq<u8>, ParseError>(e),
            },
    {
        match decode(payload_in) {
            Ok(peer) => Ok(Observation { peer, source }),
            Err(e) => Err(e),
        }
    }
}

/// How many announcements an announcer hands out over `steps` chances,
/// starting with `announced` saying whether it has announced already:
/// each chance yields one announcement exactly when none has been handed
/// out yet, and afterwards the announcer has announced.
pub open spec fn spec_announcements_handed_out(announced: bool, steps: nat) -> nat
    decreases steps,
{
    if steps == 0 {
        0
    } else {
        (if announced {
            0nat
        } else {
            1nat
        }) + spec_announcements_handed_out(true, (steps - 1) as nat)
    }
}

/// Single-announcement guarantee: a fresh announcer, however many chances
/// it gets, hands out exactly one announcement — at its first chance,
/// before it enters its receive loop — and an announcer that has already
/// announced hands out none.
pub proof fn lemma_single_announcement(steps: nat)
    ensures
        steps > 0 ==> spec_announcements_handed_out(false, steps) == 1,
        spec_announcements_handed_out(true, steps) == 0,
    decreases steps,
{
    if steps > 0 {
        lemma_single_announcement((steps - 1) as nat);
    }
}

} // verus!
