//! VPN hello negotiation.
//!
//! The client repeatedly sends a ClientHello carrying a random
//! session-scoped identifier over the unreliable channel, once right away
//! and once per one-second tick while no answer has arrived, until a
//! ServerHello carrying the assigned address is received; every other
//! datagram is ignored.  Exactly one local control frame announcing the
//! address is produced, and only once the ServerHello has arrived.

use vstd::prelude::*;
use crate::codec::{TunnelMsg, MsgRepr, msg_bytes, msg_of_bytes, frame_bytes, ip_slash10,
    encode_msg, decode_msg, announce_frame};

verus! {

/// Relies on rand::random: a fresh value drawn from the thread-local
/// generator; nothing can be promised of it.
pub assume_specification<T>[ rand::random::<T> ]() -> (r: T)
    where
        rand::distributions::Standard: rand::distributions::Distribution<T>,
;

/// Draws the random session-scoped client identifier for one VPN
/// negotiation.  Two calls may return anything, including equal values;
/// the negotiation works for every identifier.
pub fn fresh_client_id() -> u128 {
    rand::random::<u128>()
}

/// Where the hello negotiation stands.
#[derive(Clone, Copy, Debug, PartialEq, Eq, Structural)]
pub enum HelloState {
    /// No ServerHello yet: the ClientHello is resent on every tick.
    Waiting { client_id: u128 },
    /// The exit answered with the assigned address; the relay may start.
    Established { client_id: u128, client_ip: u32 },
}

/// One event of the negotiation as the model sees it: a one-second tick
/// with nothing received, or one datagram from the unreliable channel.
pub enum HelloEvent {
    Tick,
    Datagram { bytes: Seq<u8> },
}

/// Whether a datagram carries the awaited ServerHello.
pub open spec fn is_server_hello(ev: HelloEvent) -> bool {
    ev matches HelloEvent::Datagram { bytes } && msg_of_bytes(bytes) matches Some(MsgRepr::ServerHello { .. })
}

/// The negotiation's transition: waiting absorbs everything but a
/// ServerHello; established absorbs everything.
pub open spec fn hello_next(st: HelloState, ev: HelloEvent) -> HelloState {
    match st {
        HelloState::Waiting { client_id } => match ev {
            HelloEvent::Tick => st,
            HelloEvent::Datagram { bytes } => match msg_of_bytes(bytes) {
                Some(MsgRepr::ServerHello { client_ip }) => HelloState::Established { client_id, client_ip },
                _ => st,
            },
        },
        HelloState::Established { .. } => st,
    }
}

/// Whether this step announces the assigned address locally.
pub open spec fn hello_announces(st: HelloState, ev: HelloEvent) -> bool {
    st is Waiting && is_server_hello(ev)
}

/// How many control frames a run of the negotiation writes locally.
pub open spec fn announce_count(st: HelloState, events: Seq<HelloEvent>) -> nat
    decreases events.len(),
{
    if events.len() == 0 {
        0
    } else {
        (if hello_announces(st, events[0]) { 1nat } else { 0nat })
            + announce_count(hello_next(st, events[0]), events.drop_first())
    }
}

/// Begins the negotiation: the first ClientHello datagram for this
/// identifier, to be sent at once.
pub fn hello_begin(client_id: u128) -> (r: (HelloState, Vec<u8>))
    ensures
        r.0 == (HelloState::Waiting { client_id }),
        r.1@ == msg_bytes(MsgRepr::ClientHello { client_id }),
{
    let datagram = encode_msg(&TunnelMsg::ClientHello { client_id });
    (HelloState::Waiting { client_id }, datagram)
}

/// One tick with nothing received: while waiting, the ClientHello is
/// resent; once established, nothing is.
pub fn hello_tick(st: &HelloState) -> (r: Option<Vec<u8>>)
    ensures
        (*st) matches HelloState::Waiting { client_id } ==> (r matches Some(d)
            && d@ == msg_bytes(MsgRepr::ClientHello { client_id })),
        (*st) is Established ==> r is None,
{
    match st {
        HelloState::Waiting { client_id } => Some(encode_msg(&TunnelMsg::ClientHello { client_id: *client_id })),
        HelloState::Established { .. } => None,
    }
}

/// One datagram received: exactly the model's transition, and the one
/// control frame exactly when the model announces.
pub fn hello_datagram(st: HelloState, bytes: &[u8]) -> (r: (HelloState, Option<Vec<u8>>))
    ensures
        r.0 == hello_next(st, HelloEvent::Datagram { bytes: bytes@ }),
        hello_announces(st, HelloEvent::Datagram { bytes: bytes@ }) ==> (r.1 matches Some(f)
            && r.0 matches HelloState::Established { client_ip, .. }
            && f@ == frame_bytes(1, ip_slash10(client_ip))),
        !hello_announces(st, HelloEvent::Datagram { bytes: bytes@ }) ==> r.1 is None,
{
    match st {
        HelloState::Waiting { client_id } => {
            match decode_msg(bytes) {
                Some(TunnelMsg::ServerHello { client_ip }) => {
                    let frame = announce_frame(client_ip);
                    (HelloState::Established { client_id, client_ip }, Some(frame))
                }
                _ => (st, None),
            }
        }
        HelloState::Established { .. } => (st, None),
    }
}

/// Once established, no further event announces anything.
pub proof fn lemma_established_announces_nothing(client_id: u128, client_ip: u32, events: Seq<HelloEvent>)
    ensures
        announce_count(HelloState::Established { client_id, client_ip }, events) == 0,
    decreases events.len(),
{
    if events.len() > 0 {
        lemma_established_announces_nothing(client_id, client_ip, events.drop_first());
    }
}

/// If no ServerHello ever arrives, the negotiation stays waiting forever
/// — so every tick resends the ClientHello — and no control frame is ever
/// written.
pub proof fn lemma_no_answer_keeps_waiting(client_id: u128, events: Seq<HelloEvent>)
    requires
        forall|i: int| 0 <= i < events.len() ==> !is_server_hello(#[trigger] events[i]),
    ensures
        hello_run(HelloState::Waiting { client_id }, events) == (HelloState::Waiting { client_id }),
        announce_count(HelloState::Waiting { client_id }, events) == 0,
    decreases events.len(),
{
    if events.len() > 0 {
        assert(!is_server_hello(events[0]));
        assert(hello_next(HelloState::Waiting { client_id }, events[0])
            == (HelloState::Waiting { client_id }));
        assert(forall|i: int| 0 <= i < events.drop_first().len()
            ==> !is_server_hello(#[trigger] events.drop_first()[i]));
        lemma_no_answer_keeps_waiting(client_id, events.drop_first());
    }
}

/// The state a run of the negotiation ends in.
pub open spec fn hello_run(st: HelloState, events: Seq<HelloEvent>) -> HelloState
    decreases events.len(),
{
    if events.len() == 0 {
        st
    } else {
        hello_run(hello_next(st, events[0]), events.drop_first())
    }
}

/// Exactly one control frame is written in any run that hears a
/// ServerHello, and never more than one in any run at all.
pub proof fn lemma_exactly_one_announce(client_id: u128, events: Seq<HelloEvent>)
    ensures
        announce_count(HelloState::Waiting { client_id }, events) <= 1,
        (exists|i: int| 0 <= i < events.len() && is_server_hello(#[trigger] events[i]))
            ==> announce_count(HelloState::Waiting { client_id }, events) == 1,
    decreases events.len(),
{
    let st = HelloState::Waiting { client_id };
    if events.len() > 0 {
        let e0 = events[0];
        if is_server_hello(e0) {
            let st2 = hello_next(st, e0);
            assert(st2 is Established);
            match st2 {
                HelloState::Established { client_id: cid, client_ip: cip } => {
                    lemma_established_announces_nothing(cid, cip, events.drop_first());
                }
                _ => {}
            }
        } else {
            assert(hello_next(st, e0) == st);
            lemma_exactly_one_announce(client_id, events.drop_first());
            if exists|i: int| 0 <= i < events.len() && is_server_hello(#[trigger] events[i]) {
                let i = choose|i: int| 0 <= i < events.len() && is_server_hello(#[trigger] events[i]);
                assert(i != 0);
                assert(is_server_hello(events.drop_first()[i - 1]));
            }
        }
    }
}

} // verus!
