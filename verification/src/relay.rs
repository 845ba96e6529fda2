//! The VPN relay's two directions, one step per frame.
//!
//! Upstream: one local frame is classified; a plain acknowledgment
//! consults the rate bucket its flow key selects and is dropped when no
//! token is available; every other frame is always forwarded, wrapped as
//! a Payload datagram.  Downstream: one datagram is decoded; a Payload
//! becomes one local frame with verb zero; everything else is ignored.

use vstd::prelude::*;
use crate::bucket::{RateBank, bank_wf, bucket_index_of, check_result};
use crate::classify::{ack_decimate, is_plain_ack, ack_flow_key};
use crate::codec::{TunnelMsg, MsgRepr, msg_bytes, msg_of_bytes, frame_bytes, encode_msg,
    decode_msg, encode_frame};

verus! {

/// What the upstream direction does with one local frame.
pub enum UpstreamDecision {
    /// A plain acknowledgment whose bucket was empty: not forwarded.
    Dropped,
    /// Forwarded: the datagram to send on the unreliable channel.
    Forward { datagram: Vec<u8> },
}

/// One upstream step.  A frame that is not a plain acknowledgment is
/// always forwarded and leaves every bucket untouched; a plain
/// acknowledgment spends a token of the bucket its flow key selects and
/// is forwarded exactly when one was available.
pub fn upstream_step(bank: &mut RateBank, body: Vec<u8>, now_ns: u64) -> (r: UpstreamDecision)
    requires
        bank_wf(*old(bank)),
    ensures
        bank_wf(*final(bank)),
        !is_plain_ack(body@) ==> *final(bank) == *old(bank),
        !is_plain_ack(body@) ==> (r matches UpstreamDecision::Forward { datagram }
            && datagram@ == msg_bytes(MsgRepr::Payload { body: body@ })),
        is_plain_ack(body@) ==> {
            let idx = bucket_index_of(ack_flow_key(body@));
            let step = check_result(old(bank).buckets@[idx], now_ns);
            &&& final(bank).buckets@.len() == old(bank).buckets@.len()
            &&& final(bank).buckets@[idx] == step.0
            &&& (forall|i: int| 0 <= i < old(bank).buckets@.len() && i != idx
                ==> final(bank).buckets@[i] == old(bank).buckets@[i])
            &&& step.1 ==> (r matches UpstreamDecision::Forward { datagram }
                && datagram@ == msg_bytes(MsgRepr::Payload { body: body@ }))
            &&& !step.1 ==> r is Dropped
        },
{
    let eligible = ack_decimate(body.as_slice());
    match eligible {
        Some(key) => {
            if bank.check(key, now_ns) {
                UpstreamDecision::Forward { datagram: encode_msg(&TunnelMsg::Payload { body }) }
            } else {
                UpstreamDecision::Dropped
            }
        }
        None => UpstreamDecision::Forward { datagram: encode_msg(&TunnelMsg::Payload { body }) },
    }
}

/// One downstream step.  Exactly the datagrams that decode as a Payload
/// short enough for the local frame's two-byte length become one local
/// frame with verb zero; everything else yields nothing.
pub fn downstream_step(datagram: &[u8]) -> (r: Option<Vec<u8>>)
    ensures
        match msg_of_bytes(datagram@) {
            Some(MsgRepr::Payload { body }) => {
                &&& body.len() <= 0xffff ==> (r matches Some(f) && f@ == frame_bytes(0, body))
                &&& body.len() > 0xffff ==> r is None
            },
            _ => r is None,
        },
{
    match decode_msg(datagram) {
        Some(TunnelMsg::Payload { body }) => {
            if body.len() <= 0xffff {
                Some(encode_frame(0, &body))
            } else {
                None
            }
        }
        _ => None,
    }
}

} // verus!
