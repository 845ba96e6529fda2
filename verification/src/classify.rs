//! Packet classifier for ACK decimation.
//!
//! A raw network-layer frame is decimation-eligible exactly when it parses
//! as an IPv4 frame whose payload parses as a TCP segment with the ACK flag
//! set, the SYN flag clear, and an empty TCP payload.  The bucket key is the
//! exclusive-or of the segment's two port numbers.  Anything that fails to
//! parse at either layer, and any segment carrying payload, is never dropped
//! by this mechanism.

use vstd::prelude::*;

verus! {

/// Big-endian sixteen-bit read of two bytes.
pub open spec fn be16(hi: u8, lo: u8) -> int {
    hi * 256 + lo
}

/// Byte offset where the IPv4 payload starts: after the fixed header and
/// any options, never before byte twenty even for a corrupt length nibble.
pub open spec fn ipv4_payload_start(b: Seq<u8>) -> int {
    let ihl4 = (b[0] & 0x0f) * 4;
    if ihl4 < 20 { 20 } else { ihl4 }
}

/// The payload length the IPv4 header claims: total length minus the
/// header length, clamped at zero.
pub open spec fn ipv4_claimed_payload_len(b: Seq<u8>) -> int {
    let d = be16(b[2], b[3]) - (b[0] & 0x0f) * 4;
    if d < 0 { 0 } else { d }
}

/// The IPv4 payload: the bytes between the end of the header and the end
/// the header claims, clipped to the frame's real length.  Empty when the
/// frame is shorter than its own header.
pub open spec fn ipv4_payload(b: Seq<u8>) -> Seq<u8> {
    let start = ipv4_payload_start(b);
    if b.len() <= start {
        Seq::empty()
    } else {
        let end = if start + ipv4_claimed_payload_len(b) < b.len() {
            start + ipv4_claimed_payload_len(b)
        } else {
            b.len() as int
        };
        b.subrange(start, end)
    }
}

/// Byte offset where the TCP payload starts within the segment: after the
/// fixed header and any options, never before byte twenty.
pub open spec fn tcp_payload_start(p: Seq<u8>) -> int {
    let off = (p[12] >> 4) * 4;
    if off < 20 { 20 } else { off }
}

/// The TCP flag byte.
pub open spec fn tcp_flags(p: Seq<u8>) -> u8 {
    p[13]
}

/// The exclusive-or of the segment's destination and source ports,
/// the key that picks a rate bucket for the segment's flow.
pub open spec fn tcp_flow_key(p: Seq<u8>) -> u16 {
    (be16(p[2], p[3]) as u16) ^ (be16(p[0], p[1]) as u16)
}

/// A frame is a plain acknowledgment, eligible for decimation, when it is
/// long enough to be an IPv4 frame, its payload is long enough to be a TCP
/// segment, the ACK flag is set, the SYN flag is clear, and the segment
/// carries no payload of its own.
pub open spec fn is_plain_ack(b: Seq<u8>) -> bool {
    &&& b.len() >= 20
    &&& ipv4_payload(b).len() >= 20
    &&& tcp_flags(ipv4_payload(b)) & 0x10 != 0
    &&& tcp_flags(ipv4_payload(b)) & 0x02 == 0
    &&& ipv4_payload(b).len() <= tcp_payload_start(ipv4_payload(b))
}

/// The bucket key of a plain acknowledgment.
pub open spec fn ack_flow_key(b: Seq<u8>) -> u16 {
    tcp_flow_key(ipv4_payload(b))
}

/// Classifies a raw frame: `Some(key)` exactly when the frame is a plain
/// acknowledgment eligible for decimation, `None` for everything else, so
/// that no data-bearing or unparseable frame is ever dropped.
pub fn ack_decimate(bts: &[u8]) -> (r: Option<u16>)
    ensures
        is_plain_ack(bts@) ==> r == Some(ack_flow_key(bts@)),
        !is_plain_ack(bts@) ==> r is None,
{
    let n = bts.len();
    if n < 20 {
        return None;
    }
    let ihl4: usize = ((bts[0] & 0x0f) as usize) * 4;
    let start: usize = if ihl4 < 20 { 20 } else { ihl4 };
    if n <= start {
        assert(ipv4_payload(bts@).len() == 0);
        return None;
    }
    let total: usize = (bts[2] as usize) * 256 + (bts[3] as usize);
    let claimed: usize = if total >= ihl4 { total - ihl4 } else { 0 };
    let end: usize = if start + claimed < n { start + claimed } else { n };
    let plen: usize = end - start;
    assert(ipv4_payload(bts@) == bts@.subrange(start as int, end as int));
    if plen < 20 {
        return None;
    }
    let flags: u8 = bts[start + 13];
    assert(flags == tcp_flags(ipv4_payload(bts@)));
    if flags & 0x10 == 0 || flags & 0x02 != 0 {
        return None;
    }
    let off4: usize = ((bts[start + 12] >> 4) as usize) * 4;
    let dstart: usize = if off4 < 20 { 20 } else { off4 };
    assert(dstart == tcp_payload_start(ipv4_payload(bts@)));
    if plen > dstart {
        return None;
    }
    let sport: u16 = (bts[start] as u16) * 256 + (bts[start + 1] as u16);
    let dport: u16 = (bts[start + 2] as u16) * 256 + (bts[start + 3] as u16);
    assert(dport == be16(ipv4_payload(bts@)[2], ipv4_payload(bts@)[3]));
    assert(sport == be16(ipv4_payload(bts@)[0], ipv4_payload(bts@)[1]));
    Some(dport ^ sport)
}

} // verus!
