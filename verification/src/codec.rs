//! Wire codecs: the local stdio-like frame, the tunnel's unreliable-channel
//! message, the authentication blob, and the announced-address text.
//!
//! The unreliable channel carries a tagged union in a fixed, versionless
//! little-endian encoding shared with the exit: a four-byte variant tag,
//! then the variant's fields, lengths as eight-byte little-endian counts;
//! bytes past one whole message are ignored.  The local frame is one verb
//! byte and a two-byte big-endian length prefix before the body.

use vstd::prelude::*;

verus! {

/// One message of the unreliable channel.
pub enum TunnelMsg {
    /// Repeated by the client until the exit answers: carries the
    /// session-scoped random client identifier.
    ClientHello { client_id: u128 },
    /// The exit's answer: the client's assigned address.
    ServerHello { client_ip: u32 },
    /// One relayed packet.
    Payload { body: Vec<u8> },
}

/// The mathematical shape of a tunnel message.
pub enum MsgRepr {
    ClientHello { client_id: u128 },
    ServerHello { client_ip: u32 },
    Payload { body: Seq<u8> },
}

impl View for TunnelMsg {
    type V = MsgRepr;

    open spec fn view(&self) -> MsgRepr {
        match self {
            TunnelMsg::ClientHello { client_id } => MsgRepr::ClientHello { client_id: *client_id },
            TunnelMsg::ServerHello { client_ip } => MsgRepr::ServerHello { client_ip: *client_ip },
            TunnelMsg::Payload { body } => MsgRepr::Payload { body: body@ },
        }
    }
}

/// Four little-endian bytes of a 32-bit value.
pub open spec fn le32(v: u32) -> Seq<u8> {
    seq![
        (v & 0xff) as u8,
        ((v >> 8) & 0xff) as u8,
        ((v >> 16) & 0xff) as u8,
        ((v >> 24) & 0xff) as u8,
    ]
}

/// Eight little-endian bytes of a 64-bit value.
pub open spec fn le64(v: u64) -> Seq<u8> {
    seq![
        (v & 0xff) as u8,
        ((v >> 8) & 0xff) as u8,
        ((v >> 16) & 0xff) as u8,
        ((v >> 24) & 0xff) as u8,
        ((v >> 32) & 0xff) as u8,
        ((v >> 40) & 0xff) as u8,
        ((v >> 48) & 0xff) as u8,
        ((v >> 56) & 0xff) as u8,
    ]
}

/// Sixteen little-endian bytes of a 128-bit value.
pub open spec fn le128(v: u128) -> Seq<u8> {
    seq![
        (v & 0xff) as u8,
        ((v >> 8) & 0xff) as u8,
        ((v >> 16) & 0xff) as u8,
        ((v >> 24) & 0xff) as u8,
        ((v >> 32) & 0xff) as u8,
        ((v >> 40) & 0xff) as u8,
        ((v >> 48) & 0xff) as u8,
        ((v >> 56) & 0xff) as u8,
        ((v >> 64) & 0xff) as u8,
        ((v >> 72) & 0xff) as u8,
        ((v >> 80) & 0xff) as u8,
        ((v >> 88) & 0xff) as u8,
        ((v >> 96) & 0xff) as u8,
        ((v >> 104) & 0xff) as u8,
        ((v >> 112) & 0xff) as u8,
        ((v >> 120) & 0xff) as u8,
    ]
}

/// A 32-bit little-endian read at `off`.
pub open spec fn rd_le32(b: Seq<u8>, off: int) -> u32 {
    (b[off] as u32)
    | ((b[off + 1] as u32) << 8)
    | ((b[off + 2] as u32) << 16)
    | ((b[off + 3] as u32) << 24)
}

/// A 64-bit little-endian read at `off`.
pub open spec fn rd_le64(b: Seq<u8>, off: int) -> u64 {
    (b[off] as u64)
    | ((b[off + 1] as u64) << 8)
    | ((b[off + 2] as u64) << 16)
    | ((b[off + 3] as u64) << 24)
    | ((b[off + 4] as u64) << 32)
    | ((b[off + 5] as u64) << 40)
    | ((b[off + 6] as u64) << 48)
    | ((b[off + 7] as u64) << 56)
}

/// A 128-bit little-endian read at `off`.
pub open spec fn rd_le128(b: Seq<u8>, off: int) -> u128 {
    (b[off] as u128)
    | ((b[off + 1] as u128) << 8)
    | ((b[off + 2] as u128) << 16)
    | ((b[off + 3] as u128) << 24)
    | ((b[off + 4] as u128) << 32)
    | ((b[off + 5] as u128) << 40)
    | ((b[off + 6] as u128) << 48)
    | ((b[off + 7] as u128) << 56)
    | ((b[off + 8] as u128) << 64)
    | ((b[off + 9] as u128) << 72)
    | ((b[off + 10] as u128) << 80)
    | ((b[off + 11] as u128) << 88)
    | ((b[off + 12] as u128) << 96)
    | ((b[off + 13] as u128) << 104)
    | ((b[off + 14] as u128) << 112)
    | ((b[off + 15] as u128) << 120)
}

/// The encoding of one tunnel message.
pub open spec fn msg_bytes(m: MsgRepr) -> Seq<u8> {
    match m {
        MsgRepr::ClientHello { client_id } => le32(0) + le128(client_id),
        MsgRepr::ServerHello { client_ip } => le32(1) + le32(client_ip),
        MsgRepr::Payload { body } => le32(2) + le64(body.len() as u64) + body,
    }
}

/// What decoding a datagram yields: the message whose encoding is a prefix
/// of the bytes, if any; bytes past the message are ignored.
pub open spec fn msg_of_bytes(b: Seq<u8>) -> Option<MsgRepr> {
    if b.len() < 4 {
        None
    } else {
        let tag = rd_le32(b, 0);
        if tag == 0 {
            if b.len() >= 20 {
                Some(MsgRepr::ClientHello { client_id: rd_le128(b, 4) })
            } else {
                None
            }
        } else if tag == 1 {
            if b.len() >= 8 {
                Some(MsgRepr::ServerHello { client_ip: rd_le32(b, 4) })
            } else {
                None
            }
        } else if tag == 2 {
            if b.len() >= 12 {
                let n = rd_le64(b, 4);
                if n <= b.len() - 12 {
                    Some(MsgRepr::Payload { body: b.subrange(12, 12 + n as int) })
                } else {
                    None
                }
            } else {
                None
            }
        } else {
            None
        }
    }
}

/// Reassembling the four little-endian bytes of a 32-bit value gives the
/// value back.
pub proof fn lemma_rd_le32(v: u32, b: Seq<u8>, off: int)
    requires
        0 <= off,
        off + 4 <= b.len(),
        b.subrange(off, off + 4) == le32(v),
    ensures
        rd_le32(b, off) == v,
{
    assert(b[off] == le32(v)[0] && b[off + 1] == le32(v)[1]
        && b[off + 2] == le32(v)[2] && b[off + 3] == le32(v)[3]);
    assert((((v & 0xff) as u8 as u32)
        | ((((v >> 8) & 0xff) as u8 as u32) << 8)
        | ((((v >> 16) & 0xff) as u8 as u32) << 16)
        | ((((v >> 24) & 0xff) as u8 as u32) << 24)) == v) by (bit_vector);
}

/// Reassembling the eight little-endian bytes of a 64-bit value gives the
/// value back.
pub proof fn lemma_rd_le64(v: u64, b: Seq<u8>, off: int)
    requires
        0 <= off,
        off + 8 <= b.len(),
        b.subrange(off, off + 8) == le64(v),
    ensures
        rd_le64(b, off) == v,
{
    assert(forall|i: int| 0 <= i < 8 ==> b[off + i] == #[trigger] le64(v)[i]);
    assert((((v & 0xff) as u8 as u64)
        | ((((v >> 8) & 0xff) as u8 as u64) << 8)
        | ((((v >> 16) & 0xff) as u8 as u64) << 16)
        | ((((v >> 24) & 0xff) as u8 as u64) << 24)
        | ((((v >> 32) & 0xff) as u8 as u64) << 32)
        | ((((v >> 40) & 0xff) as u8 as u64) << 40)
        | ((((v >> 48) & 0xff) as u8 as u64) << 48)
        | ((((v >> 56) & 0xff) as u8 as u64) << 56)) == v) by (bit_vector);
}

/// Reassembling the sixteen little-endian bytes of a 128-bit value gives
/// the value back.
pub proof fn lemma_rd_le128(v: u128, b: Seq<u8>, off: int)
    requires
        0 <= off,
        off + 16 <= b.len(),
        b.subrange(off, off + 16) == le128(v),
    ensures
        rd_le128(b, off) == v,
{
    assert(forall|i: int| 0 <= i < 16 ==> b[off + i] == #[trigger] le128(v)[i]);
    assert((((v & 0xff) as u8 as u128)
        | ((((v >> 8) & 0xff) as u8 as u128) << 8)
        | ((((v >> 16) & 0xff) as u8 as u128) << 16)
        | ((((v >> 24) & 0xff) as u8 as u128) << 24)
        | ((((v >> 32) & 0xff) as u8 as u128) << 32)
        | ((((v >> 40) & 0xff) as u8 as u128) << 40)
        | ((((v >> 48) & 0xff) as u8 as u128) << 48)
        | ((((v >> 56) & 0xff) as u8 as u128) << 56)
        | ((((v >> 64) & 0xff) as u8 as u128) << 64)
        | ((((v >> 72) & 0xff) as u8 as u128) << 72)
        | ((((v >> 80) & 0xff) as u8 as u128) << 80)
        | ((((v >> 88) & 0xff) as u8 as u128) << 88)
        | ((((v >> 96) & 0xff) as u8 as u128) << 96)
        | ((((v >> 104) & 0xff) as u8 as u128) << 104)
        | ((((v >> 112) & 0xff) as u8 as u128) << 112)
        | ((((v >> 120) & 0xff) as u8 as u128) << 120)) == v) by (bit_vector);
}

/// Decoding an encoded message, with any trailing bytes, gives the message
/// back: the channel codec round-trips.
pub proof fn lemma_msg_round_trip(m: MsgRepr, rest: Seq<u8>)
    requires
        m matches MsgRepr::Payload { body } ==> body.len() <= u64::MAX,
    ensures
        msg_of_bytes(msg_bytes(m) + rest) == Some(m),
{
    let b = msg_bytes(m) + rest;
    match m {
        MsgRepr::ClientHello { client_id } => {
            assert(b.subrange(0, 4) =~= le32(0));
            lemma_rd_le32(0, b, 0);
            assert(b.subrange(4, 20) =~= le128(client_id));
            lemma_rd_le128(client_id, b, 4);
        }
        MsgRepr::ServerHello { client_ip } => {
            assert(b.subrange(0, 4) =~= le32(1));
            lemma_rd_le32(1, b, 0);
            assert(b.subrange(4, 8) =~= le32(client_ip));
            lemma_rd_le32(client_ip, b, 4);
        }
        MsgRepr::Payload { body } => {
            assert(b.subrange(0, 4) =~= le32(2));
            lemma_rd_le32(2, b, 0);
            assert(b.subrange(4, 12) =~= le64(body.len() as u64));
            lemma_rd_le64(body.len() as u64, b, 4);
            assert(b.subrange(12, 12 + body.len() as int) =~= body);
        }
    }
}

/// No two distinct tags decode alike: `0`, `1` and `2` read back as
/// themselves, so an encoding is of exactly one variant.
pub proof fn lemma_msg_encoding_starts_with_tag(m: MsgRepr)
    ensures
        msg_bytes(m).len() >= 4,
        m matches MsgRepr::ClientHello { .. } ==> rd_le32(msg_bytes(m), 0) == 0,
        m matches MsgRepr::ServerHello { .. } ==> rd_le32(msg_bytes(m), 0) == 1,
        m matches MsgRepr::Payload { .. } ==> rd_le32(msg_bytes(m), 0) == 2,
{
    match m {
        MsgRepr::ClientHello { client_id } => {
            assert(msg_bytes(m).subrange(0, 4) =~= le32(0));
            lemma_rd_le32(0, msg_bytes(m), 0);
        }
        MsgRepr::ServerHello { client_ip } => {
            assert(msg_bytes(m).subrange(0, 4) =~= le32(1));
            lemma_rd_le32(1, msg_bytes(m), 0);
        }
        MsgRepr::Payload { body } => {
            assert(msg_bytes(m).subrange(0, 4) =~= le32(2));
            lemma_rd_le32(2, msg_bytes(m), 0);
        }
    }
}

fn push_le32(out: &mut Vec<u8>, v: u32)
    ensures
        final(out)@ == old(out)@ + le32(v),
{
    out.push((v & 0xff) as u8);
    out.push(((v >> 8) & 0xff) as u8);
    out.push(((v >> 16) & 0xff) as u8);
    out.push(((v >> 24) & 0xff) as u8);
    assert(out@ =~= old(out)@ + le32(v));
}

fn push_le64(out: &mut Vec<u8>, v: u64)
    ensures
        final(out)@ == old(out)@ + le64(v),
{
    out.push((v & 0xff) as u8);
    out.push(((v >> 8) & 0xff) as u8);
    out.push(((v >> 16) & 0xff) as u8);
    out.push(((v >> 24) & 0xff) as u8);
    out.push(((v >> 32) & 0xff) as u8);
    out.push(((v >> 40) & 0xff) as u8);
    out.push(((v >> 48) & 0xff) as u8);
    out.push(((v >> 56) & 0xff) as u8);
    assert(out@ =~= old(out)@ + le64(v));
}

fn push_le128(out: &mut Vec<u8>, v: u128)
    ensures
        final(out)@ == old(out)@ + le128(v),
{
    out.push((v & 0xff) as u8);
    out.push(((v >> 8) & 0xff) as u8);
    out.push(((v >> 16) & 0xff) as u8);
    out.push(((v >> 24) & 0xff) as u8);
    out.push(((v >> 32) & 0xff) as u8);
    out.push(((v >> 40) & 0xff) as u8);
    out.push(((v >> 48) & 0xff) as u8);
    out.push(((v >> 56) & 0xff) as u8);
    out.push(((v >> 64) & 0xff) as u8);
    out.push(((v >> 72) & 0xff) as u8);
    out.push(((v >> 80) & 0xff) as u8);
    out.push(((v >> 88) & 0xff) as u8);
    out.push(((v >> 96) & 0xff) as u8);
    out.push(((v >> 104) & 0xff) as u8);
    out.push(((v >> 112) & 0xff) as u8);
    out.push(((v >> 120) & 0xff) as u8);
    assert(out@ =~= old(out)@ + le128(v));
}

/// Encodes one tunnel message for the unreliable channel.
pub fn encode_msg(m: &TunnelMsg) -> (r: Vec<u8>)
    ensures
        r@ == msg_bytes(m@),
{
    let mut out: Vec<u8> = Vec::new();
    match m {
        TunnelMsg::ClientHello { client_id } => {
            push_le32(&mut out, 0);
            push_le128(&mut out, *client_id);
            assert(out@ =~= msg_bytes(m@));
        }
        TunnelMsg::ServerHello { client_ip } => {
            push_le32(&mut out, 1);
            push_le32(&mut out, *client_ip);
            assert(out@ =~= msg_bytes(m@));
        }
        TunnelMsg::Payload { body } => {
            push_le32(&mut out, 2);
            push_le64(&mut out, body.len() as u64);
            let mut i: usize = 0;
            while i < body.len()
                invariant
                    i <= body@.len(),
                    out@ == le32(2) + le64(body@.len() as u64) + body@.subrange(0, i as int),
                decreases body@.len() - i,
            {
                out.push(body[i]);
                assert(out@ =~= le32(2) + le64(body@.len() as u64)
                    + body@.subrange(0, i + 1 as int));
                i = i + 1;
            }
            assert(body@.subrange(0, body@.len() as int) =~= body@);
        }
    }
    out
}

/// Decodes one datagram from the unreliable channel: exactly the message
/// `msg_of_bytes` names, or nothing when the bytes fit no message.
pub fn decode_msg(b: &[u8]) -> (r: Option<TunnelMsg>)
    ensures
        (r is Some) <==> (msg_of_bytes(b@) is Some),
        r matches Some(m) ==> msg_of_bytes(b@) == Some(m@),
{
    if b.len() < 4 {
        return None;
    }
    let tag: u32 = (b[0] as u32) | ((b[1] as u32) << 8) | ((b[2] as u32) << 16)
        | ((b[3] as u32) << 24);
    assert(tag == rd_le32(b@, 0));
    if tag == 0 {
        if b.len() < 20 {
            return None;
        }
        let id: u128 = (b[4] as u128) | ((b[5] as u128) << 8) | ((b[6] as u128) << 16)
            | ((b[7] as u128) << 24) | ((b[8] as u128) << 32) | ((b[9] as u128) << 40)
            | ((b[10] as u128) << 48) | ((b[11] as u128) << 56) | ((b[12] as u128) << 64)
            | ((b[13] as u128) << 72) | ((b[14] as u128) << 80) | ((b[15] as u128) << 88)
            | ((b[16] as u128) << 96) | ((b[17] as u128) << 104) | ((b[18] as u128) << 112)
            | ((b[19] as u128) << 120);
        assert(id == rd_le128(b@, 4));
        Some(TunnelMsg::ClientHello { client_id: id })
    } else if tag == 1 {
        if b.len() < 8 {
            return None;
        }
        let ip: u32 = (b[4] as u32) | ((b[5] as u32) << 8) | ((b[6] as u32) << 16)
            | ((b[7] as u32) << 24);
        assert(ip == rd_le32(b@, 4));
        Some(TunnelMsg::ServerHello { client_ip: ip })
    } else if tag == 2 {
        if b.len() < 12 {
            return None;
        }
        let n: u64 = (b[4] as u64) | ((b[5] as u64) << 8) | ((b[6] as u64) << 16)
            | ((b[7] as u64) << 24) | ((b[8] as u64) << 32) | ((b[9] as u64) << 40)
            | ((b[10] as u64) << 48) | ((b[11] as u64) << 56);
        assert(n == rd_le64(b@, 4));
        if n > (b.len() - 12) as u64 {
            return None;
        }
        let count: usize = n as usize;
        let blen: usize = b.len();
        let mut body: Vec<u8> = Vec::new();
        let mut i: usize = 0;
        while i < count
            invariant
                i <= count,
                count + 12 <= blen,
                blen == b@.len(),
                body@ == b@.subrange(12, 12 + i as int),
            decreases count - i,
        {
            body.push(b[12 + i]);
            assert(body@ =~= b@.subrange(12, 12 + (i + 1) as int));
            i = i + 1;
        }
        Some(TunnelMsg::Payload { body })
    } else {
        None
    }
}

/// The local frame: one verb byte, a two-byte big-endian length, the body.
pub open spec fn frame_bytes(verb: u8, body: Seq<u8>) -> Seq<u8>
    recommends
        body.len() <= 0xffff,
{
    seq![verb, (body.len() / 256) as u8, (body.len() % 256) as u8] + body
}

/// What decoding a local frame yields: verb and body when the buffer holds
/// a whole frame, nothing otherwise; bytes past the frame are ignored.
pub open spec fn frame_of_bytes(b: Seq<u8>) -> Option<(u8, Seq<u8>)> {
    if b.len() < 3 {
        None
    } else {
        let n = b[1] * 256 + b[2];
        if b.len() < 3 + n {
            None
        } else {
            Some((b[0], b.subrange(3, 3 + n)))
        }
    }
}

/// Encodes one local frame.  The body must fit the two-byte length.
pub fn encode_frame(verb: u8, body: &Vec<u8>) -> (r: Vec<u8>)
    requires
        body@.len() <= 0xffff,
    ensures
        r@ == frame_bytes(verb, body@),
{
    let mut out: Vec<u8> = Vec::new();
    out.push(verb);
    let len = body.len();
    out.push((len / 256) as u8);
    out.push((len % 256) as u8);
    let mut i: usize = 0;
    while i < body.len()
        invariant
            i <= body@.len(),
            body@.len() <= 0xffff,
            out@ == seq![verb, (body@.len() / 256) as u8, (body@.len() % 256) as u8]
                + body@.subrange(0, i as int),
        decreases body@.len() - i,
    {
        out.push(body[i]);
        assert(out@ =~= seq![verb, (body@.len() / 256) as u8, (body@.len() % 256) as u8]
            + body@.subrange(0, (i + 1) as int));
        i = i + 1;
    }
    assert(out@ =~= frame_bytes(verb, body@));
    out
}

/// Decodes one local frame from a buffer: exactly what `frame_of_bytes`
/// names.
pub fn decode_frame(b: &[u8]) -> (r: Option<(u8, Vec<u8>)>)
    ensures
        (r is Some) <==> (frame_of_bytes(b@) is Some),
        r matches Some(p) ==> frame_of_bytes(b@) == Some((p.0, p.1@)),
{
    if b.len() < 3 {
        return None;
    }
    let n: usize = (b[1] as usize) * 256 + (b[2] as usize);
    if b.len() < 3 || b.len() - 3 < n {
        return None;
    }
    let blen: usize = b.len();
    let mut body: Vec<u8> = Vec::new();
    let mut i: usize = 0;
    while i < n
        invariant
            i <= n,
            n + 3 <= blen,
            blen == b@.len(),
            body@ == b@.subrange(3, 3 + i as int),
        decreases n - i,
    {
        body.push(b[3 + i]);
        assert(body@ =~= b@.subrange(3, 3 + (i + 1) as int));
        i = i + 1;
    }
    Some((b[0], body))
}

/// Decoding an encoded frame, with any trailing bytes, gives verb and body
/// back: the local frame codec round-trips.
pub proof fn lemma_frame_round_trip(verb: u8, body: Seq<u8>, rest: Seq<u8>)
    requires
        body.len() <= 0xffff,
    ensures
        frame_of_bytes(frame_bytes(verb, body) + rest) == Some((verb, body)),
{
    let b = frame_bytes(verb, body) + rest;
    assert(b[1] == (body.len() / 256) as u8 && b[2] == (body.len() % 256) as u8);
    assert((body.len() / 256) * 256 + body.len() % 256 == body.len()) by {
        vstd::arithmetic::div_mod::lemma_fundamental_div_mod(body.len() as int, 256);
    }
    assert(b.subrange(3, 3 + body.len() as int) =~= body);
}

/// The authentication blob: the token's three fields in a fixed order,
/// each behind an eight-byte little-endian length.
pub open spec fn auth_bytes(digest: Seq<u8>, signature: Seq<u8>, level: Seq<u8>) -> Seq<u8> {
    le64(digest.len() as u64) + digest
    + le64(signature.len() as u64) + signature
    + le64(level.len() as u64) + level
}

/// Encodes the authentication blob sent on the first stream of an epoch.
pub fn encode_auth(digest: &Vec<u8>, signature: &Vec<u8>, level: &Vec<u8>) -> (r: Vec<u8>)
    ensures
        r@ == auth_bytes(digest@, signature@, level@),
{
    let mut out: Vec<u8> = Vec::new();
    push_le64(&mut out, digest.len() as u64);
    out.extend_from_slice(digest.as_slice());
    push_le64(&mut out, signature.len() as u64);
    out.extend_from_slice(signature.as_slice());
    push_le64(&mut out, level.len() as u64);
    out.extend_from_slice(level.as_slice());
    assert(out@ =~= auth_bytes(digest@, signature@, level@));
    out
}

/// Reads the exit's one-byte acknowledgment of the authentication blob.
/// Its value carries no meaning beyond arriving.
pub fn decode_auth_ack(b: &[u8]) -> (r: Option<u8>)
    ensures
        b@.len() >= 1 ==> r == Some(b@[0]),
        b@.len() == 0 ==> r is None,
{
    if b.len() >= 1 {
        Some(b[0])
    } else {
        None
    }
}

/// The decimal digits of one address octet.
pub open spec fn dec_u8(n: u8) -> Seq<u8> {
    if n < 10 {
        seq![(48 + n) as u8]
    } else if n < 100 {
        seq![(48 + n / 10) as u8, (48 + n % 10) as u8]
    } else {
        seq![(48 + n / 100) as u8, (48 + (n / 10) % 10) as u8, (48 + n % 10) as u8]
    }
}

/// The UTF-8 text announcing the assigned address: the dotted quad of the
/// 32-bit address, then `/10`.
pub open spec fn ip_slash10(ip: u32) -> Seq<u8> {
    dec_u8(((ip >> 24) & 0xff) as u8) + seq![46u8]
    + dec_u8(((ip >> 16) & 0xff) as u8) + seq![46u8]
    + dec_u8(((ip >> 8) & 0xff) as u8) + seq![46u8]
    + dec_u8((ip & 0xff) as u8) + seq![47u8, 49u8, 48u8]
}

fn push_dec_u8(out: &mut Vec<u8>, n: u8)
    ensures
        final(out)@ == old(out)@ + dec_u8(n),
{
    if n < 10 {
        out.push(48 + n);
    } else if n < 100 {
        out.push(48 + n / 10);
        out.push(48 + n % 10);
    } else {
        out.push(48 + n / 100);
        out.push(48 + (n / 10) % 10);
        out.push(48 + n % 10);
    }
    assert(out@ =~= old(out)@ + dec_u8(n));
}

/// Builds the announced-address text for the assigned address.
pub fn ip_slash10_bytes(ip: u32) -> (r: Vec<u8>)
    ensures
        r@ == ip_slash10(ip),
{
    let mut out: Vec<u8> = Vec::new();
    push_dec_u8(&mut out, ((ip >> 24) & 0xff) as u8);
    out.push(46);
    push_dec_u8(&mut out, ((ip >> 16) & 0xff) as u8);
    out.push(46);
    push_dec_u8(&mut out, ((ip >> 8) & 0xff) as u8);
    out.push(46);
    push_dec_u8(&mut out, (ip & 0xff) as u8);
    out.push(47);
    out.push(49);
    out.push(48);
    assert(out@ =~= ip_slash10(ip));
    out
}

/// The dotted-quad text is never longer than the two-byte frame length
/// allows.
pub proof fn lemma_ip_slash10_len(ip: u32)
    ensures
        ip_slash10(ip).len() <= 18,
{
}

/// Builds the one local control frame (verb one) announcing the assigned
/// address.
pub fn announce_frame(ip: u32) -> (r: Vec<u8>)
    ensures
        r@ == frame_bytes(1, ip_slash10(ip)),
{
    let body = ip_slash10_bytes(ip);
    proof {
        lemma_ip_slash10_len(ip);
    }
    encode_frame(1, &body)
}

} // verus!
