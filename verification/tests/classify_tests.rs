use kalive::classify::ack_decimate;
use pnet_packet::Packet;

/// Builds an IPv4 frame carrying a TCP segment.  `ihl_words` and
/// `doff_words` control the two header-length nibbles; `total_length`
/// goes into the IPv4 header as claimed; `extra` bytes are appended after
/// the headers.
fn frame(
    ihl_words: u8,
    total_length: u16,
    sport: u16,
    dport: u16,
    doff_words: u8,
    flags: u8,
    extra: usize,
) -> Vec<u8> {
    let ip_header = (ihl_words as usize) * 4;
    let mut b = vec![0u8; ip_header.max(20)];
    b[0] = 0x40 | (ihl_words & 0x0f);
    b[2] = (total_length >> 8) as u8;
    b[3] = (total_length & 0xff) as u8;
    b[9] = 6;
    let tcp_start = b.len();
    let tcp_header = (doff_words as usize) * 4;
    b.resize(tcp_start + tcp_header.max(20) + extra, 0);
    b[tcp_start] = (sport >> 8) as u8;
    b[tcp_start + 1] = (sport & 0xff) as u8;
    b[tcp_start + 2] = (dport >> 8) as u8;
    b[tcp_start + 3] = (dport & 0xff) as u8;
    b[tcp_start + 12] = (doff_words & 0x0f) << 4;
    b[tcp_start + 13] = flags;
    b
}

/// The classification the reference parser library arrives at, written
/// with pnet's packet types, for cross-checking.
fn pnet_classify(bts: &[u8]) -> Option<u16> {
    let ip = pnet_packet::ipv4::Ipv4Packet::new(bts)?;
    let tcp = pnet_packet::tcp::TcpPacket::new(ip.payload())?;
    let flags = tcp.get_flags();
    if flags & pnet_packet::tcp::TcpFlags::ACK != 0
        && flags & pnet_packet::tcp::TcpFlags::SYN == 0
        && tcp.payload().is_empty()
    {
        Some(tcp.get_destination() ^ tcp.get_source())
    } else {
        None
    }
}

#[test]
fn plain_ack_is_eligible() {
    let b = frame(5, 40, 8080, 443, 5, 0x10, 0);
    assert_eq!(b.len(), 40);
    assert_eq!(ack_decimate(&b), Some(8080 ^ 443));
}

#[test]
fn syn_ack_is_not_eligible() {
    let b = frame(5, 40, 8080, 443, 5, 0x12, 0);
    assert_eq!(ack_decimate(&b), None);
}

#[test]
fn data_bearing_segment_is_not_eligible() {
    let b = frame(5, 45, 8080, 443, 5, 0x10, 5);
    assert_eq!(ack_decimate(&b), None);
}

#[test]
fn short_buffer_is_not_eligible() {
    assert_eq!(ack_decimate(&[0u8; 19]), None);
    assert_eq!(ack_decimate(&[]), None);
}

#[test]
fn short_tcp_segment_is_not_eligible() {
    // Claimed payload of ten bytes: too short for a TCP header.
    let mut b = frame(5, 30, 8080, 443, 5, 0x10, 0);
    b.truncate(30);
    assert_eq!(ack_decimate(&b), None);
}

#[test]
fn ack_with_tcp_options_is_eligible() {
    // Data offset eight words: the options pad the header, payload stays
    // empty.
    let b = frame(5, 52, 50000, 22, 8, 0x10, 0);
    assert_eq!(b.len(), 52);
    assert_eq!(ack_decimate(&b), Some(50000 ^ 22));
}

#[test]
fn matches_reference_parser_on_many_shapes() {
    let mut cases: Vec<Vec<u8>> = Vec::new();
    for &ihl in &[3u8, 5, 6, 7] {
        for &doff in &[0u8, 4, 5, 8] {
            for &flags in &[0u8, 0x10, 0x12, 0x18, 0x02] {
                for &extra in &[0usize, 1, 6] {
                    for &total in &[0u16, 20, 40, 44, 45, 52, 60, 200] {
                        cases.push(frame(ihl, total, 8080, 443, doff, flags, extra));
                    }
                }
            }
        }
    }
    cases.push(vec![]);
    cases.push(vec![0x45]);
    cases.push(vec![0u8; 20]);
    cases.push(vec![0xff; 64]);
    for b in &cases {
        assert_eq!(ack_decimate(b), pnet_classify(b), "mismatch on {:?}", b);
    }
}
