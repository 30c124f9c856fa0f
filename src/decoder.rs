//! Decoding of raw Ethernet frames into packet descriptors.
//!
//! The layout read here is the one of Ethernet II, IPv4 and the TCP and UDP
//! headers. The transport segment is the IPv4 payload: it starts after the
//! IPv4 header (never before its twenty fixed bytes) and runs for the total
//! length less the header length, cut short at the end of the frame.
use vstd::prelude::*;
use crate::text::{dotted_quad, dotted_quad_string};

verus! {

/// Length of an Ethernet II header.
pub const ETHERNET_HEADER_LEN: usize = 14;

/// Length of the fixed part of an IPv4 header.
pub const IPV4_HEADER_LEN: usize = 20;

/// Minimum length of a TCP header.
pub const TCP_HEADER_LEN: usize = 20;

/// Length of a UDP header.
pub const UDP_HEADER_LEN: usize = 8;

/// EtherType of IPv4.
pub const ETHERTYPE_IPV4: u16 = 0x0800;

/// IPv4 protocol number of ICMP.
pub const IP_PROTO_ICMP: u8 = 1;

/// IPv4 protocol number of TCP.
pub const IP_PROTO_TCP: u8 = 6;

/// IPv4 protocol number of UDP.
pub const IP_PROTO_UDP: u8 = 17;

/// Transport protocol of a decoded packet.
#[derive(Clone, Copy, Debug, PartialEq, Eq, Structural)]
pub enum Protocol {
    Tcp,
    Udp,
    Icmp,
    Other,
}

impl Protocol {
    /// The protocol's name as displayed: "TCP", "UDP", "ICMP" or "OTHER".
    pub fn as_str(&self) -> (r: &'static str)
        ensures
            r@ == self.name(),
    {
        match self {
            Protocol::Tcp => "TCP",
            Protocol::Udp => "UDP",
            Protocol::Icmp => "ICMP",
            Protocol::Other => "OTHER",
        }
    }

    pub open spec fn name(&self) -> Seq<char> {
        match self {
            Protocol::Tcp => "TCP"@,
            Protocol::Udp => "UDP"@,
            Protocol::Icmp => "ICMP"@,
            Protocol::Other => "OTHER"@,
        }
    }
}

/// Header metadata of one frame.
#[derive(Clone, Debug, PartialEq, Eq)]
pub struct ParsedPacket {
    pub source_ip: String,
    pub destination_ip: String,
    pub source_port: Option<u16>,
    pub destination_port: Option<u16>,
    pub protocol: Protocol,
    /// Length of the whole frame in bytes.
    pub size: usize,
}

/// The mathematical value of a [`ParsedPacket`].
pub struct PacketView {
    pub source_ip: Seq<char>,
    pub destination_ip: Seq<char>,
    pub source_port: Option<u16>,
    pub destination_port: Option<u16>,
    pub protocol: Protocol,
    pub size: nat,
}

impl View for ParsedPacket {
    type V = PacketView;

    open spec fn view(&self) -> PacketView {
        PacketView {
            source_ip: self.source_ip@,
            destination_ip: self.destination_ip@,
            source_port: self.source_port,
            destination_port: self.destination_port,
            protocol: self.protocol,
            size: self.size as nat,
        }
    }
}

pub open spec fn packet_option_view(p: Option<ParsedPacket>) -> Option<PacketView> {
    match p {
        Some(q) => Some(q@),
        None => None,
    }
}

/// Big-endian 16-bit integer at position `i` of `f`.
pub open spec fn be16(f: Seq<u8>, i: int) -> u16 {
    (f[i] as int * 256 + f[i + 1] as int) as u16
}

/// The frame carries a whole Ethernet header announcing IPv4.
pub open spec fn is_ipv4_frame(f: Seq<u8>) -> bool {
    f.len() >= ETHERNET_HEADER_LEN && be16(f, 12) == ETHERTYPE_IPV4
}

/// Bytes that follow the Ethernet header.
pub open spec fn ip_len(f: Seq<u8>) -> int {
    f.len() - ETHERNET_HEADER_LEN
}

/// The IPv4 header length field, in bytes.
pub open spec fn ihl_bytes(f: Seq<u8>) -> int {
    (f[ETHERNET_HEADER_LEN as int] % 16) as int * 4
}

/// The IPv4 total length field.
pub open spec fn total_length(f: Seq<u8>) -> int {
    be16(f, ETHERNET_HEADER_LEN + 2) as int
}

pub open spec fn ip_protocol(f: Seq<u8>) -> u8 {
    f[ETHERNET_HEADER_LEN + 9]
}

/// Start of the transport segment, counted from the start of the IPv4 header.
pub open spec fn segment_start(f: Seq<u8>) -> int {
    if ihl_bytes(f) > IPV4_HEADER_LEN {
        ihl_bytes(f)
    } else {
        IPV4_HEADER_LEN as int
    }
}

/// Length of the transport segment.
pub open spec fn segment_len(f: Seq<u8>) -> int {
    let start = segment_start(f);
    let claimed = if total_length(f) > ihl_bytes(f) {
        total_length(f) - ihl_bytes(f)
    } else {
        0
    };
    if ip_len(f) <= start {
        0
    } else if start + claimed < ip_len(f) {
        claimed
    } else {
        ip_len(f) - start
    }
}

/// Position of the transport segment in the frame.
pub open spec fn segment_offset(f: Seq<u8>) -> int {
    ETHERNET_HEADER_LEN + segment_start(f)
}

/// Descriptor with the addresses of the frame, the given ports and protocol.
pub open spec fn described(
    f: Seq<u8>,
    source_port: Option<u16>,
    destination_port: Option<u16>,
    protocol: Protocol,
) -> PacketView {
    PacketView {
        source_ip: dotted_quad(f[26], f[27], f[28], f[29]),
        destination_ip: dotted_quad(f[30], f[31], f[32], f[33]),
        source_port,
        destination_port,
        protocol,
        size: f.len(),
    }
}

/// What a frame decodes to: `None` where a header is cut short or the frame
/// does not carry IPv4.
pub open spec fn decode_frame(f: Seq<u8>) -> Option<PacketView> {
    if !is_ipv4_frame(f) || ip_len(f) < IPV4_HEADER_LEN {
        None
    } else {
        let proto = ip_protocol(f);
        let off = segment_offset(f);
        if proto == IP_PROTO_TCP {
            if segment_len(f) >= TCP_HEADER_LEN {
                Some(
                    described(f, Some(be16(f, off)), Some(be16(f, off + 2)), Protocol::Tcp),
                )
            } else {
                None
            }
        } else if proto == IP_PROTO_UDP {
            if segment_len(f) >= UDP_HEADER_LEN {
                Some(
                    described(f, Some(be16(f, off)), Some(be16(f, off + 2)), Protocol::Udp),
                )
            } else {
                None
            }
        } else if proto == IP_PROTO_ICMP {
            Some(described(f, None, None, Protocol::Icmp))
        } else {
            Some(described(f, None, None, Protocol::Other))
        }
    }
}

/// A well-formed IPv4 frame that carries a whole TCP header.
pub open spec fn is_tcp_frame(f: Seq<u8>) -> bool {
    is_ipv4_frame(f) && ip_len(f) >= IPV4_HEADER_LEN && ip_protocol(f) == IP_PROTO_TCP
        && segment_len(f) >= TCP_HEADER_LEN
}

/// End of the headers that decoding a TCP frame reads.
pub open spec fn tcp_headers_end(f: Seq<u8>) -> int {
    segment_offset(f) + TCP_HEADER_LEN
}

/// A well-formed IPv4/TCP frame decodes to a TCP descriptor that carries both
/// ports of its TCP header.
pub proof fn lemma_tcp_frame_decoded(f: Seq<u8>)
    requires
        is_tcp_frame(f),
    ensures
        decode_frame(f) is Some,
        decode_frame(f).unwrap().protocol == Protocol::Tcp,
        decode_frame(f).unwrap().source_port == Some(be16(f, segment_offset(f))),
        decode_frame(f).unwrap().destination_port == Some(be16(f, segment_offset(f) + 2)),
{
}

/// Changing bytes of a well-formed IPv4/TCP frame after its headers, the
/// frame's length kept, leaves what it decodes to unchanged.
pub proof fn lemma_tcp_payload_ignored(f: Seq<u8>, g: Seq<u8>)
    requires
        is_tcp_frame(f),
        g.len() == f.len(),
        forall|i: int| 0 <= i < tcp_headers_end(f) ==> g[i] == f[i],
    ensures
        decode_frame(g) == decode_frame(f),
{
    assert(g[12] == f[12] && g[13] == f[13]);
    assert(g[14] == f[14] && g[16] == f[16] && g[17] == f[17] && g[23] == f[23]);
    assert(ihl_bytes(g) == ihl_bytes(f));
    assert(segment_len(g) == segment_len(f));
    let off = segment_offset(f);
    assert(g[off] == f[off] && g[off + 1] == f[off + 1]);
    assert(g[off + 2] == f[off + 2] && g[off + 3] == f[off + 3]);
    assert(g[26] == f[26] && g[27] == f[27] && g[28] == f[28] && g[29] == f[29]);
    assert(g[30] == f[30] && g[31] == f[31] && g[32] == f[32] && g[33] == f[33]);
}

/// A frame too short for a header that it announces decodes to nothing.
pub proof fn lemma_short_frame_rejected(f: Seq<u8>)
    requires
        f.len() < ETHERNET_HEADER_LEN || (is_ipv4_frame(f) && ip_len(f) < IPV4_HEADER_LEN) || (
        is_ipv4_frame(f) && ip_len(f) >= IPV4_HEADER_LEN && ip_protocol(f) == IP_PROTO_TCP
            && segment_len(f) < TCP_HEADER_LEN) || (is_ipv4_frame(f) && ip_len(f)
            >= IPV4_HEADER_LEN && ip_protocol(f) == IP_PROTO_UDP && segment_len(f)
            < UDP_HEADER_LEN),
    ensures
        decode_frame(f) is None,
{
}

/// Decoding is deterministic: equal byte sequences decode to equal descriptors.
pub proof fn lemma_decode_deterministic(a: Seq<u8>, b: Seq<u8>)
    requires
        a == b,
    ensures
        decode_frame(a) == decode_frame(b),
{
}

fn read_be16(f: &[u8], i: usize) -> (r: u16)
    requires
        i + 1 < f@.len(),
    ensures
        r == be16(f@, i as int),
{
    (f[i] as u16) * 256 + f[i + 1] as u16
}

/// Decodes a raw Ethernet frame. Never reads outside `packet`.
pub fn parse_packet(packet: &[u8]) -> (r: Option<ParsedPacket>)
    ensures
        packet_option_view(r) == decode_frame(packet@),
{
    let n = packet.len();
    if n < ETHERNET_HEADER_LEN || read_be16(packet, 12) != ETHERTYPE_IPV4 {
        return None;
    }
    if n - ETHERNET_HEADER_LEN < IPV4_HEADER_LEN {
        return None;
    }
    let ip_n = n - ETHERNET_HEADER_LEN;
    let ihl = ((packet[ETHERNET_HEADER_LEN] % 16) as usize) * 4;
    let total = read_be16(packet, ETHERNET_HEADER_LEN + 2) as usize;
    let start: usize = if ihl > IPV4_HEADER_LEN {
        ihl
    } else {
        IPV4_HEADER_LEN
    };
    let claimed: usize = if total > ihl {
        total - ihl
    } else {
        0
    };
    let seg_len: usize = if ip_n <= start {
        0
    } else if claimed < ip_n - start {
        claimed
    } else {
        ip_n - start
    };
    let off = ETHERNET_HEADER_LEN + start;
    let source_ip = dotted_quad_string(packet[26], packet[27], packet[28], packet[29]);
    let destination_ip = dotted_quad_string(packet[30], packet[31], packet[32], packet[33]);
    let proto = packet[ETHERNET_HEADER_LEN + 9];
    let (source_port, destination_port, protocol) = if proto == IP_PROTO_TCP {
        if seg_len < TCP_HEADER_LEN {
            return None;
        }
        (Some(read_be16(packet, off)), Some(read_be16(packet, off + 2)), Protocol::Tcp)
    } else if proto == IP_PROTO_UDP {
        if seg_len < UDP_HEADER_LEN {
            return None;
        }
        (Some(read_be16(packet, off)), Some(read_be16(packet, off + 2)), Protocol::Udp)
    } else if proto == IP_PROTO_ICMP {
        (None, None, Protocol::Icmp)
    } else {
        (None, None, Protocol::Other)
    };
    Some(ParsedPacket { source_ip, destination_ip, source_port, destination_port, protocol, size: n })
}

} // verus!
