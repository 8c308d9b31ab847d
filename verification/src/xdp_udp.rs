use vstd::prelude::*;
use vstd::slice::slice_subrange;
use crate::completion::{client_receive, server_echo, PHASE_REQUEST, PHASE_RESPONSE};
use crate::payload::{decodes_to, spec_serialize, PingPongPayload, PINGPONG_MAGIC};
use crate::wire::{
    spec_u16_from_be_bytes, spec_u16_to_be_bytes, spec_u32_from_le_bytes, u16_from_be_bytes,
    u16_to_be_bytes, u32_from_le_bytes,
};
use crate::xdp::{csum_fold_helper, spec_csum_fold, XdpAction};

verus! {

/// Port of the ping-pong exchange over UDP.
pub const XDP_UDP_PORT: u16 = 1234;

/// Protocol number of UDP.
pub const IPPROTO_UDP: u8 = 17;

/// Bytes of the shortest UDP frame that can carry a payload: the
/// Ethernet, IPv4 and UDP headers and the payload.
pub const MIN_UDP_FRAME_LEN: usize = 90;

/// Offset of the payload in a UDP frame.
pub const UDP_PAYLOAD_OFFSET: usize = 42;

/// A frame is a ping-pong datagram when it is long enough, is an IPv4
/// frame that carries UDP to the ping-pong port, both as they stand on
/// the wire, and its payload is valid.
pub open spec fn spec_is_pingpong_datagram(frame: Seq<u8>) -> bool {
    &&& frame.len() >= MIN_UDP_FRAME_LEN
    &&& frame[12] == 0x08
    &&& frame[13] == 0x00
    &&& frame[23] == IPPROTO_UDP
    &&& spec_u16_from_be_bytes(frame.subrange(36, 38)) == XDP_UDP_PORT
    &&& spec_u32_from_le_bytes(frame.subrange(86, 90)) == PINGPONG_MAGIC
}

/// The phase of the payload of a ping-pong datagram.
pub open spec fn spec_datagram_phase(frame: Seq<u8>) -> u32 {
    spec_u32_from_le_bytes(frame.subrange(82, 86))
}

/// The sum of the ten 16-bit words of an IPv4 header, each read most
/// significant byte first.
pub open spec fn spec_ipv4_header_sum(h: Seq<u8>) -> u64 {
    (spec_u16_from_be_bytes(h.subrange(0, 2)) + spec_u16_from_be_bytes(h.subrange(2, 4))
        + spec_u16_from_be_bytes(h.subrange(4, 6)) + spec_u16_from_be_bytes(h.subrange(6, 8))
        + spec_u16_from_be_bytes(h.subrange(8, 10)) + spec_u16_from_be_bytes(h.subrange(10, 12))
        + spec_u16_from_be_bytes(h.subrange(12, 14)) + spec_u16_from_be_bytes(h.subrange(14, 16))
        + spec_u16_from_be_bytes(h.subrange(16, 18)) + spec_u16_from_be_bytes(
        h.subrange(18, 20),
    )) as u64
}

/// The checksum of an IPv4 header whose checksum field holds zero: the
/// folded and complemented sum of its words.
pub open spec fn spec_ipv4_checksum(h: Seq<u8>) -> u16 {
    spec_csum_fold(spec_ipv4_header_sum(h))
}

/// The IPv4 header of the answer to a frame, its checksum field zero: the
/// header of the frame with source and destination swapped and a time to
/// live of 64.
pub open spec fn spec_answer_ip_header(frame: Seq<u8>) -> Seq<u8> {
    frame.subrange(14, 22) + seq![64u8] + frame.subrange(23, 24) + seq![0u8, 0u8]
        + frame.subrange(30, 34) + frame.subrange(26, 30)
}

/// The headers of the answer to a ping-pong datagram: the two MAC
/// addresses swapped, the IPv4 header of the answer with its checksum, both
/// ports the ping-pong port and no UDP checksum.
pub open spec fn spec_echo_headers(frame: Seq<u8>) -> Seq<u8> {
    let ip = spec_answer_ip_header(frame);
    frame.subrange(6, 12) + frame.subrange(0, 6) + frame.subrange(12, 14) + ip.subrange(0, 10)
        + spec_u16_to_be_bytes(spec_ipv4_checksum(ip)) + ip.subrange(12, 20)
        + spec_u16_to_be_bytes(XDP_UDP_PORT) + spec_u16_to_be_bytes(XDP_UDP_PORT)
        + frame.subrange(38, 40) + seq![0u8, 0u8]
}

/// Whether a frame is a ping-pong datagram.
pub fn is_pingpong_datagram(frame: &[u8]) -> (yes: bool)
    ensures
        yes == spec_is_pingpong_datagram(frame@),
{
    if frame.len() < MIN_UDP_FRAME_LEN {
        return false;
    }
    if frame[12] != 0x08 || frame[13] != 0x00 {
        return false;
    }
    if frame[23] != IPPROTO_UDP {
        return false;
    }
    if u16_from_be_bytes(slice_subrange(frame, 36, 38)) != XDP_UDP_PORT {
        return false;
    }
    u32_from_le_bytes(slice_subrange(frame, 86, 90)) == PINGPONG_MAGIC
}

/// The sum of the ten 16-bit words of an IPv4 header.
pub fn ipv4_header_sum(h: &[u8]) -> (sum: u64)
    requires
        h@.len() == 20,
    ensures
        sum == spec_ipv4_header_sum(h@),
{
    let mut sum: u64 = 0;
    let mut i: usize = 0;
    let ghost w = |k: int| spec_u16_from_be_bytes(h@.subrange(2 * k, 2 * k + 2)) as int;
    while i < 10
        invariant
            i <= 10,
            h@.len() == 20,
            w == |k: int| spec_u16_from_be_bytes(h@.subrange(2 * k, 2 * k + 2)) as int,
            sum <= i * 0xffff,
            i == 0 ==> sum == 0,
            i == 1 ==> sum == w(0),
            i == 2 ==> sum == w(0) + w(1),
            i == 3 ==> sum == w(0) + w(1) + w(2),
            i == 4 ==> sum == w(0) + w(1) + w(2) + w(3),
            i == 5 ==> sum == w(0) + w(1) + w(2) + w(3) + w(4),
            i == 6 ==> sum == w(0) + w(1) + w(2) + w(3) + w(4) + w(5),
            i == 7 ==> sum == w(0) + w(1) + w(2) + w(3) + w(4) + w(5) + w(6),
            i == 8 ==> sum == w(0) + w(1) + w(2) + w(3) + w(4) + w(5) + w(6) + w(7),
            i == 9 ==> sum == w(0) + w(1) + w(2) + w(3) + w(4) + w(5) + w(6) + w(7) + w(8),
            i == 10 ==> sum == w(0) + w(1) + w(2) + w(3) + w(4) + w(5) + w(6) + w(7) + w(8) + w(
                9,
            ),
        decreases 10 - i,
    {
        let word = u16_from_be_bytes(slice_subrange(h, 2 * i, 2 * i + 2));
        sum = sum + word as u64;
        i += 1;
    }
    sum
}

/// The frame that a client's filter passes on: a ping-pong datagram with
/// `ts` as the fourth timestamp of its payload, any other frame as it is.
pub fn try_pure_client(frame: &[u8], ts: u64) -> (r: (XdpAction, Vec<u8>))
    ensures
        r.0 == XdpAction::Pass,
        !spec_is_pingpong_datagram(frame@) ==> r.1@ == frame@,
        spec_is_pingpong_datagram(frame@) ==> exists|p: PingPongPayload, q: PingPongPayload|
            #![auto]
            decodes_to(frame@.subrange(42, 90), p) && q.id == p.id && q.phase == p.phase
                && q.magic == p.magic && q.ts@ == p.ts@.update(3, ts) && r.1@ == frame@.subrange(
                0,
                42,
            ) + spec_serialize(q) + frame@.subrange(90, frame@.len() as int),
{
    let mut out: Vec<u8> = Vec::new();
    if !is_pingpong_datagram(frame) {
        out.extend_from_slice(frame);
        assert(out@ =~= frame@);
        return (XdpAction::Pass, out);
    }
    let p = PingPongPayload::deserialize(slice_subrange(frame, UDP_PAYLOAD_OFFSET, MIN_UDP_FRAME_LEN));
    assert(frame@.subrange(42, 90).subrange(44, 48) =~= frame@.subrange(86, 90));
    let q = match client_receive(p, ts) {
        Some(q) => q,
        None => {
            out.extend_from_slice(frame);
            return (XdpAction::Pass, out);
        },
    };
    let bytes = q.serialize();
    out.extend_from_slice(slice_subrange(frame, 0, UDP_PAYLOAD_OFFSET));
    out.extend_from_slice(bytes.as_slice());
    out.extend_from_slice(slice_subrange(frame, MIN_UDP_FRAME_LEN, frame.len()));
    assert(out@ =~= frame@.subrange(0, 42) + spec_serialize(q) + frame@.subrange(
        90,
        frame@.len() as int,
    ));
    (XdpAction::Pass, out)
}

/// The IPv4 header of the answer to a frame, its checksum field zero.
fn answer_ip_header(frame: &[u8]) -> (ip: Vec<u8>)
    requires
        frame@.len() >= MIN_UDP_FRAME_LEN,
    ensures
        ip@ == spec_answer_ip_header(frame@),
        ip@.len() == 20,
{
    let mut ip: Vec<u8> = Vec::new();
    ip.extend_from_slice(slice_subrange(frame, 14, 22));
    ip.push(64);
    ip.extend_from_slice(slice_subrange(frame, 23, 24));
    ip.push(0);
    ip.push(0);
    ip.extend_from_slice(slice_subrange(frame, 30, 34));
    ip.extend_from_slice(slice_subrange(frame, 26, 30));
    assert(ip@ =~= spec_answer_ip_header(frame@));
    ip
}

/// The headers of the answer to a ping-pong datagram.
fn echo_headers(frame: &[u8]) -> (head: Vec<u8>)
    requires
        frame@.len() >= MIN_UDP_FRAME_LEN,
    ensures
        head@ == spec_echo_headers(frame@),
        head@.len() == 42,
{
    let ip = answer_ip_header(frame);
    let check = u16_to_be_bytes(csum_fold_helper(ipv4_header_sum(ip.as_slice())));
    let port = u16_to_be_bytes(XDP_UDP_PORT);
    let mut head: Vec<u8> = Vec::new();
    head.extend_from_slice(slice_subrange(frame, 6, 12));
    head.extend_from_slice(slice_subrange(frame, 0, 6));
    head.extend_from_slice(slice_subrange(frame, 12, 14));
    head.extend_from_slice(slice_subrange(ip.as_slice(), 0, 10));
    head.extend_from_slice(check.as_slice());
    head.extend_from_slice(slice_subrange(ip.as_slice(), 12, 20));
    head.extend_from_slice(port.as_slice());
    head.extend_from_slice(port.as_slice());
    head.extend_from_slice(slice_subrange(frame, 38, 40));
    head.push(0);
    head.push(0);
    assert(head@ =~= spec_echo_headers(frame@));
    head
}

/// The frame that a server's filter sends back. A ping-pong datagram
/// that is a client's request is answered: its payload gets `received`
/// and `sent` as second and third timestamp and the phase of an answer,
/// and its headers are those of the answer. Any other frame goes back as
/// it is.
pub fn try_xdp_test(frame: &[u8], received: u64, sent: u64) -> (r: (XdpAction, Vec<u8>))
    ensures
        r.0 == XdpAction::Tx,
        !(spec_is_pingpong_datagram(frame@) && spec_datagram_phase(frame@) == PHASE_REQUEST)
            ==> r.1@ == frame@,
        (spec_is_pingpong_datagram(frame@) && spec_datagram_phase(frame@) == PHASE_REQUEST)
            ==> exists|p: PingPongPayload, q: PingPongPayload|
            #![auto]
            decodes_to(frame@.subrange(42, 90), p) && q.id == p.id && q.phase == PHASE_RESPONSE
                && q.magic == p.magic && q.ts@ == p.ts@.update(1, received).update(2, sent)
                && r.1@ == spec_echo_headers(frame@) + spec_serialize(q) + frame@.subrange(
                90,
                frame@.len() as int,
            ),
{
    let mut out: Vec<u8> = Vec::new();
    if !is_pingpong_datagram(frame) {
        out.extend_from_slice(frame);
        assert(out@ =~= frame@);
        return (XdpAction::Tx, out);
    }
    let p = PingPongPayload::deserialize(slice_subrange(frame, UDP_PAYLOAD_OFFSET, MIN_UDP_FRAME_LEN));
    assert(frame@.subrange(42, 90).subrange(40, 44) =~= frame@.subrange(82, 86));
    assert(frame@.subrange(42, 90).subrange(44, 48) =~= frame@.subrange(86, 90));
    let q = match server_echo(p, received, sent) {
        Some(q) => q,
        None => {
            out.extend_from_slice(frame);
            assert(out@ =~= frame@);
            return (XdpAction::Tx, out);
        },
    };
    let head = echo_headers(frame);
    let bytes = q.serialize();
    out.extend_from_slice(head.as_slice());
    out.extend_from_slice(bytes.as_slice());
    out.extend_from_slice(slice_subrange(frame, MIN_UDP_FRAME_LEN, frame.len()));
    assert(out@ =~= spec_echo_headers(frame@) + spec_serialize(q) + frame@.subrange(
        90,
        frame@.len() as int,
    ));
    (XdpAction::Tx, out)
}

} // verus!
