use vstd::prelude::*;
use crate::wire::{
    spec_u16_from_le_bytes, spec_u32_from_le_bytes, u16_from_le_bytes, u32_from_le_bytes,
};
use crate::common_net::PAYLOAD_OFFSET;
use crate::completion::{has_phase, PHASE_RESPONSE};
use crate::consts::{ETH_P_PINGPONG, PACKETS_MAP_SIZE};
use crate::payload::{decodes_to, PingPongPayload, PINGPONG_MAGIC};

verus! {

/// Bytes of the shortest frame that can carry a payload: the Ethernet
/// header, the IPv4 header and the payload.
pub const MIN_FRAME_LEN: usize = 82;

/// Offset of the EtherType in a frame.
pub const ETHER_TYPE_OFFSET: usize = 12;

/// Offset of the payload's sentinel in a frame.
pub const FRAME_MAGIC_OFFSET: usize = 78;

/// What the filter tells the kernel to do with a frame.
#[derive(Debug, Clone, Copy, PartialEq, Eq)]
pub enum XdpAction {
    Aborted,
    Drop,
    Pass,
    Tx,
    Redirect,
}

/// A frame is a ping-pong frame when it is long enough for the headers
/// and a payload, carries the ping-pong EtherType and a valid payload.
pub open spec fn spec_is_pingpong_frame(frame: Seq<u8>) -> bool {
    &&& frame.len() >= MIN_FRAME_LEN
    &&& spec_u16_from_le_bytes(frame.subrange(12, 14)) == ETH_P_PINGPONG
    &&& spec_u32_from_le_bytes(frame.subrange(78, 82)) == PINGPONG_MAGIC
}

/// Whether a frame is a ping-pong frame.
pub fn is_pingpong_frame(frame: &[u8]) -> (yes: bool)
    ensures
        yes == spec_is_pingpong_frame(frame@),
{
    if frame.len() < MIN_FRAME_LEN {
        return false;
    }
    let ether_type = u16_from_le_bytes(
        vstd::slice::slice_subrange(frame, ETHER_TYPE_OFFSET, ETHER_TYPE_OFFSET + 2),
    );
    if ether_type != ETH_P_PINGPONG {
        return false;
    }
    let magic = u32_from_le_bytes(
        vstd::slice::slice_subrange(frame, FRAME_MAGIC_OFFSET, FRAME_MAGIC_OFFSET + 4),
    );
    magic == PINGPONG_MAGIC
}

/// The payload of a ping-pong frame.
pub fn frame_payload(frame: &[u8]) -> (p: PingPongPayload)
    requires
        frame@.len() >= MIN_FRAME_LEN,
    ensures
        decodes_to(frame@.subrange(34, 82), p),
{
    PingPongPayload::deserialize(
        vstd::slice::slice_subrange(frame, PAYLOAD_OFFSET, MIN_FRAME_LEN),
    )
}

/// The filter in front of an AF_XDP socket: a ping-pong frame is
/// redirected to the socket, every other frame passes to the kernel.
pub fn try_xsk_pingpong(frame: &[u8]) -> (action: XdpAction)
    ensures
        action == if spec_is_pingpong_frame(frame@) {
            XdpAction::Redirect
        } else {
            XdpAction::Pass
        },
{
    if is_pingpong_frame(frame) {
        XdpAction::Redirect
    } else {
        XdpAction::Pass
    }
}

/// The ring of payloads that the filter fills and user space empties. A
/// slot is taken while the payload in it is valid.
#[derive(Debug, Clone)]
pub struct PayloadMap {
    pub slots: Vec<PingPongPayload>,
    pub index: u32,
}

/// The payload that an emptied slot holds.
pub open spec fn is_blank(p: PingPongPayload) -> bool {
    &&& p.id == 0
    &&& p.ts[0] == 0
    &&& p.ts[1] == 0
    &&& p.ts[2] == 0
    &&& p.ts[3] == 0
    &&& p.phase == 0
    &&& p.magic == 0
}

/// The payload as the filter stores it: with the lowest bit of its sentinel set.
pub open spec fn published(p: PingPongPayload) -> PingPongPayload {
    PingPongPayload { magic: (p.magic & 0xFFFFFFFE) | 1, ..p }
}

impl PayloadMap {
    /// The ring has `PACKETS_MAP_SIZE` slots and its index points at one.
    pub open spec fn wf(&self) -> bool {
        &&& self.slots@.len() == PACKETS_MAP_SIZE
        &&& self.index < PACKETS_MAP_SIZE
    }

    /// A ring of empty slots.
    pub fn new() -> (map: PayloadMap)
        ensures
            map.wf(),
            map.index == 0,
            forall|k: int| 0 <= k < PACKETS_MAP_SIZE ==> is_blank(#[trigger] map.slots@[k]),
    {
        let blank = PingPongPayload { id: 0, ts: [0;4], phase: 0, magic: 0 };
        let mut slots: Vec<PingPongPayload> = Vec::new();
        let mut i: usize = 0;
        while i < PACKETS_MAP_SIZE as usize
            invariant
                i <= PACKETS_MAP_SIZE,
                slots@.len() == i,
                is_blank(blank),
                forall|k: int| 0 <= k < i ==> is_blank(#[trigger] slots@[k]),
            decreases PACKETS_MAP_SIZE - i,
        {
            slots.push(blank);
            i += 1;
        }
        PayloadMap { slots, index: 0 }
    }
}

/// Stores a payload in the next slot and returns 0, or returns 1 and
/// changes nothing where that slot is still taken.
pub fn add_packet_to_map(map: &mut PayloadMap, payload: PingPongPayload) -> (code: u32)
    requires
        old(map).wf(),
    ensures
        final(map).wf(),
        old(map).slots@[old(map).index as int].magic == PINGPONG_MAGIC ==> code == 1
            && final(map).slots@ == old(map).slots@ && final(map).index == old(map).index,
        old(map).slots@[old(map).index as int].magic != PINGPONG_MAGIC ==> code == 0
            && final(map).slots@ == old(map).slots@.update(
            old(map).index as int,
            published(payload),
        ) && final(map).index == (old(map).index + 1) % (PACKETS_MAP_SIZE as int),
{
    let key: usize = map.index as usize;
    if map.slots[key].is_valid() {
        return 1;
    }
    let mut stored = payload;
    stored.magic = (payload.magic & 0xFFFFFFFE) | 1;
    map.slots.set(key, stored);
    map.index = (map.index + 1) % (PACKETS_MAP_SIZE as u32);
    0
}

/// Takes the payload out of slot `next_index` and returns it with the
/// index of the slot after it, or returns nothing and changes nothing
/// while the slot is empty.
pub fn poll_next_payload(map: &mut PayloadMap, next_index: u32) -> (r: Option<(PingPongPayload, u32)>)
    requires
        old(map).wf(),
        next_index < PACKETS_MAP_SIZE,
    ensures
        final(map).wf(),
        final(map).index == old(map).index,
        old(map).slots@[next_index as int].magic != PINGPONG_MAGIC ==> r.is_none()
            && final(map).slots@ == old(map).slots@,
        old(map).slots@[next_index as int].magic == PINGPONG_MAGIC ==> r == Some(
            (old(map).slots@[next_index as int], ((next_index + 1) % (PACKETS_MAP_SIZE as int)) as u32),
        ) && final(map).slots@.len() == PACKETS_MAP_SIZE && is_blank(
            final(map).slots@[next_index as int],
        ) && (forall|k: int|
            0 <= k < PACKETS_MAP_SIZE && k != next_index ==> final(map).slots@[k] == old(map).slots@[k]),
{
    let at: usize = next_index as usize;
    let found = map.slots[at];
    if !found.is_valid() {
        return None;
    }
    map.slots.set(at, PingPongPayload { id: 0, ts: [0;4], phase: 0, magic: 0 });
    Some((found, (next_index + 1) % (PACKETS_MAP_SIZE as u32)))
}

/// What the client of the map-based receiver makes of a payload that it
/// took out of the ring at `now`: it passes over one that is not a
/// server's answer and stamps any other as received.
pub fn map_client_receive(p: PingPongPayload, now: u64) -> (r: Option<PingPongPayload>)
    ensures
        p.phase != PHASE_RESPONSE ==> r.is_none(),
        p.phase == PHASE_RESPONSE ==> (r matches Some(q) && q.id == p.id && q.phase == p.phase
            && q.magic == p.magic && q.ts@ == p.ts@.update(3, now)),
{
    if !has_phase(&p, PHASE_RESPONSE) {
        return None;
    }
    let mut q = p;
    q.set_ts_value(3, now);
    Some(q)
}

/// The filter of the map-based receiver: the payload of a ping-pong frame
/// goes into the ring where the next slot is free; every frame passes
/// to the kernel.
pub fn try_pingpong_xdp(map: &mut PayloadMap, frame: &[u8]) -> (action: XdpAction)
    requires
        old(map).wf(),
    ensures
        final(map).wf(),
        action == XdpAction::Pass,
        !spec_is_pingpong_frame(frame@) ==> final(map).slots@ == old(map).slots@
            && final(map).index == old(map).index,
        spec_is_pingpong_frame(frame@) && old(map).slots@[old(map).index as int].magic
            == PINGPONG_MAGIC ==> final(map).slots@ == old(map).slots@ && final(map).index == old(map).index,
        spec_is_pingpong_frame(frame@) && old(map).slots@[old(map).index as int].magic
            != PINGPONG_MAGIC ==> (exists|p: PingPongPayload|
            #![auto]
            decodes_to(frame@.subrange(34, 82), p) && final(map).slots@ == old(map).slots@.update(
                old(map).index as int,
                p,
            )) && final(map).index == (old(map).index + 1) % (PACKETS_MAP_SIZE as int),
{
    if !is_pingpong_frame(frame) {
        return XdpAction::Pass;
    }
    let payload = frame_payload(frame);
    proof {
        let m = payload.magic;
        assert(frame@.subrange(34, 82).subrange(44, 48) =~= frame@.subrange(78, 82));
        assert(m == 0x8badbeefu32 ==> (m & 0xFFFFFFFE) | 1 == m) by (bit_vector);
        assert(published(payload) == payload);
    }
    let _ = add_packet_to_map(map, payload);
    XdpAction::Pass
}

/// One folding step of a checksum: the part above 16 bits is added to the
/// low 16 bits.
pub open spec fn spec_fold_once(csum: u64) -> u64 {
    if csum >> 16 != 0 {
        ((csum & 0xffff) + (csum >> 16)) as u64
    } else {
        csum
    }
}

/// The 16-bit checksum of a sum: the complement of the low 16 bits of
/// the sum after four folding steps.
pub open spec fn spec_csum_fold(csum: u64) -> u16 {
    ((!spec_fold_once(spec_fold_once(spec_fold_once(spec_fold_once(csum))))) & 0xffff) as u16
}

fn fold_once(csum: u64) -> (r: u64)
    ensures
        r == spec_fold_once(csum),
{
    if csum >> 16 != 0 {
        assert(csum & 0xffff <= 0xffff) by (bit_vector);
        assert(csum >> 16 <= 0xffffffffffff) by (bit_vector);
        (csum & 0xffff) + (csum >> 16)
    } else {
        csum
    }
}

/// Folds a checksum's sum to 16 bits and complements it.
pub fn csum_fold_helper(csum: u64) -> (r: u16)
    ensures
        r == spec_csum_fold(csum),
{
    let c = fold_once(fold_once(fold_once(fold_once(csum))));
    assert((!c) & 0xffff <= 0xffff) by (bit_vector);
    ((!c) & 0xffff) as u16
}

} // verus!
