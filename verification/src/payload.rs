use vstd::prelude::*;
use crate::wire::{
    lemma_u32_le_round_trip, lemma_u64_le_round_trip, spec_u32_from_le_bytes,
    spec_u32_to_le_bytes, spec_u64_from_le_bytes, spec_u64_to_le_bytes, u32_from_le_bytes,
    u32_to_le_bytes, u64_from_le_bytes, u64_to_le_bytes,
};
use vstd::wrapping::u64_specs::wrapping_sub;

verus! {

/// Sentinel that marks a record as a ping-pong payload.
pub const PINGPONG_MAGIC: u32 = 0x8badbeef;

/// Bytes of a payload on the wire.
pub const PAYLOAD_LEN: usize = 48;

/// One ping-pong record: the packet's index, the four timestamps of its
/// round trip (client send, server receive, server send, client receive),
/// the protocol phase and the sentinel.
#[derive(Debug, Clone, Copy, PartialEq, Eq)]
pub struct PingPongPayload {
    pub id: u64,
    pub ts: [u64; 4],
    pub phase: u32,
    pub magic: u32,
}

/// The wire image of a payload: every field little-endian, in declaration order.
pub open spec fn spec_serialize(p: PingPongPayload) -> Seq<u8> {
    spec_u64_to_le_bytes(p.id) + spec_u64_to_le_bytes(p.ts[0]) + spec_u64_to_le_bytes(p.ts[1])
        + spec_u64_to_le_bytes(p.ts[2]) + spec_u64_to_le_bytes(p.ts[3]) + spec_u32_to_le_bytes(
        p.phase,
    ) + spec_u32_to_le_bytes(p.magic)
}

/// `p` is the payload that the first 48 bytes of `b` encode.
pub open spec fn decodes_to(b: Seq<u8>, p: PingPongPayload) -> bool {
    &&& p.id == spec_u64_from_le_bytes(b.subrange(0, 8))
    &&& p.ts[0] == spec_u64_from_le_bytes(b.subrange(8, 16))
    &&& p.ts[1] == spec_u64_from_le_bytes(b.subrange(16, 24))
    &&& p.ts[2] == spec_u64_from_le_bytes(b.subrange(24, 32))
    &&& p.ts[3] == spec_u64_from_le_bytes(b.subrange(32, 40))
    &&& p.phase == spec_u32_from_le_bytes(b.subrange(40, 44))
    &&& p.magic == spec_u32_from_le_bytes(b.subrange(44, 48))
}

/// A payload is valid when its sentinel is the well-known one.
pub open spec fn spec_is_valid(p: PingPongPayload) -> bool {
    p.magic == PINGPONG_MAGIC
}

/// Two payloads agree in every field.
pub open spec fn same_payload(p: PingPongPayload, q: PingPongPayload) -> bool {
    &&& p.id == q.id
    &&& p.ts[0] == q.ts[0]
    &&& p.ts[1] == q.ts[1]
    &&& p.ts[2] == q.ts[2]
    &&& p.ts[3] == q.ts[3]
    &&& p.phase == q.phase
    &&& p.magic == q.magic
}

/// Half of the round trip time less the time the server held the packet,
/// each difference taken modulo 2^64.
pub open spec fn spec_latency(p: PingPongPayload) -> u64 {
    wrapping_sub(wrapping_sub(p.ts[3], p.ts[0]), wrapping_sub(p.ts[2], p.ts[1])) / 2
}

impl PingPongPayload {
    /// A fresh payload with the given index: no timestamps, phase 0, valid sentinel.
    pub fn new(id: u64) -> (p: PingPongPayload)
        ensures
            p.id == id,
            p.phase == 0,
            p.magic == PINGPONG_MAGIC,
            forall|i: int| 0 <= i < 4 ==> p.ts[i] == 0,
    {
        PingPongPayload { id, phase: 0, ts: [0;4], magic: PINGPONG_MAGIC }
    }

    /// A fresh payload with index 0.
    pub fn new_empty() -> (p: PingPongPayload)
        ensures
            p.id == 0,
            p.phase == 0,
            p.magic == PINGPONG_MAGIC,
            forall|i: int| 0 <= i < 4 ==> p.ts[i] == 0,
    {
        PingPongPayload::new(0)
    }

    /// Whether the sentinel is the well-known one.
    pub fn is_valid(&self) -> (ok: bool)
        ensures
            ok == spec_is_valid(*self),
    {
        self.magic == PINGPONG_MAGIC
    }

    /// The one-way latency that the four timestamps give.
    pub fn compute_latency(&self) -> (lat: u64)
        ensures
            lat == spec_latency(*self),
    {
        let round_trip: u64 = self.ts[3].wrapping_sub(self.ts[0]);
        let held: u64 = self.ts[2].wrapping_sub(self.ts[1]);
        round_trip.wrapping_sub(held) / 2
    }

    /// Stores `new_value` as timestamp `idx`.
    pub fn set_ts_value(&mut self, idx: usize, new_value: u64)
        requires
            idx < 4,
        ensures
            final(self).id == old(self).id,
            final(self).phase == old(self).phase,
            final(self).magic == old(self).magic,
            final(self).ts@ == old(self).ts@.update(idx as int, new_value),
    {
        self.ts[idx] = new_value;
    }

    /// The 48 bytes that carry this payload.
    pub fn serialize(&self) -> (res: [u8; 48])
        ensures
            res@ == spec_serialize(*self),
    {
        let mut buf: Vec<u8> = Vec::new();
        let id = u64_to_le_bytes(self.id);
        buf.extend_from_slice(id.as_slice());
        let t0 = u64_to_le_bytes(self.ts[0]);
        buf.extend_from_slice(t0.as_slice());
        let t1 = u64_to_le_bytes(self.ts[1]);
        buf.extend_from_slice(t1.as_slice());
        let t2 = u64_to_le_bytes(self.ts[2]);
        buf.extend_from_slice(t2.as_slice());
        let t3 = u64_to_le_bytes(self.ts[3]);
        buf.extend_from_slice(t3.as_slice());
        let phase = u32_to_le_bytes(self.phase);
        buf.extend_from_slice(phase.as_slice());
        let magic = u32_to_le_bytes(self.magic);
        buf.extend_from_slice(magic.as_slice());
        assert(buf@ == spec_serialize(*self));
        let mut res: [u8; 48] = [0;48];
        let mut i: usize = 0;
        while i < 48
            invariant
                i <= 48,
                buf@.len() == 48,
                forall|k: int| 0 <= k < i ==> res@[k] == buf@[k],
            decreases 48 - i,
        {
            res[i] = buf[i];
            i += 1;
        }
        assert(res@ =~= buf@);
        res
    }

    /// The payload that the first 48 bytes of `bytes` carry.
    pub fn deserialize(bytes: &[u8]) -> (p: PingPongPayload)
        requires
            bytes@.len() >= 48,
        ensures
            decodes_to(bytes@, p),
    {
        let id = u64_from_le_bytes(vstd::slice::slice_subrange(bytes, 0, 8));
        let t0 = u64_from_le_bytes(vstd::slice::slice_subrange(bytes, 8, 16));
        let t1 = u64_from_le_bytes(vstd::slice::slice_subrange(bytes, 16, 24));
        let t2 = u64_from_le_bytes(vstd::slice::slice_subrange(bytes, 24, 32));
        let t3 = u64_from_le_bytes(vstd::slice::slice_subrange(bytes, 32, 40));
        let phase = u32_from_le_bytes(vstd::slice::slice_subrange(bytes, 40, 44));
        let magic = u32_from_le_bytes(vstd::slice::slice_subrange(bytes, 44, 48));
        PingPongPayload { id, ts: [t0, t1, t2, t3], phase, magic }
    }
}

/// Decoding the wire image of a payload gives the payload back: whatever
/// decodes from `spec_serialize(p)` agrees with `p` in every field.
pub proof fn lemma_deserialize_serialize(p: PingPongPayload, q: PingPongPayload)
    requires
        decodes_to(spec_serialize(p), q),
    ensures
        same_payload(p, q),
{
    lemma_u64_le_round_trip(p.id);
    lemma_u64_le_round_trip(p.ts[0]);
    lemma_u64_le_round_trip(p.ts[1]);
    lemma_u64_le_round_trip(p.ts[2]);
    lemma_u64_le_round_trip(p.ts[3]);
    lemma_u32_le_round_trip(p.phase);
    lemma_u32_le_round_trip(p.magic);
    let b = spec_serialize(p);
    assert(b.subrange(0, 8) =~= spec_u64_to_le_bytes(p.id));
    assert(b.subrange(8, 16) =~= spec_u64_to_le_bytes(p.ts[0]));
    assert(b.subrange(16, 24) =~= spec_u64_to_le_bytes(p.ts[1]));
    assert(b.subrange(24, 32) =~= spec_u64_to_le_bytes(p.ts[2]));
    assert(b.subrange(32, 40) =~= spec_u64_to_le_bytes(p.ts[3]));
    assert(b.subrange(40, 44) =~= spec_u32_to_le_bytes(p.phase));
    assert(b.subrange(44, 48) =~= spec_u32_to_le_bytes(p.magic));
}

/// A payload with the well-known sentinel is valid, and flipping any one
/// bit of the sentinel makes it invalid.
pub proof fn lemma_flipped_magic_invalid(p: PingPongPayload, q: PingPongPayload, bit: u32)
    requires
        bit < 32,
        p.magic == PINGPONG_MAGIC,
        q.magic == p.magic ^ (1u32 << bit),
    ensures
        spec_is_valid(p),
        !spec_is_valid(q),
{
    let m = p.magic;
    assert(bit < 32 ==> (m ^ (1u32 << bit)) != m) by (bit_vector);
}

/// With timestamps in order the latency is the plain formula,
/// `((t3 - t0) - (t2 - t1)) / 2`, and it is not negative.
pub proof fn lemma_latency_ordered(p: PingPongPayload)
    requires
        p.ts[0] <= p.ts[1] <= p.ts[2] <= p.ts[3],
    ensures
        spec_latency(p) as int == ((p.ts[3] - p.ts[0]) - (p.ts[2] - p.ts[1])) / 2,
        spec_latency(p) >= 0,
{
}

} // verus!
