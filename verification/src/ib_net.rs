use rand::rngs::StdRng;
use rand::{Rng, SeedableRng};
use vstd::prelude::*;
use vstd::wrapping::u64_specs::wrapping_mul;
use crate::wire::{
    copy_into, lemma_u16_le_round_trip, lemma_u32_le_round_trip, spec_u16_from_le_bytes,
    spec_u16_to_le_bytes, spec_u32_from_le_bytes, spec_u32_to_le_bytes, take_array,
    u16_from_le_bytes, u16_to_le_bytes, u32_from_le_bytes, u32_to_le_bytes,
};

verus! {

/// Bytes of a node's record on the wire.
pub const NODE_INFO_LEN: usize = 26;

/// Bits of a packet sequence number.
pub const PSN_MASK: u32 = 0xffffff;

/// What a peer needs to reach a queue pair: the port's local identifier,
/// the queue pair's number, the first packet sequence number and the
/// port's global identifier.
#[derive(Debug, Clone, Copy, PartialEq, Eq)]
pub struct IbNodeInfo {
    pub lid: u16,
    pub qpn: u32,
    pub psn: u32,
    pub gid: [u8; 16],
}

/// Why a node's record could not be made.
#[derive(Debug, Clone, Copy, PartialEq, Eq)]
pub enum NodeInfoError {
    /// The port is not an Ethernet port and has no local identifier.
    NoLocalLid,
}

/// The first 32-bit word that `rand`'s standard generator gives after it
/// was seeded with `seed`.
pub uninterp spec fn std_rng_first_word(seed: u64) -> u32;

/// Seeds `rand::rngs::StdRng` with `SeedableRng::seed_from_u64` and draws
/// one `u32` with `Rng::gen`. The generator is a deterministic algorithm
/// without other input than its seed, so the word drawn is a function of
/// the seed; nothing else is claimed of it.
#[verifier::external_body]
fn first_random_word(seed: u64) -> (word: u32)
    ensures
        word == std_rng_first_word(seed),
{
    let mut r = StdRng::seed_from_u64(seed);
    r.gen::<u32>()
}

/// The wire image of a node's record: identifier, queue pair number and
/// sequence number little-endian, then the sixteen bytes of the global
/// identifier.
pub open spec fn spec_node_info_bytes(n: IbNodeInfo) -> Seq<u8> {
    spec_u16_to_le_bytes(n.lid) + spec_u32_to_le_bytes(n.qpn) + spec_u32_to_le_bytes(n.psn)
        + n.gid@
}

/// `n` is the record that the first 26 bytes of `b` encode.
pub open spec fn node_info_decodes_to(b: Seq<u8>, n: IbNodeInfo) -> bool {
    &&& n.lid == spec_u16_from_le_bytes(b.subrange(0, 2))
    &&& n.qpn == spec_u32_from_le_bytes(b.subrange(2, 6))
    &&& n.psn == spec_u32_from_le_bytes(b.subrange(6, 10))
    &&& n.gid@ == b.subrange(10, 26)
}

/// The seed of a process' packet sequence numbers: its identifier times
/// the seconds of the wall clock, modulo 2^64.
pub fn psn_seed(pid: u32, seconds: u64) -> (seed: u64)
    ensures
        seed == wrapping_mul(pid as u64, seconds),
{
    (pid as u64).wrapping_mul(seconds)
}

/// The packet sequence number that a random word gives: its low 24 bits.
pub fn psn_from_word(word: u32) -> (psn: u32)
    ensures
        psn == word & PSN_MASK,
        psn <= PSN_MASK,
{
    assert(word & 0xffffff <= 0xffffff) by (bit_vector);
    word & PSN_MASK
}

impl IbNodeInfo {
    /// The record of the local node. A port that is not an Ethernet port
    /// must have a local identifier other than zero. The sequence number
    /// is the low 24 bits of the first word of the standard generator
    /// seeded with `seed`.
    pub fn new(lid: u16, ethernet: bool, gid: [u8; 16], qpn: u32, seed: u64) -> (r: Result<
        IbNodeInfo,
        NodeInfoError,
    >)
        ensures
            (!ethernet && lid == 0) ==> r == Err::<IbNodeInfo, NodeInfoError>(
                NodeInfoError::NoLocalLid,
            ),
            (ethernet || lid != 0) ==> r == Ok::<IbNodeInfo, NodeInfoError>(
                IbNodeInfo { lid, qpn, psn: std_rng_first_word(seed) & PSN_MASK, gid },
            ),
    {
        if !ethernet && lid == 0 {
            return Err(NodeInfoError::NoLocalLid);
        }
        let psn = psn_from_word(first_random_word(seed));
        Ok(IbNodeInfo { lid, gid, qpn, psn })
    }

    /// The 26 bytes that carry this record.
    pub fn serialize(&self) -> (res: [u8; 26])
        ensures
            res@ == spec_node_info_bytes(*self),
    {
        let mut res: [u8; 26] = [0;26];
        let lid = u16_to_le_bytes(self.lid);
        copy_into(&mut res, 0, lid.as_slice());
        let qpn = u32_to_le_bytes(self.qpn);
        copy_into(&mut res, 2, qpn.as_slice());
        let psn = u32_to_le_bytes(self.psn);
        copy_into(&mut res, 6, psn.as_slice());
        copy_into(&mut res, 10, self.gid.as_slice());
        assert(res@ =~= spec_node_info_bytes(*self));
        res
    }

    /// The record that the first 26 bytes of `bytes` carry.
    pub fn deserialize(bytes: &[u8]) -> (n: IbNodeInfo)
        requires
            bytes@.len() >= NODE_INFO_LEN,
        ensures
            node_info_decodes_to(bytes@, n),
    {
        let lid = u16_from_le_bytes(vstd::slice::slice_subrange(bytes, 0, 2));
        let qpn = u32_from_le_bytes(vstd::slice::slice_subrange(bytes, 2, 6));
        let psn = u32_from_le_bytes(vstd::slice::slice_subrange(bytes, 6, 10));
        let gid: [u8; 16] = take_array(bytes, 10);
        IbNodeInfo { lid, qpn, psn, gid }
    }
}

/// Decoding the wire image of a node's record gives the record back.
pub proof fn lemma_node_info_round_trip(n: IbNodeInfo, m: IbNodeInfo)
    requires
        node_info_decodes_to(spec_node_info_bytes(n), m),
    ensures
        m.lid == n.lid,
        m.qpn == n.qpn,
        m.psn == n.psn,
        m.gid@ == n.gid@,
{
    lemma_u16_le_round_trip(n.lid);
    lemma_u32_le_round_trip(n.qpn);
    lemma_u32_le_round_trip(n.psn);
    let b = spec_node_info_bytes(n);
    assert(b.subrange(0, 2) =~= spec_u16_to_le_bytes(n.lid));
    assert(b.subrange(2, 6) =~= spec_u32_to_le_bytes(n.qpn));
    assert(b.subrange(6, 10) =~= spec_u32_to_le_bytes(n.psn));
    assert(b.subrange(10, 26) =~= n.gid@);
}

/// Whether two names are the same bytes.
fn same_name(a: &[u8], b: &[u8]) -> (same: bool)
    ensures
        same == (a@ == b@),
{
    if a.len() != b.len() {
        return false;
    }
    let mut i: usize = 0;
    while i < a.len()
        invariant
            i <= a@.len() == b@.len(),
            forall|k: int| 0 <= k < i ==> a@[k] == b@[k],
        decreases a@.len() - i,
    {
        if a[i] != b[i] {
            return false;
        }
        i += 1;
    }
    assert(a@ =~= b@);
    true
}

/// The place in the device list of the device called `name`: the last one
/// of that name, or none.
pub fn ib_device_find_by_name(names: &Vec<Vec<u8>>, name: &[u8]) -> (found: Option<usize>)
    ensures
        match found {
            Some(i) => i < names@.len() && names@[i as int]@ == name@ && forall|k: int|
                i < k < names@.len() ==> names@[k]@ != name@,
            None => forall|k: int| 0 <= k < names@.len() ==> names@[k]@ != name@,
        },
{
    let mut found: Option<usize> = None;
    let mut i: usize = 0;
    while i < names.len()
        invariant
            i <= names@.len(),
            match found {
                Some(j) => j < i && names@[j as int]@ == name@ && forall|k: int|
                    j < k < i ==> names@[k]@ != name@,
                None => forall|k: int| 0 <= k < i ==> names@[k]@ != name@,
            },
        decreases names@.len() - i,
    {
        if same_name(names[i].as_slice(), name) {
            found = Some(i);
        }
        i += 1;
    }
    found
}

/// Whether packets to the node need a global route: its global identifier
/// names an interface, that is, one of its last eight bytes is not zero.
pub fn needs_global_route(gid: &[u8; 16]) -> (needed: bool)
    ensures
        needed == exists|k: int| 8 <= k < 16 && gid@[k] != 0,
{
    let mut i: usize = 8;
    while i < 16
        invariant
            8 <= i <= 16,
            forall|k: int| 8 <= k < i ==> gid@[k] == 0,
        decreases 16 - i,
    {
        if gid[i] != 0 {
            return true;
        }
        i += 1;
    }
    false
}

} // verus!
