use vstd::prelude::*;

verus! {

/// The two bytes of `x`, least significant first.
pub open spec fn spec_u16_to_le_bytes(x: u16) -> Seq<u8> {
    seq![(x % 256) as u8, (x / 256) as u8]
}

/// The four bytes of `x`, least significant first.
pub open spec fn spec_u32_to_le_bytes(x: u32) -> Seq<u8> {
    seq![
        (x % 256) as u8,
        (x / 0x100 % 256) as u8,
        (x / 0x1_0000 % 256) as u8,
        (x / 0x100_0000) as u8,
    ]
}

/// The eight bytes of `x`, least significant first.
pub open spec fn spec_u64_to_le_bytes(x: u64) -> Seq<u8> {
    seq![
        (x % 256) as u8,
        (x / 0x100 % 256) as u8,
        (x / 0x1_0000 % 256) as u8,
        (x / 0x100_0000 % 256) as u8,
        (x / 0x1_0000_0000 % 256) as u8,
        (x / 0x100_0000_0000 % 256) as u8,
        (x / 0x1_0000_0000_0000 % 256) as u8,
        (x / 0x100_0000_0000_0000) as u8,
    ]
}

/// The value of two bytes read least significant first.
pub open spec fn spec_u16_from_le_bytes(b: Seq<u8>) -> u16 {
    (b[0] + b[1] * 0x100) as u16
}

/// The value of four bytes read least significant first.
pub open spec fn spec_u32_from_le_bytes(b: Seq<u8>) -> u32 {
    (b[0] + b[1] * 0x100 + b[2] * 0x1_0000 + b[3] * 0x100_0000) as u32
}

/// The value of eight bytes read least significant first.
pub open spec fn spec_u64_from_le_bytes(b: Seq<u8>) -> u64 {
    (b[0] + b[1] * 0x100 + b[2] * 0x1_0000 + b[3] * 0x100_0000 + b[4] * 0x1_0000_0000 + b[5]
        * 0x100_0000_0000 + b[6] * 0x1_0000_0000_0000 + b[7] * 0x100_0000_0000_0000) as u64
}

/// The two bytes of `x`, most significant first.
pub open spec fn spec_u16_to_be_bytes(x: u16) -> Seq<u8> {
    seq![(x / 256) as u8, (x % 256) as u8]
}

/// The value of two bytes read most significant first.
pub open spec fn spec_u16_from_be_bytes(b: Seq<u8>) -> u16 {
    (b[1] + b[0] * 0x100) as u16
}

/// Reading the bytes of a number gives the number back.
pub proof fn lemma_u16_le_round_trip(x: u16)
    ensures
        spec_u16_to_le_bytes(x).len() == 2,
        spec_u16_from_le_bytes(spec_u16_to_le_bytes(x)) == x,
{
}

/// Reading the bytes of a number gives the number back.
pub proof fn lemma_u32_le_round_trip(x: u32)
    ensures
        spec_u32_to_le_bytes(x).len() == 4,
        spec_u32_from_le_bytes(spec_u32_to_le_bytes(x)) == x,
{
}

/// Reading the bytes of a number gives the number back.
pub proof fn lemma_u64_le_round_trip(x: u64)
    ensures
        spec_u64_to_le_bytes(x).len() == 8,
        spec_u64_from_le_bytes(spec_u64_to_le_bytes(x)) == x,
{
    let x = x as int;
    let q1 = x / 0x100;
    let q2 = q1 / 0x100;
    let q3 = q2 / 0x100;
    let q4 = q3 / 0x100;
    let q5 = q4 / 0x100;
    let q6 = q5 / 0x100;
    let q7 = q6 / 0x100;
    assert(q2 == x / 0x1_0000);
    assert(q3 == x / 0x100_0000);
    assert(q4 == x / 0x1_0000_0000);
    assert(q5 == x / 0x100_0000_0000);
    assert(q6 == x / 0x1_0000_0000_0000);
    assert(q7 == x / 0x100_0000_0000_0000);
    assert(x == x % 256 + 0x100 * q1);
    assert(q1 == q1 % 256 + 0x100 * q2);
    assert(q2 == q2 % 256 + 0x100 * q3);
    assert(q3 == q3 % 256 + 0x100 * q4);
    assert(q4 == q4 % 256 + 0x100 * q5);
    assert(q5 == q5 % 256 + 0x100 * q6);
    assert(q6 == q6 % 256 + 0x100 * q7);
    assert(0 <= q7 < 256);
}

/// The two bytes of `x`, least significant first.
pub fn u16_to_le_bytes(x: u16) -> (b: [u8; 2])
    ensures
        b@ == spec_u16_to_le_bytes(x),
{
    let b: [u8; 2] = [(x % 256) as u8, (x / 256) as u8];
    assert(b@ =~= spec_u16_to_le_bytes(x));
    b
}

/// The four bytes of `x`, least significant first.
pub fn u32_to_le_bytes(x: u32) -> (b: [u8; 4])
    ensures
        b@ == spec_u32_to_le_bytes(x),
{
    let b: [u8; 4] = [
        (x % 256) as u8,
        (x / 0x100 % 256) as u8,
        (x / 0x1_0000 % 256) as u8,
        (x / 0x100_0000) as u8,
    ];
    assert(b@ =~= spec_u32_to_le_bytes(x));
    b
}

/// The eight bytes of `x`, least significant first.
pub fn u64_to_le_bytes(x: u64) -> (b: [u8; 8])
    ensures
        b@ == spec_u64_to_le_bytes(x),
{
    let b: [u8; 8] = [
        (x % 256) as u8,
        (x / 0x100 % 256) as u8,
        (x / 0x1_0000 % 256) as u8,
        (x / 0x100_0000 % 256) as u8,
        (x / 0x1_0000_0000 % 256) as u8,
        (x / 0x100_0000_0000 % 256) as u8,
        (x / 0x1_0000_0000_0000 % 256) as u8,
        (x / 0x100_0000_0000_0000) as u8,
    ];
    assert(b@ =~= spec_u64_to_le_bytes(x));
    b
}

/// Reads two bytes, least significant first.
pub fn u16_from_le_bytes(b: &[u8]) -> (v: u16)
    requires
        b@.len() == 2,
    ensures
        v == spec_u16_from_le_bytes(b@),
{
    b[0] as u16 + b[1] as u16 * 0x100
}

/// Reads four bytes, least significant first.
pub fn u32_from_le_bytes(b: &[u8]) -> (v: u32)
    requires
        b@.len() == 4,
    ensures
        v == spec_u32_from_le_bytes(b@),
{
    b[0] as u32 + b[1] as u32 * 0x100 + b[2] as u32 * 0x1_0000 + b[3] as u32 * 0x100_0000
}

/// Reads eight bytes, least significant first.
pub fn u64_from_le_bytes(b: &[u8]) -> (v: u64)
    requires
        b@.len() == 8,
    ensures
        v == spec_u64_from_le_bytes(b@),
{
    b[0] as u64 + b[1] as u64 * 0x100 + b[2] as u64 * 0x1_0000 + b[3] as u64 * 0x100_0000
        + b[4] as u64 * 0x1_0000_0000 + b[5] as u64 * 0x100_0000_0000 + b[6] as u64
        * 0x1_0000_0000_0000 + b[7] as u64 * 0x100_0000_0000_0000
}

/// The two bytes of `x`, most significant first.
pub fn u16_to_be_bytes(x: u16) -> (b: [u8; 2])
    ensures
        b@ == spec_u16_to_be_bytes(x),
{
    let b: [u8; 2] = [(x / 256) as u8, (x % 256) as u8];
    assert(b@ =~= spec_u16_to_be_bytes(x));
    b
}

/// Reads two bytes, most significant first.
pub fn u16_from_be_bytes(b: &[u8]) -> (v: u16)
    requires
        b@.len() == 2,
    ensures
        v == spec_u16_from_be_bytes(b@),
{
    b[1] as u16 + b[0] as u16 * 0x100
}

/// `dst` with the bytes from `at` on replaced by `src`.
pub open spec fn spec_overlay(dst: Seq<u8>, at: int, src: Seq<u8>) -> Seq<u8> {
    dst.subrange(0, at) + src + dst.subrange(at + src.len(), dst.len() as int)
}

/// Copies `src` into `dst`, starting at `at`.
pub fn copy_into<const N: usize>(dst: &mut [u8; N], at: usize, src: &[u8])
    requires
        at + src@.len() <= N,
    ensures
        final(dst)@ == spec_overlay(old(dst)@, at as int, src@),
{
    let mut i: usize = 0;
    while i < src.len()
        invariant
            i <= src@.len(),
            at + src@.len() <= N,
            forall|k: int| 0 <= k < at ==> dst@[k] == old(dst)@[k],
            forall|k: int| at <= k < at + i ==> dst@[k] == src@[k - at],
            forall|k: int| at + i <= k < N ==> dst@[k] == old(dst)@[k],
        decreases src@.len() - i,
    {
        dst[at + i] = src[i];
        i += 1;
    }
    assert(dst@ =~= spec_overlay(old(dst)@, at as int, src@));
}

/// The `N` bytes of `src` that start at `at`.
pub fn take_array<const N: usize>(src: &[u8], at: usize) -> (out: [u8; N])
    requires
        at + N <= src@.len(),
    ensures
        out@ == src@.subrange(at as int, at + N),
{
    let mut out: [u8; N] = [0;N];
    let len: usize = src.len();
    let mut i: usize = 0;
    while i < N
        invariant
            i <= N,
            at + N <= len,
            len == src@.len(),
            forall|k: int| 0 <= k < i ==> out@[k] == src@[at + k],
        decreases N - i,
    {
        out[i] = src[at + i];
        i += 1;
    }
    assert(out@ =~= src@.subrange(at as int, at + N));
    out
}

} // verus!
