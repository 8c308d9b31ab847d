use vstd::prelude::*;
use crate::completion::client_receive;
use crate::payload::{decodes_to, PingPongPayload};
use crate::xdp::{frame_payload, is_pingpong_frame, spec_is_pingpong_frame};

verus! {

/// Frames of the UMEM.
pub const NUM_FRAMES: usize = 4096;

/// Bytes of one frame of the UMEM.
pub const FRAME_SIZE: u64 = 4096;

/// Descriptors of the fill ring, which is filled when the socket is set up.
pub const XSK_RING_PROD_DEFAULT_NUM_DESCS: usize = 2048;

/// Address that marks a slot of the free list as empty.
pub const INVALID_UMEM_FRAME: u64 = u64::MAX;

/// Why the AF_XDP endpoint could not go on.
#[derive(Debug, Clone, Copy, PartialEq, Eq)]
pub enum XskError {
    /// Every frame of the UMEM is in use.
    NoFreeFrames,
    /// The transmit ring took no descriptor.
    NoTransmitSlots,
}

/// The free list of the UMEM's frames: a stack of frame addresses.
#[derive(Debug, Clone)]
pub struct XskSocketInfo {
    pub umem_frame_addr: Vec<u64>,
    pub umem_frame_free: usize,
    pub outstanding_tx: u32,
}

impl View for XskSocketInfo {
    type V = Seq<u64>;

    /// The addresses of the free frames, the next to hand out last.
    open spec fn view(&self) -> Seq<u64> {
        self.umem_frame_addr@.subrange(0, self.umem_frame_free as int)
    }
}

impl XskSocketInfo {
    /// The list has room for every frame and holds no more than that.
    pub open spec fn wf(&self) -> bool {
        &&& self.umem_frame_addr@.len() == NUM_FRAMES
        &&& self.umem_frame_free <= NUM_FRAMES
    }

    /// An endpoint with every frame free and nothing in flight: frame `i`
    /// starts at `i * FRAME_SIZE`.
    pub fn new() -> (info: XskSocketInfo)
        ensures
            info.wf(),
            info.outstanding_tx == 0,
            info@.len() == NUM_FRAMES,
            forall|i: int| 0 <= i < NUM_FRAMES ==> info@[i] == i * FRAME_SIZE,
    {
        let mut addr: Vec<u64> = Vec::new();
        let mut i: usize = 0;
        while i < NUM_FRAMES
            invariant
                i <= NUM_FRAMES,
                addr@.len() == i,
                forall|k: int| 0 <= k < i ==> addr@[k] == k * FRAME_SIZE,
            decreases NUM_FRAMES - i,
        {
            addr.push(i as u64 * FRAME_SIZE);
            i += 1;
        }
        XskSocketInfo { umem_frame_addr: addr, umem_frame_free: NUM_FRAMES, outstanding_tx: 0 }
    }

    /// Takes `n` frames off the free list for the fill ring, the frame
    /// that was freed last first, or takes none where fewer are free.
    pub fn take_frames(&mut self, n: usize) -> (r: Result<Vec<u64>, XskError>)
        requires
            old(self).wf(),
        ensures
            final(self).wf(),
            final(self).outstanding_tx == old(self).outstanding_tx,
            n > old(self)@.len() ==> r == Err::<Vec<u64>, XskError>(XskError::NoFreeFrames)
                && final(self)@ == old(self)@,
            n <= old(self)@.len() ==> (r matches Ok(frames) && frames@.len() == n && final(self)@
                == old(self)@.subrange(0, old(self)@.len() - n) && forall|i: int|
                0 <= i < n ==> frames@[i] == old(self)@[old(self)@.len() - 1 - i]),
    {
        if n > self.umem_frame_free {
            return Err(XskError::NoFreeFrames);
        }
        let mut frames: Vec<u64> = Vec::new();
        let mut i: usize = 0;
        while i < n
            invariant
                i <= n <= old(self)@.len(),
                self.wf(),
                self.outstanding_tx == old(self).outstanding_tx,
                frames@.len() == i,
                self@ == old(self)@.subrange(0, old(self)@.len() - i),
                forall|k: int| 0 <= k < i ==> frames@[k] == old(self)@[old(self)@.len() - 1 - k],
            decreases n - i,
        {
            let ghost before = self@;
            match xsk_alloc_umem_frame(self) {
                Ok(frame) => {
                    frames.push(frame);
                },
                Err(_) => {},
            }
            assert(before.drop_last() =~= old(self)@.subrange(0, old(self)@.len() - (i + 1)));
            i += 1;
        }
        Ok(frames)
    }
}

/// Takes the frame that was freed last off the free list.
pub fn xsk_alloc_umem_frame(xsk: &mut XskSocketInfo) -> (r: Result<u64, XskError>)
    requires
        old(xsk).wf(),
    ensures
        final(xsk).wf(),
        final(xsk).outstanding_tx == old(xsk).outstanding_tx,
        old(xsk)@.len() == 0 ==> r == Err::<u64, XskError>(XskError::NoFreeFrames) && final(xsk)@
            == old(xsk)@,
        old(xsk)@.len() > 0 ==> r == Ok::<u64, XskError>(old(xsk)@.last()) && final(xsk)@
            == old(xsk)@.drop_last(),
{
    if xsk.umem_frame_free == 0 {
        return Err(XskError::NoFreeFrames);
    }
    xsk.umem_frame_free -= 1;
    let frame: u64 = xsk.umem_frame_addr[xsk.umem_frame_free];
    xsk.umem_frame_addr.set(xsk.umem_frame_free, INVALID_UMEM_FRAME);
    assert(xsk@ =~= old(xsk)@.drop_last());
    Ok(frame)
}

/// Puts a frame back on the free list.
pub fn xsk_free_umem_frame(xsk: &mut XskSocketInfo, frame: u64)
    requires
        old(xsk).wf(),
        old(xsk)@.len() < NUM_FRAMES,
    ensures
        final(xsk).wf(),
        final(xsk).outstanding_tx == old(xsk).outstanding_tx,
        final(xsk)@ == old(xsk)@.push(frame),
{
    xsk.umem_frame_addr.set(xsk.umem_frame_free, frame);
    xsk.umem_frame_free += 1;
    assert(xsk@ =~= old(xsk)@.push(frame));
}

/// Accounts for a frame handed to the transmit ring, which took
/// `count` descriptors: one more send is in flight where it took the one.
pub fn xsk_send_packet(socket: &mut XskSocketInfo, count: usize) -> (r: Result<(), XskError>)
    requires
        old(socket).outstanding_tx < u32::MAX,
    ensures
        final(socket).umem_frame_addr == old(socket).umem_frame_addr,
        final(socket).umem_frame_free == old(socket).umem_frame_free,
        count != 1 ==> r == Err::<(), XskError>(XskError::NoTransmitSlots)
            && final(socket).outstanding_tx == old(socket).outstanding_tx,
        count == 1 ==> r == Ok::<(), XskError>(())
            && final(socket).outstanding_tx == old(socket).outstanding_tx + 1,
{
    if count != 1 {
        return Err(XskError::NoTransmitSlots);
    }
    socket.outstanding_tx += 1;
    Ok(())
}

/// Accounts for `completed` sends that the completion ring reported:
/// as many fewer are in flight, and none where more were reported.
pub fn complete_tx(xsk: &mut XskSocketInfo, completed: usize)
    ensures
        final(xsk).umem_frame_addr == old(xsk).umem_frame_addr,
        final(xsk).umem_frame_free == old(xsk).umem_frame_free,
        final(xsk).outstanding_tx == if completed < old(xsk).outstanding_tx {
            old(xsk).outstanding_tx - completed
        } else {
            0
        },
{
    if completed < xsk.outstanding_tx as usize {
        xsk.outstanding_tx -= completed as u32;
    } else {
        xsk.outstanding_tx = 0;
    }
}

/// What the receiver makes of a frame that arrived at `receive_timestamp`:
/// the payload of a ping-pong frame, stamped as received, and whether it
/// is the last of a run of `iters`; nothing of any other frame.
pub fn process_packet(pkt: &[u8], iters: u64, receive_timestamp: u64) -> (r: (
    Option<PingPongPayload>,
    bool,
))
    ensures
        !spec_is_pingpong_frame(pkt@) ==> r.0.is_none() && !r.1,
        spec_is_pingpong_frame(pkt@) ==> (r.0 matches Some(q) && (exists|p: PingPongPayload|
            #![auto]
            decodes_to(pkt@.subrange(34, 82), p) && q.id == p.id && q.phase == p.phase && q.magic
                == p.magic && q.ts@ == p.ts@.update(3, receive_timestamp)) && r.1 == (q.id
            >= iters)),
{
    if !is_pingpong_frame(pkt) {
        return (None, false);
    }
    let p = frame_payload(pkt);
    assert(pkt@.subrange(34, 82).subrange(44, 48) =~= pkt@.subrange(78, 82));
    match client_receive(p, receive_timestamp) {
        Some(q) => (Some(q), q.id >= iters),
        None => (None, false),
    }
}

} // verus!
