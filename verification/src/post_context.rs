use vstd::prelude::*;
use crate::bitset::{bitset_set, bitset_test, spec_bit, BITSET_BITS};
use crate::consts::QUEUE_SIZE;
use crate::payload::{PingPongPayload, PINGPONG_MAGIC};
use crate::utils::get_time_ns;

verus! {

/// How to post a send: the slot of the ring, none for slot 0; the key of
/// the registered region; the address of the buffer, 0 for the endpoint's own.
#[derive(Debug, Clone, Copy, PartialEq, Eq)]
pub struct PostOptions {
    pub queue_idx: Option<usize>,
    pub lkey: u32,
    pub buf: u64,
}

/// Why a send was not posted.
#[derive(Debug, Clone, Copy, PartialEq, Eq)]
pub enum PostError {
    /// The ring has no slot with the given number.
    NoSuchSlot(usize),
    /// The last send from the given slot has not left yet.
    RingFull(usize),
    /// The transport refused the send.
    Refused,
}

/// A send that an endpoint has accepted and that is to go out.
#[derive(Debug, Clone, Copy, PartialEq, Eq)]
pub struct PostedSend {
    pub slot: usize,
    pub lkey: u32,
    pub buf: u64,
    pub payload: PingPongPayload,
}

/// The slot that the options name.
pub open spec fn spec_slot(options: PostOptions) -> usize {
    match options.queue_idx {
        Some(q) => q,
        None => 0,
    }
}

/// The sending side of an endpoint.
pub trait PostContext {
    /// The payload that the next send carries.
    spec fn send_payload(&self) -> PingPongPayload;

    /// Whether a send from slot `bit` is under way.
    spec fn pending(&self, bit: int) -> bool;

    /// Makes `payload` the payload of the next send.
    fn set_send_payload(&mut self, payload: PingPongPayload)
        ensures
            final(self).send_payload() == payload,
            forall|b: int| final(self).pending(b) == old(self).pending(b),
    ;

    /// Posts the send of the current payload from the slot that
    /// `options` name. A send is accepted only where the slot exists and
    /// no send from it is under way; the transport may still refuse it. An
    /// accepted send is under way from then on.
    fn post_send(&mut self, options: PostOptions) -> (r: Result<(), PostError>)
        ensures
            final(self).send_payload() == old(self).send_payload(),
            r.is_ok() ==> (spec_slot(options) < QUEUE_SIZE && !old(self).pending(
                spec_slot(options) as int,
            )),
            spec_slot(options) >= QUEUE_SIZE ==> r == Err::<(), PostError>(
                PostError::NoSuchSlot(spec_slot(options)),
            ),
            (spec_slot(options) < QUEUE_SIZE && old(self).pending(spec_slot(options) as int))
                ==> r == Err::<(), PostError>(PostError::RingFull(spec_slot(options))),
            r.is_err() ==> forall|b: int| final(self).pending(b) == old(self).pending(b),
            r.is_ok() ==> forall|b: int|
                0 <= b < BITSET_BITS ==> final(self).pending(b) == (b == spec_slot(options)
                    || old(self).pending(b)),
    ;

    /// The address of the endpoint's own send buffer.
    fn get_send_buf(&mut self) -> (buf: u64)
        ensures
            final(self).send_payload() == old(self).send_payload(),
            forall|b: int| final(self).pending(b) == old(self).pending(b),
    ;
}

/// An endpoint's sending side in memory: the payload to send, the bits of
/// the slots whose sends are under way, and the sends that were accepted,
/// oldest first, for the transport to carry out.
#[derive(Debug, Clone)]
pub struct SendRing {
    pub payload: PingPongPayload,
    pub pending_send: [u8; 16],
    pub send_buf: u64,
    pub posted: Vec<PostedSend>,
}

impl SendRing {
    /// A sending side with an empty payload and no send under way.
    pub fn new(send_buf: u64) -> (ring: SendRing)
        ensures
            ring.send_buf == send_buf,
            ring.posted@.len() == 0,
            ring.payload.id == 0,
            ring.payload.magic == PINGPONG_MAGIC,
            forall|b: int| 0 <= b < BITSET_BITS ==> !spec_bit(ring.pending_send, b),
    {
        let pending_send: [u8; 16] = [0;16];
        assert forall|b: int| 0 <= b < BITSET_BITS implies !spec_bit(pending_send, b) by {
            let sh = (b % 8) as u8;
            assert((0u8 >> sh) & 1u8 == 0u8) by (bit_vector);
        }
        SendRing {
            payload: PingPongPayload::new_empty(),
            pending_send,
            send_buf,
            posted: Vec::new(),
        }
    }
}

impl PostContext for SendRing {
    open spec fn send_payload(&self) -> PingPongPayload {
        self.payload
    }

    open spec fn pending(&self, bit: int) -> bool {
        0 <= bit < BITSET_BITS && spec_bit(self.pending_send, bit)
    }

    fn set_send_payload(&mut self, payload: PingPongPayload) {
        self.payload = payload;
    }

    fn post_send(&mut self, options: PostOptions) -> (r: Result<(), PostError>)
        ensures
            r.is_ok() ==> final(self).posted@ == old(self).posted@.push(
                PostedSend {
                    slot: spec_slot(options),
                    lkey: options.lkey,
                    buf: if options.buf == 0 {
                        old(self).send_buf
                    } else {
                        options.buf
                    },
                    payload: old(self).payload,
                },
            ),
            r.is_err() ==> final(self).posted@ == old(self).posted@,
            r == Err::<(), PostError>(PostError::NoSuchSlot(spec_slot(options))) <==> spec_slot(
                options,
            ) >= QUEUE_SIZE,
            r == Err::<(), PostError>(PostError::RingFull(spec_slot(options))) <==> (spec_slot(
                options,
            ) < QUEUE_SIZE && old(self).pending(spec_slot(options) as int)),
            r.is_ok() <==> (spec_slot(options) < QUEUE_SIZE && !old(self).pending(
                spec_slot(options) as int,
            )),
    {
        let slot: usize = match options.queue_idx {
            Some(q) => q,
            None => 0,
        };
        if slot >= QUEUE_SIZE {
            return Err(PostError::NoSuchSlot(slot));
        }
        if bitset_test(&self.pending_send, slot) {
            return Err(PostError::RingFull(slot));
        }
        let buf: u64 = if options.buf == 0 {
            self.send_buf
        } else {
            options.buf
        };
        bitset_set(&mut self.pending_send, slot);
        self.posted.push(PostedSend { slot, lkey: options.lkey, buf, payload: self.payload });
        Ok(())
    }

    fn get_send_buf(&mut self) -> (buf: u64)
        ensures
            buf == old(self).send_buf,
    {
        self.send_buf
    }
}

/// Sends packet `packet_id` at time `now`: a fresh payload with `now` as
/// its first timestamp becomes the endpoint's payload and is posted from
/// slot 0. The send fails where the last send from slot 0 has not left
/// yet, and where the transport refuses it.
pub fn send_packet_at<T: PostContext>(packet_id: u64, now: u64, lkey: u32, context: &mut T) -> (r:
    Result<(), PostError>)
    ensures
        r.is_ok() ==> !old(context).pending(0),
        old(context).pending(0) ==> r == Err::<(), PostError>(PostError::RingFull(0)),
        final(context).send_payload().id == packet_id,
        final(context).send_payload().ts@ == seq![now, 0u64, 0u64, 0u64],
        final(context).send_payload().phase == 0,
        final(context).send_payload().magic == PINGPONG_MAGIC,
        r.is_ok() ==> final(context).pending(0),
{
    let mut payload = PingPongPayload::new(packet_id);
    payload.set_ts_value(0, now);
    assert(payload.ts@ =~= seq![now, 0u64, 0u64, 0u64]);
    context.set_send_payload(payload);
    let buf = context.get_send_buf();
    context.post_send(PostOptions { queue_idx: None, lkey, buf })
}

/// Sends packet `packet_id` from a datagram endpoint, stamped with the
/// time of the call.
pub fn send_single_packet<T: PostContext>(packet_id: u64, lkey: u32, context: &mut T) -> (r: Result<
    (),
    PostError,
>)
    ensures
        r.is_ok() ==> !old(context).pending(0),
        old(context).pending(0) ==> r == Err::<(), PostError>(PostError::RingFull(0)),
        final(context).send_payload().id == packet_id,
        final(context).send_payload().ts@[1] == 0,
        final(context).send_payload().ts@[2] == 0,
        final(context).send_payload().ts@[3] == 0,
        final(context).send_payload().phase == 0,
        final(context).send_payload().magic == PINGPONG_MAGIC,
        r.is_ok() ==> final(context).pending(0),
{
    let now = get_time_ns();
    send_packet_at(packet_id, now, lkey, context)
}

/// Sends packet `packet_id` from a reliable-connected endpoint, stamped
/// with the time of the call.
pub fn pp_send_single_packet<T: PostContext>(packet_id: u64, context: &mut T) -> (r: Result<
    (),
    PostError,
>)
    ensures
        r.is_ok() ==> !old(context).pending(0),
        old(context).pending(0) ==> r == Err::<(), PostError>(PostError::RingFull(0)),
        final(context).send_payload().id == packet_id,
        final(context).send_payload().ts@[1] == 0,
        final(context).send_payload().ts@[2] == 0,
        final(context).send_payload().ts@[3] == 0,
        final(context).send_payload().phase == 0,
        final(context).send_payload().magic == PINGPONG_MAGIC,
        r.is_ok() ==> final(context).pending(0),
{
    let now = get_time_ns();
    send_packet_at(packet_id, now, 0, context)
}

} // verus!
