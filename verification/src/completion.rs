use vstd::prelude::*;
use crate::bitset::{bitset_clear, bitset_set, bitset_test, spec_bit, BITSET_BITS};
use crate::consts::{PACKET_SIZE, QUEUE_SIZE, RECEIVE_DEPTH};
use crate::payload::{PingPongPayload, PINGPONG_MAGIC};

verus! {

/// Work request of a receive on a reliable-connected endpoint.
pub const PINGPONG_RECV_WRID: u64 = 1;

/// Work request of a send on a reliable-connected endpoint.
pub const PINGPONG_SEND_WRID: u64 = 2;

/// Status of a completion that succeeded.
pub const WC_SUCCESS: u32 = 0;

/// Phase of a payload that a client has sent.
pub const PHASE_REQUEST: u32 = 0;

/// Phase of a payload that a server has answered.
pub const PHASE_RESPONSE: u32 = 2;

/// Bytes of the routing header that precedes a received datagram.
pub const GRH_LEN: usize = 40;

/// Key of the datagram queue pairs.
pub const UD_QKEY: u32 = 0x11111111;

/// What a completion stands for.
#[derive(Debug, Clone, Copy, PartialEq, Eq)]
pub enum Completion {
    /// The send from the given slot has left.
    Sent(usize),
    /// A packet has arrived in the given slot.
    Received(usize),
}

/// Why an endpoint gives up on a completion.
#[derive(Debug, Clone, Copy, PartialEq, Eq)]
pub enum CompletionError {
    /// The work request failed with the given status.
    Failed { status: u32, wr_id: u64 },
    /// No work request has the given number.
    UnknownWrId(u64),
    /// Fewer receives are posted than the endpoint has to keep.
    NotEnoughReceives(u32),
}

/// What an endpoint does next.
#[derive(Debug, Clone, Copy, PartialEq, Eq)]
pub enum Action {
    /// Nothing.
    Idle,
    /// Post a receive for the given slot.
    PostRecv(usize),
    /// Hand the payload in the given slot to the reducer, then post a
    /// receive for the slot.
    Deliver(usize),
    /// Send the payload in the given slot back.
    Echo(usize),
    /// Poll again: the last echo from the given slot has not left yet.
    AwaitSend(usize),
}

/// What a completion of a reliable-connected endpoint stands for.
pub open spec fn spec_rc_completion(status: u32, wr_id: u64) -> Result<Completion, CompletionError> {
    if status != WC_SUCCESS {
        Err(CompletionError::Failed { status, wr_id })
    } else if wr_id == PINGPONG_SEND_WRID {
        Ok(Completion::Sent(0))
    } else if wr_id == PINGPONG_RECV_WRID {
        Ok(Completion::Received(0))
    } else {
        Err(CompletionError::UnknownWrId(wr_id))
    }
}

/// What a completion of a datagram endpoint stands for: work requests
/// below `QUEUE_SIZE` are sends, the next `QUEUE_SIZE` are receives, each
/// numbered by its slot.
pub open spec fn spec_ud_completion(status: u32, wr_id: u64) -> Result<Completion, CompletionError> {
    if status != WC_SUCCESS {
        Err(CompletionError::Failed { status, wr_id })
    } else if wr_id >= 2 * QUEUE_SIZE {
        Err(CompletionError::UnknownWrId(wr_id))
    } else if wr_id < QUEUE_SIZE {
        Ok(Completion::Sent(wr_id as usize))
    } else {
        Ok(Completion::Received((wr_id - QUEUE_SIZE) as usize))
    }
}

/// What a completion of a reliable-connected endpoint stands for.
pub fn rc_completion(status: u32, wr_id: u64) -> (r: Result<Completion, CompletionError>)
    ensures
        r == spec_rc_completion(status, wr_id),
{
    if status != WC_SUCCESS {
        Err(CompletionError::Failed { status, wr_id })
    } else if wr_id == PINGPONG_SEND_WRID {
        Ok(Completion::Sent(0))
    } else if wr_id == PINGPONG_RECV_WRID {
        Ok(Completion::Received(0))
    } else {
        Err(CompletionError::UnknownWrId(wr_id))
    }
}

/// What a completion of a datagram endpoint stands for.
pub fn check_wc(status: u32, wr_id: u64) -> (r: Result<Completion, CompletionError>)
    ensures
        r == spec_ud_completion(status, wr_id),
{
    if status != WC_SUCCESS {
        return Err(CompletionError::Failed { status, wr_id });
    }
    if wr_id >= QUEUE_SIZE as u64 + QUEUE_SIZE as u64 {
        return Err(CompletionError::UnknownWrId(wr_id));
    }
    if wr_id < QUEUE_SIZE as u64 {
        Ok(Completion::Sent(wr_id as usize))
    } else {
        Ok(Completion::Received((wr_id - QUEUE_SIZE as u64) as usize))
    }
}

/// Work request of the send from `slot` of a datagram endpoint.
pub fn send_wr_id(slot: usize) -> (wr_id: u64)
    requires
        slot < QUEUE_SIZE,
    ensures
        wr_id == slot,
        spec_ud_completion(WC_SUCCESS, wr_id) == Ok::<Completion, CompletionError>(
            Completion::Sent(slot),
        ),
{
    slot as u64
}

/// Work request of the receive into `slot` of a datagram endpoint.
pub fn recv_wr_id(slot: usize) -> (wr_id: u64)
    requires
        slot < QUEUE_SIZE,
    ensures
        wr_id == QUEUE_SIZE + slot,
        spec_ud_completion(WC_SUCCESS, wr_id) == Ok::<Completion, CompletionError>(
            Completion::Received(slot),
        ),
{
    (QUEUE_SIZE + slot) as u64
}

/// Offset of the receive buffer of `slot` in the arena of a datagram endpoint.
pub fn recv_slot_offset(slot: usize) -> (offset: usize)
    requires
        slot < QUEUE_SIZE,
    ensures
        offset == slot * PACKET_SIZE,
        offset + PACKET_SIZE <= QUEUE_SIZE * PACKET_SIZE,
{
    slot * PACKET_SIZE
}

/// Receives that a reliable-connected endpoint posts after it has
/// consumed one of `available`: none while more than one is left, else as
/// many as bring it back to `RECEIVE_DEPTH`.
pub fn receives_to_post(available: u32) -> (r: (u32, u32))
    requires
        1 <= available <= RECEIVE_DEPTH,
    ensures
        r.0 == available - 1,
        r.1 == if available - 1 <= 1 {
            RECEIVE_DEPTH - (available - 1)
        } else {
            0
        },
{
    let left: u32 = available - 1;
    if left <= 1 {
        (left, RECEIVE_DEPTH - left)
    } else {
        (left, 0)
    }
}

/// The receives that are posted after `posted` more were accepted: an
/// error where they do not reach `RECEIVE_DEPTH`.
pub fn after_repost(available: u32, posted: u32) -> (r: Result<u32, CompletionError>)
    requires
        available + posted <= u32::MAX,
    ensures
        r == if available + posted < RECEIVE_DEPTH {
            Err::<u32, CompletionError>(
                CompletionError::NotEnoughReceives((available + posted) as u32),
            )
        } else {
            Ok::<u32, CompletionError>((available + posted) as u32)
        },
{
    let now: u32 = available + posted;
    if now < RECEIVE_DEPTH {
        Err(CompletionError::NotEnoughReceives(now))
    } else {
        Ok(now)
    }
}

/// The highest packet index seen, after a payload with index `id`.
pub fn advance_recv_count(recv_count: u64, id: u64) -> (r: u64)
    ensures
        r == if id > recv_count {
            id
        } else {
            recv_count
        },
        r >= recv_count,
        r >= id,
{
    if id > recv_count {
        id
    } else {
        recv_count
    }
}

/// Whether a run of `iters` packets is over.
pub fn run_complete(recv_count: u64, iters: u64) -> (done: bool)
    ensures
        done == (recv_count >= iters),
{
    recv_count >= iters
}

/// What a client makes of a payload that arrived at `now`: it drops an
/// invalid one and stamps any other as received.
pub fn client_receive(p: PingPongPayload, now: u64) -> (r: Option<PingPongPayload>)
    ensures
        p.magic != PINGPONG_MAGIC ==> r.is_none(),
        p.magic == PINGPONG_MAGIC ==> (r matches Some(q) && q.id == p.id && q.phase == p.phase
            && q.magic == p.magic && q.ts@ == p.ts@.update(3, now)),
{
    if !p.is_valid() {
        return None;
    }
    let mut q = p;
    q.set_ts_value(3, now);
    Some(q)
}

/// Whether a payload is in the given phase of the exchange.
pub fn has_phase(p: &PingPongPayload, phase: u32) -> (yes: bool)
    ensures
        yes == (p.phase == phase),
{
    p.phase == phase
}

/// The answer of a server to a payload that arrived at `received` and
/// leaves at `sent`: none to a payload that is invalid or not a client's
/// request, else the payload with both times and the phase of an answer.
pub fn server_echo(p: PingPongPayload, received: u64, sent: u64) -> (r: Option<PingPongPayload>)
    ensures
        (p.magic != PINGPONG_MAGIC || p.phase != PHASE_REQUEST) ==> r.is_none(),
        (p.magic == PINGPONG_MAGIC && p.phase == PHASE_REQUEST) ==> (r matches Some(q) && q.id
            == p.id && q.phase == PHASE_RESPONSE && q.magic == p.magic && q.ts@ == p.ts@.update(
            1,
            received,
        ).update(2, sent)),
{
    if !p.is_valid() || p.phase != PHASE_REQUEST {
        return None;
    }
    let mut q = p;
    q.set_ts_value(1, received);
    q.phase = PHASE_RESPONSE;
    q.set_ts_value(2, sent);
    Some(q)
}

/// Records that a send from a slot of a datagram endpoint is posted and
/// returns the slot: the one given, or slot 0.
pub fn mark_send_posted(pending_send: &mut [u8; 16], queue_idx: Option<usize>) -> (slot: usize)
    requires
        queue_idx matches Some(q) ==> q < QUEUE_SIZE,
    ensures
        slot == match queue_idx {
            Some(q) => q,
            None => 0,
        },
        forall|b: int|
            0 <= b < BITSET_BITS ==> spec_bit(*final(pending_send), b) == (b == slot || spec_bit(
                *old(pending_send),
                b,
            )),
{
    let slot: usize = match queue_idx {
        Some(q) => q,
        None => 0,
    };
    bitset_set(pending_send, slot);
    slot
}

/// What a datagram client does on a completion: a send that has left
/// frees its slot, a packet that has arrived is delivered.
pub fn parse_single_wc_client(pending_send: &mut [u8; 16], status: u32, wr_id: u64) -> (r: Result<
    Action,
    CompletionError,
>)
    ensures
        match spec_ud_completion(status, wr_id) {
            Err(e) => r == Err::<Action, CompletionError>(e) && *final(pending_send) == *old(pending_send),
            Ok(Completion::Sent(i)) => r == Ok::<Action, CompletionError>(Action::Idle)
                && forall|b: int|
                0 <= b < BITSET_BITS ==> spec_bit(*final(pending_send), b) == (b != i && spec_bit(
                    *old(pending_send),
                    b,
                )),
            Ok(Completion::Received(q)) => r == Ok::<Action, CompletionError>(Action::Deliver(q))
                && *final(pending_send) == *old(pending_send),
        },
{
    match check_wc(status, wr_id) {
        Err(e) => Err(e),
        Ok(Completion::Sent(i)) => {
            bitset_clear(pending_send, i);
            Ok(Action::Idle)
        },
        Ok(Completion::Received(q)) => Ok(Action::Deliver(q)),
    }
}

/// What a datagram server does on a completion at `now`. A packet that
/// has arrived in a slot is echoed from that slot, stamped with `now`,
/// unless the last echo from the slot has not left yet: then it waits, and
/// its arrival is kept. A send that has left frees its slot: a packet that
/// waits there is echoed with its arrival, else the slot gets a new
/// receive. The second part of the result is the arrival to stamp on an
/// echo, and 0 where nothing is echoed.
pub fn parse_single_wc_server(
    pending_send: &mut [u8; 16],
    waiting: &mut Vec<Option<u64>>,
    status: u32,
    wr_id: u64,
    now: u64,
) -> (r: Result<(Action, u64), CompletionError>)
    requires
        old(waiting)@.len() == QUEUE_SIZE,
    ensures
        final(waiting)@.len() == QUEUE_SIZE,
        match spec_ud_completion(status, wr_id) {
            Err(e) => r == Err::<(Action, u64), CompletionError>(e) && *final(pending_send)
                == *old(pending_send) && final(waiting)@ == old(waiting)@,
            Ok(Completion::Sent(i)) => (forall|b: int|
                0 <= b < BITSET_BITS ==> spec_bit(*final(pending_send), b) == (b != i && spec_bit(
                    *old(pending_send),
                    b,
                ))) && final(waiting)@ == old(waiting)@.update(i as int, None) && r == Ok::<
                (Action, u64),
                CompletionError,
            >(
                match old(waiting)@[i as int] {
                    Some(arrived) => (Action::Echo(i), arrived),
                    None => (Action::PostRecv(i), 0u64),
                },
            ),
            Ok(Completion::Received(q)) => *final(pending_send) == *old(pending_send) && if spec_bit(
                *old(pending_send),
                q as int,
            ) {
                final(waiting)@ == old(waiting)@.update(q as int, Some(now)) && r == Ok::<
                    (Action, u64),
                    CompletionError,
                >((Action::AwaitSend(q), 0u64))
            } else {
                final(waiting)@ == old(waiting)@ && r == Ok::<(Action, u64), CompletionError>(
                    (Action::Echo(q), now),
                )
            },
        },
{
    match check_wc(status, wr_id) {
        Err(e) => Err(e),
        Ok(Completion::Sent(i)) => {
            bitset_clear(pending_send, i);
            let held = waiting[i];
            waiting.set(i, None);
            match held {
                Some(arrived) => Ok((Action::Echo(i), arrived)),
                None => Ok((Action::PostRecv(i), 0)),
            }
        },
        Ok(Completion::Received(q)) => {
            if bitset_test(pending_send, q) {
                waiting.set(q, Some(now));
                Ok((Action::AwaitSend(q), 0))
            } else {
                Ok((Action::Echo(q), now))
            }
        },
    }
}

/// The list of waiting packets of a datagram server that has received nothing.
pub fn no_waiting() -> (waiting: Vec<Option<u64>>)
    ensures
        waiting@.len() == QUEUE_SIZE,
        forall|k: int| 0 <= k < QUEUE_SIZE ==> waiting@[k].is_none(),
{
    let mut waiting: Vec<Option<u64>> = Vec::new();
    let mut i: usize = 0;
    while i < QUEUE_SIZE
        invariant
            i <= QUEUE_SIZE,
            waiting@.len() == i,
            forall|k: int| 0 <= k < i ==> waiting@[k].is_none(),
        decreases QUEUE_SIZE - i,
    {
        waiting.push(None);
        i += 1;
    }
    waiting
}

/// What a reliable-connected endpoint does on a completion while
/// `available_recv` receives are posted: the action, the receives that
/// are left, and the receives to post. A send that has left changes
/// nothing. A packet that has arrived is delivered by a client and echoed
/// by a server; it has used one receive, and where no more than one is
/// left, as many are to be posted as bring the endpoint back to
/// `RECEIVE_DEPTH`.
pub fn parse_single_wc(status: u32, wr_id: u64, client: bool, available_recv: u32) -> (r: Result<
    (Action, u32, u32),
    CompletionError,
>)
    requires
        1 <= available_recv <= RECEIVE_DEPTH,
    ensures
        match spec_rc_completion(status, wr_id) {
            Err(e) => r == Err::<(Action, u32, u32), CompletionError>(e),
            Ok(Completion::Sent(_)) => r == Ok::<(Action, u32, u32), CompletionError>(
                (Action::Idle, available_recv, 0u32),
            ),
            Ok(Completion::Received(q)) => r == Ok::<(Action, u32, u32), CompletionError>(
                (
                    if client {
                        Action::Deliver(q)
                    } else {
                        Action::Echo(q)
                    },
                    (available_recv - 1) as u32,
                    if available_recv - 1 <= 1 {
                        (RECEIVE_DEPTH - (available_recv - 1)) as u32
                    } else {
                        0u32
                    },
                ),
            ),
        },
{
    match rc_completion(status, wr_id) {
        Err(e) => Err(e),
        Ok(Completion::Sent(_)) => Ok((Action::Idle, available_recv, 0)),
        Ok(Completion::Received(q)) => {
            let (left, wanted) = receives_to_post(available_recv);
            let action = if client {
                Action::Deliver(q)
            } else {
                Action::Echo(q)
            };
            Ok((action, left, wanted))
        },
    }
}

/// Whether a datagram endpoint sends inline: where the queue pair takes a
/// whole packet as inline data.
pub fn sends_inline(max_inline_data: u32) -> (inline: bool)
    ensures
        inline == (max_inline_data >= PACKET_SIZE),
{
    max_inline_data >= PACKET_SIZE as u32
}

} // verus!
