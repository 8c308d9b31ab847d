use vstd::prelude::*;
use crate::completion::{UD_QKEY, GRH_LEN, PINGPONG_RECV_WRID};
use crate::consts::{IB_PORT, PACKET_SIZE, PRIORITY, QUEUE_SIZE, RECEIVE_DEPTH};
use crate::ib_net::{needs_global_route, IbNodeInfo};
use crate::pingpong_context::Mtu;

verus! {

/// Kind of a queue pair.
#[derive(Debug, Clone, Copy, PartialEq, Eq)]
pub enum QueuePairType {
    /// Reliable connected.
    RC,
    /// Unreliable datagram.
    UD,
}

/// What a queue pair is created with.
#[derive(Debug, Clone, Copy, PartialEq, Eq)]
pub struct QueuePairCapacity {
    pub max_send_wr: u32,
    pub max_recv_wr: u32,
    pub max_send_sge: u32,
    pub max_recv_sge: u32,
    pub max_inline_data: u32,
}

/// What an endpoint creates its queues with: the entries of the
/// completion queue, whether completions carry the device's timestamp,
/// and the kind and capacity of the queue pair.
#[derive(Debug, Clone, Copy, PartialEq, Eq)]
pub struct QueueOptions {
    pub cqe: u32,
    pub completion_timestamps: bool,
    pub qp_type: QueuePairType,
    pub cap: QueuePairCapacity,
}

/// How packets to a peer are routed beyond its subnet.
#[derive(Debug, Clone, Copy, PartialEq, Eq)]
pub struct GlobalRoute {
    pub dest_gid: [u8; 16],
    pub flow_label: u32,
    pub sgid_index: u8,
    pub hop_limit: u8,
    pub traffic_class: u8,
}

/// Where packets to a peer go.
#[derive(Debug, Clone, Copy, PartialEq, Eq)]
pub struct AddressHandleOptions {
    pub dest_lid: u16,
    pub service_level: u8,
    pub port_num: u8,
    pub global_route: Option<GlobalRoute>,
}

/// What brings a queue pair to the initial state.
#[derive(Debug, Clone, Copy, PartialEq, Eq)]
pub struct InitAttributes {
    pub pkey_index: u16,
    pub port_num: u8,
    pub qkey: Option<u32>,
}

/// What brings a reliable-connected queue pair to ready-to-receive.
#[derive(Debug, Clone, Copy, PartialEq, Eq)]
pub struct RtrAttributes {
    pub path_mtu: Mtu,
    pub dest_qp_num: u32,
    pub rq_psn: u32,
    pub max_dest_rd_atomic: u8,
    pub min_rnr_timer: u8,
    pub ah_attr: AddressHandleOptions,
}

/// What brings a queue pair to ready-to-send.
#[derive(Debug, Clone, Copy, PartialEq, Eq)]
pub struct RtsAttributes {
    pub sq_psn: u32,
    pub timeout: u8,
    pub retry_cnt: u8,
    pub rnr_retry: u8,
    pub max_rd_atomic: u8,
}

/// One buffer of a work request.
#[derive(Debug, Clone, Copy, PartialEq, Eq)]
pub struct Sge {
    pub addr: u64,
    pub length: u32,
    pub lkey: u32,
}

/// A work request: its number and its buffer, and for a datagram send
/// the peer's queue pair and key.
#[derive(Debug, Clone, Copy, PartialEq, Eq)]
pub struct WorkRequest {
    pub wr_id: u64,
    pub sge: Sge,
    pub remote_qpn: u32,
    pub remote_qkey: u32,
}

/// The route to a peer: none within the subnet, that is where the peer's
/// global identifier names no interface.
pub fn route_to(dest: &IbNodeInfo, sgid_index: u8) -> (route: Option<GlobalRoute>)
    ensures
        route == if exists|k: int| 8 <= k < 16 && dest.gid@[k] != 0 {
            Some(
                GlobalRoute {
                    dest_gid: dest.gid,
                    flow_label: 0,
                    sgid_index,
                    hop_limit: 1,
                    traffic_class: 0,
                },
            )
        } else {
            None
        },
{
    if needs_global_route(&dest.gid) {
        Some(
            GlobalRoute {
                dest_gid: dest.gid,
                flow_label: 0,
                sgid_index,
                hop_limit: 1,
                traffic_class: 0,
            },
        )
    } else {
        None
    }
}

/// The queues of a reliable-connected endpoint: one send at a time,
/// `RECEIVE_DEPTH` receives, one completion more than that, with timestamps.
pub fn rc_queue_options() -> (o: QueueOptions)
    ensures
        o == (QueueOptions {
            cqe: (RECEIVE_DEPTH + 1) as u32,
            completion_timestamps: true,
            qp_type: QueuePairType::RC,
            cap: QueuePairCapacity {
                max_send_wr: 1,
                max_recv_wr: RECEIVE_DEPTH,
                max_send_sge: 1,
                max_recv_sge: 1,
                max_inline_data: 0,
            },
        }),
{
    QueueOptions {
        cqe: RECEIVE_DEPTH + 1,
        completion_timestamps: true,
        qp_type: QueuePairType::RC,
        cap: QueuePairCapacity {
            max_send_wr: 1,
            max_recv_wr: RECEIVE_DEPTH,
            max_send_sge: 1,
            max_recv_sge: 1,
            max_inline_data: 0,
        },
    }
}

/// The queues of a datagram endpoint: `QUEUE_SIZE` sends, receives and
/// completions.
pub fn ud_queue_options() -> (o: QueueOptions)
    ensures
        o == (QueueOptions {
            cqe: QUEUE_SIZE as u32,
            completion_timestamps: false,
            qp_type: QueuePairType::UD,
            cap: QueuePairCapacity {
                max_send_wr: QUEUE_SIZE as u32,
                max_recv_wr: QUEUE_SIZE as u32,
                max_send_sge: 1,
                max_recv_sge: 1,
                max_inline_data: 0,
            },
        }),
{
    QueueOptions {
        cqe: QUEUE_SIZE as u32,
        completion_timestamps: false,
        qp_type: QueuePairType::UD,
        cap: QueuePairCapacity {
            max_send_wr: QUEUE_SIZE as u32,
            max_recv_wr: QUEUE_SIZE as u32,
            max_send_sge: 1,
            max_recv_sge: 1,
            max_inline_data: 0,
        },
    }
}

/// The initial state of a queue pair: on the endpoint's port, with the
/// datagram key for a datagram queue pair.
pub fn init_attributes(qp_type: QueuePairType) -> (a: InitAttributes)
    ensures
        a.pkey_index == 0,
        a.port_num == IB_PORT,
        a.qkey == match qp_type {
            QueuePairType::RC => None,
            QueuePairType::UD => Some(UD_QKEY),
        },
{
    let qkey = match qp_type {
        QueuePairType::RC => None,
        QueuePairType::UD => Some(UD_QKEY),
    };
    InitAttributes { pkey_index: 0, port_num: IB_PORT, qkey }
}

/// What connects a reliable-connected queue pair to the peer `dest`: to
/// receive, the peer's queue pair, sequence number and address; to send,
/// the local sequence number and the retry policy.
pub fn pp_ib_connect(
    port: u8,
    local_psn: u32,
    mtu: Mtu,
    sl: u8,
    dest: &IbNodeInfo,
    gid_idx: u8,
) -> (r: (RtrAttributes, RtsAttributes))
    ensures
        r.0.path_mtu == mtu,
        r.0.dest_qp_num == dest.qpn,
        r.0.rq_psn == dest.psn,
        r.0.max_dest_rd_atomic == 1,
        r.0.min_rnr_timer == 12,
        r.0.ah_attr.dest_lid == dest.lid,
        r.0.ah_attr.service_level == sl,
        r.0.ah_attr.port_num == port,
        r.0.ah_attr.global_route.is_some() == (exists|k: int| 8 <= k < 16 && dest.gid@[k] != 0),
        r.0.ah_attr.global_route matches Some(g) ==> g == (GlobalRoute {
            dest_gid: dest.gid,
            flow_label: 0,
            sgid_index: gid_idx,
            hop_limit: 1,
            traffic_class: 0,
        }),
        r.1 == (RtsAttributes {
            sq_psn: local_psn,
            timeout: 31,
            retry_cnt: 7,
            rnr_retry: 7,
            max_rd_atomic: 1,
        }),
{
    let ah_attr = AddressHandleOptions {
        dest_lid: dest.lid,
        service_level: sl,
        port_num: port,
        global_route: route_to(dest, gid_idx),
    };
    let rtr = RtrAttributes {
        path_mtu: mtu,
        dest_qp_num: dest.qpn,
        rq_psn: dest.psn,
        max_dest_rd_atomic: 1,
        min_rnr_timer: 12,
        ah_attr,
    };
    let rts = RtsAttributes {
        sq_psn: local_psn,
        timeout: 31,
        retry_cnt: 7,
        rnr_retry: 7,
        max_rd_atomic: 1,
    };
    (rtr, rts)
}

/// What connects a datagram endpoint to the peer `dest`: the address of
/// the peer on the endpoint's port and service level, and the local
/// sequence number to send with.
pub fn connect(port_gid_idx: u8, local_info: &IbNodeInfo, dest: &IbNodeInfo) -> (r: (
    AddressHandleOptions,
    u32,
))
    ensures
        r.0.dest_lid == dest.lid,
        r.0.service_level == PRIORITY,
        r.0.port_num == IB_PORT,
        r.0.global_route.is_some() == (exists|k: int| 8 <= k < 16 && dest.gid@[k] != 0),
        r.0.global_route matches Some(g) ==> g == (GlobalRoute {
            dest_gid: dest.gid,
            flow_label: 0,
            sgid_index: port_gid_idx,
            hop_limit: 1,
            traffic_class: 0,
        }),
        r.1 == local_info.psn,
{
    let ah_attr = AddressHandleOptions {
        dest_lid: dest.lid,
        service_level: PRIORITY,
        port_num: IB_PORT,
        global_route: route_to(dest, port_gid_idx),
    };
    (ah_attr, local_info.psn)
}

/// The receive of a reliable-connected endpoint: the whole receive buffer.
pub fn rc_recv_request(recv_buf: u64, lkey: u32) -> (wr: WorkRequest)
    ensures
        wr == (WorkRequest {
            wr_id: PINGPONG_RECV_WRID,
            sge: Sge { addr: recv_buf, length: PACKET_SIZE as u32, lkey },
            remote_qpn: 0,
            remote_qkey: 0,
        }),
{
    WorkRequest {
        wr_id: PINGPONG_RECV_WRID,
        sge: Sge { addr: recv_buf, length: PACKET_SIZE as u32, lkey },
        remote_qpn: 0,
        remote_qkey: 0,
    }
}

/// The receive into slot `queue_index` of a datagram endpoint, whose
/// arena starts at `recv_bufs`.
pub fn post_recv(recv_bufs: u64, queue_index: usize, lkey: u32) -> (wr: WorkRequest)
    requires
        queue_index < QUEUE_SIZE,
        recv_bufs + QUEUE_SIZE * PACKET_SIZE <= u64::MAX,
    ensures
        wr == (WorkRequest {
            wr_id: (QUEUE_SIZE + queue_index) as u64,
            sge: Sge {
                addr: (recv_bufs + queue_index * PACKET_SIZE) as u64,
                length: PACKET_SIZE as u32,
                lkey,
            },
            remote_qpn: 0,
            remote_qkey: 0,
        }),
{
    WorkRequest {
        wr_id: (QUEUE_SIZE + queue_index) as u64,
        sge: Sge {
            addr: recv_bufs + (queue_index * PACKET_SIZE) as u64,
            length: PACKET_SIZE as u32,
            lkey,
        },
        remote_qpn: 0,
        remote_qkey: 0,
    }
}

/// The send of a datagram endpoint from slot `queue_idx`, slot 0 where
/// none is given: what follows the routing header in the buffer at `buf`,
/// to the peer's queue pair.
pub fn post_send(queue_idx: Option<usize>, lkey: u32, buf: u64, remote: &IbNodeInfo) -> (wr:
    WorkRequest)
    requires
        buf + GRH_LEN <= u64::MAX,
        queue_idx matches Some(q) ==> q < QUEUE_SIZE,
    ensures
        wr == (WorkRequest {
            wr_id: match queue_idx {
                Some(q) => q as u64,
                None => 0,
            },
            sge: Sge { addr: (buf + GRH_LEN) as u64, length: (PACKET_SIZE - GRH_LEN) as u32, lkey },
            remote_qpn: remote.qpn,
            remote_qkey: UD_QKEY,
        }),
{
    let slot: usize = match queue_idx {
        Some(q) => q,
        None => 0,
    };
    WorkRequest {
        wr_id: slot as u64,
        sge: Sge { addr: buf + GRH_LEN as u64, length: (PACKET_SIZE - GRH_LEN) as u32, lkey },
        remote_qpn: remote.qpn,
        remote_qkey: UD_QKEY,
    }
}

} // verus!
