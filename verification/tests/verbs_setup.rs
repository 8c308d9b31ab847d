use det_bypass::ib_net::IbNodeInfo;
use det_bypass::pingpong_context::Mtu;
use det_bypass::verbs::{
    connect, init_attributes, post_recv, post_send, pp_ib_connect, rc_queue_options,
    rc_recv_request, route_to, ud_queue_options, GlobalRoute, QueuePairType, RtsAttributes, Sge,
};

fn peer(gid: [u8; 16]) -> IbNodeInfo {
    IbNodeInfo { lid: 7, qpn: 0x1234, psn: 0xabcdef, gid }
}

const ROUTED: [u8; 16] = [0xfe, 0x80, 0, 0, 0, 0, 0, 0, 0, 0, 0, 0, 0, 0, 0, 9];
const LOCAL: [u8; 16] = [0xfe, 0x80, 0, 0, 0, 0, 0, 0, 0, 0, 0, 0, 0, 0, 0, 0];

#[test]
fn queues_of_a_reliable_connected_endpoint() {
    let o = rc_queue_options();
    assert_eq!(o.cqe, 501);
    assert!(o.completion_timestamps);
    assert_eq!(o.qp_type, QueuePairType::RC);
    assert_eq!((o.cap.max_send_wr, o.cap.max_recv_wr), (1, 500));
    assert_eq!((o.cap.max_send_sge, o.cap.max_recv_sge, o.cap.max_inline_data), (1, 1, 0));
}

#[test]
fn queues_of_a_datagram_endpoint() {
    let o = ud_queue_options();
    assert_eq!(o.cqe, 128);
    assert!(!o.completion_timestamps);
    assert_eq!(o.qp_type, QueuePairType::UD);
    assert_eq!((o.cap.max_send_wr, o.cap.max_recv_wr), (128, 128));
    assert_eq!((o.cap.max_send_sge, o.cap.max_recv_sge, o.cap.max_inline_data), (1, 1, 0));
}

#[test]
fn initial_state_carries_the_datagram_key() {
    let rc = init_attributes(QueuePairType::RC);
    assert_eq!((rc.pkey_index, rc.port_num, rc.qkey), (0, 1, None));
    let ud = init_attributes(QueuePairType::UD);
    assert_eq!((ud.pkey_index, ud.port_num, ud.qkey), (0, 1, Some(0x11111111)));
}

#[test]
fn route_only_beyond_the_subnet() {
    assert_eq!(route_to(&peer(LOCAL), 3), None);
    assert_eq!(
        route_to(&peer(ROUTED), 3),
        Some(GlobalRoute { dest_gid: ROUTED, flow_label: 0, sgid_index: 3, hop_limit: 1, traffic_class: 0 })
    );
}

#[test]
fn reliable_connection_attributes() {
    let (rtr, rts) = pp_ib_connect(1, 0x111, Mtu::Mtu1024, 0, &peer(ROUTED), 2);
    assert_eq!(rtr.path_mtu, Mtu::Mtu1024);
    assert_eq!((rtr.dest_qp_num, rtr.rq_psn), (0x1234, 0xabcdef));
    assert_eq!((rtr.max_dest_rd_atomic, rtr.min_rnr_timer), (1, 12));
    assert_eq!((rtr.ah_attr.dest_lid, rtr.ah_attr.service_level, rtr.ah_attr.port_num), (7, 0, 1));
    assert_eq!(rtr.ah_attr.global_route.unwrap().sgid_index, 2);
    assert_eq!(
        rts,
        RtsAttributes { sq_psn: 0x111, timeout: 31, retry_cnt: 7, rnr_retry: 7, max_rd_atomic: 1 }
    );
    let (rtr, _) = pp_ib_connect(1, 0x111, Mtu::Mtu4096, 5, &peer(LOCAL), 2);
    assert_eq!(rtr.ah_attr.global_route, None);
    assert_eq!(rtr.ah_attr.service_level, 5);
}

#[test]
fn datagram_connection_attributes() {
    let local = IbNodeInfo { lid: 1, qpn: 2, psn: 0x333, gid: LOCAL };
    let (ah, psn) = connect(4, &local, &peer(ROUTED));
    assert_eq!((ah.dest_lid, ah.service_level, ah.port_num, psn), (7, 0, 1, 0x333));
    assert_eq!(ah.global_route.unwrap().dest_gid, ROUTED);
    assert_eq!(ah.global_route.unwrap().sgid_index, 4);
    assert_eq!(connect(4, &local, &peer(LOCAL)).0.global_route, None);
}

#[test]
fn work_requests() {
    let wr = rc_recv_request(0x1000, 77);
    assert_eq!((wr.wr_id, wr.sge), (1, Sge { addr: 0x1000, length: 1024, lkey: 77 }));
    let wr = post_recv(0x10000, 3, 5);
    assert_eq!((wr.wr_id, wr.sge), (131, Sge { addr: 0x10000 + 3 * 1024, length: 1024, lkey: 5 }));
    let wr = post_send(Some(3), 5, 0x10c00, &peer(LOCAL));
    assert_eq!((wr.wr_id, wr.sge), (3, Sge { addr: 0x10c28, length: 984, lkey: 5 }));
    assert_eq!((wr.remote_qpn, wr.remote_qkey), (0x1234, 0x11111111));
    assert_eq!(post_send(None, 5, 0, &peer(LOCAL)).wr_id, 0);
}
