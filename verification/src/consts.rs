use vstd::prelude::*;

verus! {

/// Port of the RDMA device that every endpoint uses.
pub const IB_PORT: u8 = 1;

/// Service level of the RDMA traffic.
pub const PRIORITY: u8 = 0;

/// Receive descriptors that a reliable-connected endpoint keeps posted.
pub const RECEIVE_DEPTH: u32 = 500;

/// Slots of the send and receive rings of the datagram and AF_XDP endpoints.
pub const QUEUE_SIZE: usize = 128;

/// Bytes of every frame and every registered buffer.
pub const PACKET_SIZE: usize = 1024;

/// Slots of the payload map that the kernel-side filter shares with user space.
pub const PACKETS_MAP_SIZE: u16 = 128;

/// Bytes of the record that two hosts swap to learn each other's MAC and IPv4 address.
pub const ETH_IP_INFO_PACKET_SIZE: usize = 10;

/// EtherType that marks a ping-pong frame.
pub const ETH_P_PINGPONG: u16 = 0x2002;

/// Bytes of an Ethernet header.
pub const ETH_HDR_LEN: usize = 14;

/// Bytes of an IPv4 header without options.
pub const IPV4_HDR_LEN: usize = 20;

} // verus!
