//! Latency measurement for a ping-pong packet exchange: the packet format,
//! the pacing and completion rules shared by every transport, and the
//! reducer that turns completed packets into traces, extremes or histograms.

pub mod consts;
pub mod payload;
pub mod text;
pub mod buckets;
pub mod histogram;
pub mod persistence_agent;
pub mod bitset;
pub mod wire;
pub mod common_net;
pub mod ib_net;
pub mod pingpong_context;
pub mod completion;
pub mod xdp;
pub mod xsk;
pub mod utils;
pub mod post_context;
pub mod mac;
pub mod trace;
pub mod xdp_udp;
pub mod verbs;
