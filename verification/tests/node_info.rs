use det_bypass::ib_net::{ib_device_find_by_name, needs_global_route, psn_from_word, psn_seed, IbNodeInfo, NodeInfoError};
use rand::rngs::StdRng;
use rand::{Rng, SeedableRng};

fn gid() -> [u8; 16] {
    [0xfe, 0x80, 0, 0, 0, 0, 0, 0, 1, 2, 3, 4, 5, 6, 7, 8]
}

#[test]
fn infiniband_port_without_lid_is_refused() {
    assert_eq!(IbNodeInfo::new(0, false, gid(), 17, 42), Err(NodeInfoError::NoLocalLid));
}

#[test]
fn ethernet_port_needs_no_lid() {
    let info = IbNodeInfo::new(0, true, gid(), 17, 42).unwrap();
    assert_eq!(info.lid, 0);
    assert_eq!(info.qpn, 17);
    assert_eq!(info.gid, gid());
}

#[test]
fn psn_is_the_low_24_bits_of_the_generator_word() {
    for seed in [0u64, 1, 5, 42, 0xffff_ffff_ffff_ffff] {
        let word: u32 = StdRng::seed_from_u64(seed).gen::<u32>();
        let info = IbNodeInfo::new(3, false, gid(), 9, seed).unwrap();
        assert_eq!(info.psn, word & 0xffffff);
        assert!(info.psn <= 0xffffff);
        assert_eq!(info, IbNodeInfo::new(3, false, gid(), 9, seed).unwrap());
    }
    let a = IbNodeInfo::new(3, false, gid(), 9, 1).unwrap().psn;
    let b = IbNodeInfo::new(3, false, gid(), 9, 2).unwrap().psn;
    let c = IbNodeInfo::new(3, false, gid(), 9, 3).unwrap().psn;
    assert!(!(a == 1 && b == 2 && c == 3));
    assert!(a != b || b != c);
}

#[test]
fn psn_mask_and_seed() {
    assert_eq!(psn_from_word(0xffff_ffff), 0x00ff_ffff);
    assert_eq!(psn_from_word(0x1234_5678), 0x0034_5678);
    assert_eq!(psn_seed(1000, 1_700_000_000), 1_700_000_000_000);
    assert_eq!(psn_seed(u32::MAX, u64::MAX), (u32::MAX as u64).wrapping_mul(u64::MAX));
}

#[test]
fn node_record_is_26_little_endian_bytes() {
    let info = IbNodeInfo { lid: 0x0102, qpn: 0x03040506, psn: 0x0708090a, gid: gid() };
    let bytes = info.serialize();
    assert_eq!(&bytes[0..2], &[0x02, 0x01]);
    assert_eq!(&bytes[2..6], &[0x06, 0x05, 0x04, 0x03]);
    assert_eq!(&bytes[6..10], &[0x0a, 0x09, 0x08, 0x07]);
    assert_eq!(&bytes[10..26], &gid());
    assert_eq!(IbNodeInfo::deserialize(&bytes), info);
    let mut datagram = [0u8; 1024];
    datagram[..26].copy_from_slice(&bytes);
    assert_eq!(IbNodeInfo::deserialize(&datagram), info);
}

#[test]
fn device_is_found_by_name() {
    let names = vec![b"mlx5_0".to_vec(), b"mlx5_1".to_vec(), b"mlx5_0".to_vec(), b"rxe0".to_vec()];
    assert_eq!(ib_device_find_by_name(&names, b"mlx5_1"), Some(1));
    assert_eq!(ib_device_find_by_name(&names, b"mlx5_0"), Some(2));
    assert_eq!(ib_device_find_by_name(&names, b"mlx5"), None);
    assert_eq!(ib_device_find_by_name(&Vec::new(), b"mlx5_0"), None);
}

#[test]
fn global_route_follows_the_interface_id() {
    assert!(needs_global_route(&gid()));
    assert!(!needs_global_route(&[0xfe, 0x80, 0, 0, 0, 0, 0, 1, 0, 0, 0, 0, 0, 0, 0, 0]));
    assert!(needs_global_route(&[0, 0, 0, 0, 0, 0, 0, 0, 0, 0, 0, 0, 0, 0, 0, 1]));
}
