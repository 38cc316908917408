use tcp_cong::ethernet::{Address, Header, Proto, UnknownProtoError};
use tcp_cong::net_device::{Features, Flag, NetDevice, PrivFlag};

#[test]
fn features_insert_and_remove_bits() {
    let mut f = Features::empty();
    assert_eq!(f.0, 0);
    f.insert(0x5);
    assert_eq!(f.0, 0x5);
    f.insert(0x3);
    assert_eq!(f.0, 0x7);
    f.remove(0x2);
    assert_eq!(f.0, 0x5);
}

#[test]
fn net_device_flag_operations() {
    let mut dev = NetDevice::new();
    dev.add_flag(Flag::UP);
    dev.add_flag(Flag::RUNNING);
    assert_eq!(dev.flags, 0x41);
    dev.remove_flag(Flag::UP);
    assert_eq!(dev.flags, 0x40);
    dev.add_private_flag(PrivFlag::MACSEC);
    assert_eq!(dev.priv_flags, 0x2000000);
    dev.remove_private_flag(PrivFlag::MACSEC);
    assert_eq!(dev.priv_flags, 0);
}

#[test]
fn net_device_features_and_mtu() {
    let mut dev = NetDevice::new();
    let mut f = Features::empty();
    f.insert(0x10);
    dev.set_features(f);
    assert_eq!(dev.get_features().unwrap().0, 0x10);
    dev.set_hw_features(Features(0x20));
    assert_eq!(dev.get_hw_features().unwrap().0, 0x20);
    dev.set_hw_enc_features(Features(0x40));
    assert_eq!(dev.get_hw_enc_features().unwrap().0, 0x40);
    dev.set_mtu(68, 1500);
    assert_eq!(dev.min_mtu, 68);
    assert_eq!(dev.max_mtu, 1500);
}

#[test]
fn proto_numbers_round_trip() {
    for p in [Proto::Ip, Proto::Arp, Proto::IpV6, Proto::IEEE8021Q, Proto::Mctp, Proto::Loop] {
        assert_eq!(Proto::from_number(p.number()), Ok(p));
    }
    assert_eq!(Proto::Ip.number(), 0x0800);
    assert_eq!(Proto::Arp.number(), 0x0806);
    assert_eq!(Proto::IpV6.number(), 0x86DD);
    assert_eq!(Proto::from_number(0x1234), Err(UnknownProtoError(0x1234)));
}

#[test]
fn header_keeps_network_byte_order() {
    let h = Header::new(Address::broadcast(), Address::unspecified(), Proto::Ip);
    assert_eq!(h.dst_hwaddr().0, [0xff; 6]);
    assert_eq!(h.src_hwaddr().0, [0x00; 6]);
    // 0x0800 on the wire, read back without conversion.
    assert_eq!(h.proto_number(), 0x0008);
}
