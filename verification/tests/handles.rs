use tuntap::addr::{Ipv4Addr, Ipv6Addr, MacAddr};
use tuntap::device::{
    decode_addr, decode_flags, decode_hwaddr, decode_ivalue, io_step, select_ipv6_addrs,
    CreationRequest, IfaceAddrEntry, IoStep,
};
use tuntap::error::Error;
use tuntap::flags::{Flags, Mode, IFF_RUNNING, IFF_UP};
use tuntap::request::IfReq;
use tuntap::tap::{AsyncTap, MQTap, Tap};
use tuntap::tun::{AsyncTun, MQTun, Tun};

fn word_of(req: &CreationRequest) -> u16 {
    let bytes = req.request().as_bytes();
    bytes[16] as u16 | (bytes[17] as u16) << 8
}

#[test]
fn tun_creation_request_words() {
    let q = Tun::without_packet_info(b"tun0");
    assert_eq!(word_of(&q), 0x1001); // IFF_TUN | IFF_NO_PI
    assert_eq!(q.ioctl_code(), 0x400454ca);
    assert_eq!(q.fd_count(), 1);
    assert!(!q.non_blocking());
    let q = Tun::with_packet_info(b"tun0");
    assert_eq!(word_of(&q), 0x0001); // IFF_TUN alone
}

#[test]
fn tap_creation_request_words() {
    let q = Tap::without_packet_info(b"tap0");
    assert_eq!(word_of(&q), 0x1002); // IFF_TAP | IFF_NO_PI
    let q = Tap::with_packet_info(b"tap0");
    assert_eq!(word_of(&q), 0x0002);
}

#[test]
fn async_creation_requests_are_non_blocking() {
    let q = AsyncTun::without_packet_info(b"tun0");
    assert!(q.non_blocking());
    assert_eq!(word_of(&q), 0x1001);
    let q = AsyncTap::with_packet_info(b"tap0");
    assert!(q.non_blocking());
    assert_eq!(word_of(&q), 0x0002);
}

#[test]
fn multiqueue_flag_appears_only_past_one_queue() {
    let q = MQTun::without_packet_info(b"tun0", 4).unwrap();
    assert_eq!(word_of(&q), 0x1101); // IFF_TUN | IFF_NO_PI | IFF_MULTI_QUEUE
    assert_eq!(q.fd_count(), 4);
    let q = MQTun::without_packet_info(b"tun0", 1).unwrap();
    assert_eq!(word_of(&q), 0x1001);
    let q = MQTap::with_packet_info(b"tap0", 2).unwrap();
    assert_eq!(word_of(&q), 0x0102);
}

#[test]
fn zero_queue_count_is_the_dedicated_error() {
    match MQTun::without_packet_info(b"tun0", 0) {
        Err(Error::ZeroDevices) => (),
        other => panic!("zero queues not refused: {:?}", other.map(|q| q.fd_count())),
    }
    match MQTap::with_packet_info(b"tap0", 0) {
        Err(Error::ZeroDevices) => (),
        other => panic!("zero queues not refused: {:?}", other.map(|q| q.fd_count())),
    }
}

#[test]
fn requested_name_is_truncated_into_the_ask() {
    let q = Tun::without_packet_info(b"averylonginterfacename");
    let bytes = q.request().as_bytes();
    assert_eq!(&bytes[0..15], b"averylonginterf");
    assert_eq!(bytes[15], 0);
}

#[test]
fn assemble_takes_the_kernel_chosen_name() {
    let q = Tun::without_packet_info(b"tun%d");
    // The kernel answered with a different name than the one asked for.
    let reply = IfReq::new(b"tun3");
    let t = Tun::assemble(&q, 5, &reply, 6, 7).unwrap();
    assert_eq!(t.dev().name(), &b"tun3".to_vec());
    assert_eq!(t.dev().fd(), 5);
    assert_eq!(t.dev().sock4(), 6);
    assert_eq!(t.dev().sock6(), 7);
    assert_eq!(t.dev().mode(), Mode::Tun);
}

#[test]
fn assemble_rejects_an_empty_reply_name() {
    let q = Tun::without_packet_info(b"tun0");
    let reply = IfReq::new(b"");
    match Tun::assemble(&q, 5, &reply, 6, 7) {
        Err(Error::BadName) => (),
        _ => panic!("empty kernel name accepted"),
    }
}

#[test]
fn siblings_assembled_from_one_reply_share_the_name() {
    let q = MQTun::without_packet_info(b"tun0", 2).unwrap();
    let reply = IfReq::new(b"tun0");
    let a = MQTun::assemble(&q, 10, &reply, 20, 21).unwrap();
    let b = MQTun::assemble(&q, 11, &reply, 20, 21).unwrap();
    assert_eq!(a.dev().name(), b.dev().name());
    assert_ne!(a.dev().fd(), b.dev().fd());
}

fn blocking_tun() -> Tun {
    let q = Tun::without_packet_info(b"tun0");
    let reply = IfReq::new(b"tun0");
    Tun::assemble(&q, 3, &reply, 4, 5).unwrap()
}

#[test]
fn flag_operations_carry_the_interface_name() {
    let t = blocking_tun();
    let (code, ifr) = t.dev().read_flags_request();
    assert_eq!(code, 0x8913);
    assert_eq!(ifr.name(), b"tun0".to_vec());
    let (code, ifr) = t.dev().bring_up_request(0x1002);
    assert_eq!(code, 0x8914);
    assert_eq!(ifr.flags_word(), 0x1043);
    let (code, ifr) = t.dev().bring_down_request(0x1043);
    assert_eq!(code, 0x8914);
    assert_eq!(ifr.flags_word(), 0x1002);
}

#[test]
fn decoded_flags_after_bring_up_contain_up_and_running() {
    let t = blocking_tun();
    let (_, mut reply) = t.dev().read_flags_request();
    // The kernel reports the word that a bring-up wrote.
    reply.set_flags_word(0x1043);
    let f = decode_flags(&reply).unwrap();
    let up_running = Flags::try_from_bits(IFF_UP | IFF_RUNNING).unwrap();
    assert!(f.contains(up_running));
    // After bring-down it contains neither bit.
    reply.set_flags_word(0x1002);
    let f = decode_flags(&reply).unwrap();
    assert!(!f.contains(Flags::try_from_bits(IFF_UP).unwrap()));
    assert!(!f.contains(Flags::try_from_bits(IFF_RUNNING).unwrap()));
}

#[test]
fn mtu_set_then_decode_returns_the_value() {
    let t = blocking_tun();
    for mtu in [68u32, 1500, 65535] {
        let (code, ifr) = t.dev().set_mtu_request(mtu);
        assert_eq!(code, 0x8922);
        assert_eq!(decode_ivalue(&ifr), mtu);
    }
    let (code, _) = t.dev().get_mtu_request();
    assert_eq!(code, 0x8921);
}

#[test]
fn addr_set_then_decode_returns_the_address() {
    let t = blocking_tun();
    for octets in [[0u8, 0, 0, 0], [255, 255, 255, 255], [10, 0, 0, 1]] {
        let a = Ipv4Addr::new(octets[0], octets[1], octets[2], octets[3]);
        let (code, ifr) = t.dev().set_addr_request(&a);
        assert_eq!(code, 0x8916);
        assert_eq!(decode_addr(&ifr).octets(), octets);
    }
    let (code, _) = t.dev().get_addr_request();
    assert_eq!(code, 0x8915);
}

#[test]
fn deleting_the_address_writes_the_zero_address() {
    let t = blocking_tun();
    let (code, ifr) = t.dev().del_addr_request();
    assert_eq!(code, 0x8916);
    assert_eq!(decode_addr(&ifr).octets(), [0, 0, 0, 0]);
    let zero = Ipv4Addr::new(0, 0, 0, 0);
    let (_, explicit) = t.dev().set_addr_request(&zero);
    assert_eq!(ifr.as_bytes(), explicit.as_bytes());
}

#[test]
fn remaining_address_operations_use_their_own_codes() {
    let t = blocking_tun();
    let a = Ipv4Addr::new(255, 255, 255, 0);
    assert_eq!(t.dev().set_netmask_request(&a).0, 0x891c);
    assert_eq!(t.dev().get_netmask_request().0, 0x891b);
    assert_eq!(t.dev().set_brd_addr_request(&a).0, 0x891a);
    assert_eq!(t.dev().get_brd_addr_request().0, 0x8919);
    assert_eq!(t.dev().set_dst_addr_request(&a).0, 0x8918);
    assert_eq!(t.dev().get_dst_addr_request().0, 0x8917);
    assert_eq!(t.dev().get_index_request().0, 0x8933);
}

#[test]
fn persistence_and_ownership_requests() {
    let t = blocking_tun();
    assert_eq!(t.dev().set_persist_request(true), (0x400454cb, 1));
    assert_eq!(t.dev().set_persist_request(false), (0x400454cb, 0));
    assert_eq!(t.dev().set_owner_request(1000), (0x400454cc, 1000));
    assert_eq!(t.dev().set_group_request(27), (0x400454ce, 27));
}

#[test]
fn ipv6_operations_use_the_index_and_distinct_codes() {
    let t = blocking_tun();
    let mut octets = [0u8; 16];
    octets[0] = 0xfe;
    octets[1] = 0x80;
    octets[15] = 1;
    let addr = Ipv6Addr::new(octets);
    let (code, req) = t.dev().add_ipv6_request(&addr, 64, 9);
    assert_eq!(code, 0x8916);
    assert_eq!(&req.as_bytes()[0..16], &octets);
    assert_eq!(&req.as_bytes()[20..24], &[9, 0, 0, 0]);
    let (code, _) = t.dev().del_ipv6_request(&addr, 64, 9);
    assert_eq!(code, 0x8936);
}

#[test]
fn hwaddr_operations_exist_on_tap_handles() {
    let q = Tap::without_packet_info(b"tap0");
    let reply = IfReq::new(b"tap0");
    let t = Tap::assemble(&q, 3, &reply, 4, 5).unwrap();
    let mac = MacAddr::new([2, 0, 0, 0, 0, 1]);
    let (code, ifr) = t.set_hwaddr_request(&mac);
    assert_eq!(code, 0x8924);
    assert_eq!(decode_hwaddr(&ifr).octets(), [2, 0, 0, 0, 0, 1]);
    assert_eq!(t.get_hwaddr_request().0, 0x8927);
}

#[test]
fn queue_attach_and_detach_requests() {
    let q = MQTap::without_packet_info(b"tap0", 2).unwrap();
    let reply = IfReq::new(b"tap0");
    let t = MQTap::assemble(&q, 3, &reply, 4, 5).unwrap();
    let (code, ifr) = t.attach_request();
    assert_eq!(code, 0x400454d9);
    assert_eq!(ifr.flags_word(), 0x0200);
    assert_eq!(ifr.name(), Vec::<u8>::new());
    let (code, ifr) = t.detach_request();
    assert_eq!(code, 0x400454d9);
    assert_eq!(ifr.flags_word(), 0x0400);
}

fn entry(name: &[u8], ipv6: Option<[u8; 16]>) -> IfaceAddrEntry {
    IfaceAddrEntry { name: name.to_vec(), ipv6: ipv6.map(Ipv6Addr::new) }
}

fn fe80(last: u8) -> [u8; 16] {
    let mut octets = [0u8; 16];
    octets[0] = 0xfe;
    octets[1] = 0x80;
    octets[15] = last;
    octets
}

#[test]
fn ipv6_selection_keeps_matching_entries_in_order() {
    let entries = vec![
        entry(b"tun0", Some(fe80(1))),
        entry(b"eth0", Some(fe80(9))),
        entry(b"tun0", Some(fe80(2))),
        entry(b"tun0", None),
    ];
    let got = select_ipv6_addrs(&entries, &b"tun0".to_vec());
    assert_eq!(got.len(), 2);
    assert_eq!(got[0].octets(), fe80(1));
    assert_eq!(got[1].octets(), fe80(2));
    // After the second address is gone from the table, exactly the
    // first remains.
    let entries = vec![entry(b"tun0", Some(fe80(1))), entry(b"eth0", Some(fe80(9)))];
    let got = select_ipv6_addrs(&entries, &b"tun0".to_vec());
    assert_eq!(got.len(), 1);
    assert_eq!(got[0].octets(), fe80(1));
}

#[test]
fn system_table_has_no_addresses_for_an_unknown_name() {
    // The handle's name never collides with a real interface, so the
    // live system query must filter everything out.
    let q = Tun::without_packet_info(b"zzzznosuchif");
    let reply = IfReq::new(b"zzzznosuchif");
    let t = Tun::assemble(&q, -1, &reply, -1, -1).unwrap();
    let got = t.dev().get_ipv6_addrs().unwrap();
    assert!(got.is_empty());
}

#[test]
fn recv_on_a_bad_descriptor_is_a_kernel_error_not_would_block() {
    let q = Tun::without_packet_info(b"tun9");
    let reply = IfReq::new(b"tun9");
    // No descriptor -1 exists, so the read must fail with EBADF.
    let bad = Tun::assemble(&q, -1, &reply, -1, -1).unwrap();
    let mut buf = vec![0u8; 16];
    match bad.dev().recv(&mut buf) {
        Err(e) => assert!(!e.is_would_block()),
        Ok(_) => panic!("read from descriptor -1 succeeded"),
    }
    assert_eq!(buf.len(), 16);
}

#[test]
fn would_block_is_a_distinguished_recoverable_condition() {
    assert!(Error::Os(11).is_would_block());
    assert!(!Error::Os(5).is_would_block());
    assert!(!Error::ZeroDevices.is_would_block());
    assert_eq!(io_step(Err(Error::Os(11))), IoStep::Wait);
    assert_eq!(io_step(Err(Error::Os(5))), IoStep::Fail(Error::Os(5)));
    assert_eq!(io_step(Ok(17)), IoStep::Done(17));
}
