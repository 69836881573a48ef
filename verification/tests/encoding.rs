use tuntap::addr::{Ipv4Addr, Ipv6Addr, MacAddr};
use tuntap::error::Error;
use tuntap::flags::{down_word, up_word, Flags, FLAGS_MASK, IFF_RUNNING, IFF_UP};
use tuntap::request::{IfReq, In6Req};

#[test]
fn ifreq_is_forty_bytes_zero_padded() {
    let r = IfReq::new(b"tun0");
    let bytes = r.as_bytes();
    assert_eq!(bytes.len(), 40);
    assert_eq!(&bytes[0..4], b"tun0");
    for i in 4..40 {
        assert_eq!(bytes[i], 0);
    }
}

#[test]
fn ifreq_name_truncates_to_fifteen_bytes() {
    let r = IfReq::new(b"abcdefghijklmnopqrst");
    let bytes = r.as_bytes();
    assert_eq!(&bytes[0..15], b"abcdefghijklmno");
    assert_eq!(bytes[15], 0);
    assert_eq!(r.name(), b"abcdefghijklmno".to_vec());
}

#[test]
fn ifreq_name_decodes_up_to_terminator() {
    let r = IfReq::new(b"tap3");
    assert_eq!(r.name(), b"tap3".to_vec());
    let empty = IfReq::new(b"");
    assert_eq!(empty.name(), Vec::<u8>::new());
}

#[test]
fn flags_word_encodes_little_endian() {
    let mut r = IfReq::new(b"tun0");
    r.set_flags_word(0x1041);
    let bytes = r.as_bytes();
    assert_eq!(bytes[16], 0x41);
    assert_eq!(bytes[17], 0x10);
    assert_eq!(r.flags_word(), 0x1041);
    // The name field is untouched.
    assert_eq!(r.name(), b"tun0".to_vec());
}

#[test]
fn ivalue_encodes_little_endian() {
    let mut r = IfReq::new(b"tun0");
    r.set_ivalue(1500);
    let bytes = r.as_bytes();
    assert_eq!(bytes[16], 0xdc);
    assert_eq!(bytes[17], 0x05);
    assert_eq!(bytes[18], 0);
    assert_eq!(bytes[19], 0);
    assert_eq!(r.ivalue(), 1500);
}

#[test]
fn ivalue_round_trips_boundary_values() {
    for v in [0u32, 68, 1500, 65535, 0x7fffffff] {
        let mut r = IfReq::new(b"tun0");
        r.set_ivalue(v);
        assert_eq!(r.ivalue(), v);
    }
}

#[test]
fn ipv4_field_uses_kernel_sockaddr_layout() {
    let mut r = IfReq::new(b"tun0");
    r.set_ipv4(&Ipv4Addr::new(10, 0, 0, 1));
    let bytes = r.as_bytes();
    // AF_INET, zero port, then the octets in network order, then padding.
    assert_eq!(&bytes[16..32], &[2, 0, 0, 0, 10, 0, 0, 1, 0, 0, 0, 0, 0, 0, 0, 0]);
}

#[test]
fn ipv4_field_round_trips_edge_addresses() {
    for octets in [[0u8, 0, 0, 0], [255, 255, 255, 255], [192, 168, 1, 7]] {
        let mut r = IfReq::new(b"tun0");
        r.set_ipv4(&Ipv4Addr::new(octets[0], octets[1], octets[2], octets[3]));
        assert_eq!(r.ipv4().octets(), octets);
    }
}

#[test]
fn hwaddr_field_uses_link_layer_layout() {
    let mut r = IfReq::new(b"tap0");
    r.set_hwaddr(&MacAddr::new([0xde, 0xad, 0xbe, 0xef, 0x00, 0x01]));
    let bytes = r.as_bytes();
    assert_eq!(
        &bytes[16..32],
        &[1, 0, 0xde, 0xad, 0xbe, 0xef, 0x00, 0x01, 0, 0, 0, 0, 0, 0, 0, 0]
    );
    assert_eq!(r.hwaddr().octets(), [0xde, 0xad, 0xbe, 0xef, 0x00, 0x01]);
}

#[test]
fn in6_request_carries_address_prefix_and_index() {
    let mut octets = [0u8; 16];
    octets[0] = 0xfe;
    octets[1] = 0x80;
    octets[15] = 1;
    let r = In6Req::new(&Ipv6Addr::new(octets), 64, 7);
    let bytes = r.as_bytes();
    assert_eq!(bytes.len(), 24);
    assert_eq!(&bytes[0..16], &octets);
    assert_eq!(&bytes[16..20], &[64, 0, 0, 0]);
    assert_eq!(&bytes[20..24], &[7, 0, 0, 0]);
}

#[test]
fn flags_validation_accepts_exactly_the_mask() {
    let f = Flags::try_from_bits(FLAGS_MASK).unwrap();
    assert_eq!(f.bits(), FLAGS_MASK);
    assert_eq!(Flags::try_from_bits(0).unwrap().bits(), 0);
    match Flags::try_from_bits(0x8_0000) {
        Err(Error::BadFlags(w)) => assert_eq!(w, 0x8_0000),
        other => panic!("unrecognized bit accepted: {:?}", other),
    }
    match Flags::try_from_bits(0x8_0001) {
        Err(Error::BadFlags(_)) => (),
        other => panic!("unrecognized bit accepted: {:?}", other),
    }
}

#[test]
fn flags_contains_checks_every_bit() {
    let up_running = Flags::try_from_bits(IFF_UP | IFF_RUNNING).unwrap();
    let up = Flags::try_from_bits(IFF_UP).unwrap();
    assert!(up_running.contains(up));
    assert!(!up.contains(up_running));
}

#[test]
fn bring_up_and_down_words_are_idempotent() {
    // OR is idempotent.
    assert_eq!(up_word(0), 0x41);
    assert_eq!(up_word(up_word(0)), up_word(0));
    assert_eq!(up_word(0x1002), 0x1043);
    assert_eq!(up_word(up_word(0x1002)), up_word(0x1002));
    // AND-NOT is idempotent.
    assert_eq!(down_word(0x41), 0);
    assert_eq!(down_word(down_word(0x1043)), down_word(0x1043));
    assert_eq!(down_word(0x1043), 0x1002);
}

#[test]
fn bring_up_sets_and_bring_down_clears_the_bits() {
    let word = up_word(0x1002);
    assert_eq!(word & 0x41, 0x41);
    let word = down_word(word);
    assert_eq!(word & 0x41, 0);
}
