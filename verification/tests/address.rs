use proxy_session::address::Address;
use proxy_session::error::ErrorKind;
use proxy_session::mask::calc_mask;
use proxy_session::network::Network;

fn net(a: u8, b: u8, c: u8, d: u8, prefix: u8) -> Network {
    Network::new(Address::new(a, b, c, d), prefix).unwrap()
}

#[test]
fn address_new_assembles_big_endian() {
    assert_eq!(Address::new(10, 6, 0, 1).bits, 0x0a06_0001);
    assert_eq!(Address::new(255, 255, 255, 255).bits, u32::MAX);
    assert_eq!(Address::new(0, 0, 0, 0).bits, 0);
}

#[test]
fn address_octets_round_trip() {
    assert_eq!(Address { bits: 0xc0a8_0164 }.octets(), [192, 168, 1, 100]);
    assert_eq!(Address::new(1, 2, 3, 4).octets(), [1, 2, 3, 4]);
}

#[test]
fn address_to_string_is_dotted_quad() {
    assert_eq!(Address::new(192, 168, 1, 100).to_string(), "192.168.1.100");
    assert_eq!(Address::new(0, 0, 0, 0).to_string(), "0.0.0.0");
    assert_eq!(Address::new(255, 255, 255, 255).to_string(), "255.255.255.255");
    assert_eq!(Address::new(10, 6, 0, 2).to_string(), "10.6.0.2");
    assert_eq!(Address::new(9, 10, 99, 100).to_string(), "9.10.99.100");
}

#[test]
fn address_parse_accepts_dotted_quads() {
    assert_eq!(Address::parse("127.0.0.1"), Some(Address::new(127, 0, 0, 1)));
    assert_eq!(Address::parse("0.0.0.0"), Some(Address::new(0, 0, 0, 0)));
    assert_eq!(Address::parse("255.255.255.255"), Some(Address::new(255, 255, 255, 255)));
    assert_eq!(Address::parse("8.8.8.8"), Some(Address::new(8, 8, 8, 8)));
}

#[test]
fn address_parse_refuses_what_is_no_dotted_quad() {
    assert_eq!(Address::parse(""), None);
    assert_eq!(Address::parse("1.2.3"), None);
    assert_eq!(Address::parse("1.2.3.4.5"), None);
    assert_eq!(Address::parse("1.2.3.4."), None);
    assert_eq!(Address::parse(".1.2.3.4"), None);
    assert_eq!(Address::parse("1..2.3"), None);
    assert_eq!(Address::parse("256.1.1.1"), None);
    assert_eq!(Address::parse("1.1.1.1000"), None);
    assert_eq!(Address::parse("01.2.3.4"), None);
    assert_eq!(Address::parse("1.2.3.04"), None);
    assert_eq!(Address::parse("1.2.3.4 "), None);
    assert_eq!(Address::parse("+1.2.3.4"), None);
    assert_eq!(Address::parse("example.com"), None);
    assert_eq!(Address::parse("0x7f.0.0.1"), None);
}

#[test]
fn address_parse_more_cases() {
    let cases: [(&str, Option<[u8; 4]>); 12] = [
        ("1.2.3.4", Some([1, 2, 3, 4])),
        ("00.0.0.0", None),
        ("1.2.3.256", None),
        ("1.2.3.4/5", None),
        ("192.168.001.1", None),
        ("192.168.1.1", Some([192, 168, 1, 1])),
        ("10.0.0.09", None),
        ("1.1.1.1\n", None),
        (" 1.1.1.1", None),
        ("1234.1.1.1", None),
        ("\u{663}.1.1.1", None),
        ("12.34.56.78", Some([12, 34, 56, 78])),
    ];
    for (text, expected) in cases {
        let expected = expected.map(|o| Address::new(o[0], o[1], o[2], o[3]));
        assert_eq!(Address::parse(text), expected, "{}", text);
    }
}

#[test]
fn address_text_round_trips() {
    for bits in [0u32, 1, 0x0a00_0001, 0x7f00_0001, 0xc0a8_01fe, 0xffff_ff00, u32::MAX] {
        let a = Address { bits };
        assert_eq!(Address::parse(&a.to_string()), Some(a));
    }
}

#[test]
fn network_new_checks_the_prefix() {
    assert!(Network::new(Address::new(10, 0, 0, 0), 0).is_some());
    assert!(Network::new(Address::new(10, 0, 0, 0), 32).is_some());
    assert!(Network::new(Address::new(10, 0, 0, 0), 33).is_none());
    assert!(Network::new(Address::new(10, 0, 0, 0), 255).is_none());
}

#[test]
fn network_parts() {
    let n = net(10, 1, 9, 32, 16);
    assert_eq!(n.ip(), Address::new(10, 1, 9, 32));
    assert_eq!(n.prefix(), 16);
    assert_eq!(n.mask(), Address::new(255, 255, 0, 0));
    assert_eq!(n.network(), Address::new(10, 1, 0, 0));
    assert_eq!(n.broadcast(), Address::new(10, 1, 255, 255));
    assert!(!n.is_single());
}

#[test]
fn network_edge_prefixes() {
    let all = net(10, 1, 9, 32, 0);
    assert_eq!(all.mask(), Address::new(0, 0, 0, 0));
    assert_eq!(all.network(), Address::new(0, 0, 0, 0));
    assert_eq!(all.broadcast(), Address::new(255, 255, 255, 255));
    assert!(!all.is_single());
    let one = net(10, 1, 9, 32, 32);
    assert_eq!(one.mask(), Address::new(255, 255, 255, 255));
    assert_eq!(one.network(), Address::new(10, 1, 9, 32));
    assert_eq!(one.broadcast(), Address::new(10, 1, 9, 32));
    assert!(one.is_single());
    assert!(!net(10, 1, 9, 32, 31).is_single());
    assert!(Network::host(Address::new(10, 6, 0, 1)).is_single());
    assert_eq!(Network::host(Address::new(10, 6, 0, 1)).prefix(), 32);
}

#[test]
fn network_parse_reads_cidr() {
    let n = Network::parse("10.1.9.32/16").unwrap();
    assert_eq!(n.ip(), Address::new(10, 1, 9, 32));
    assert_eq!(n.prefix(), 16);
    let n = Network::parse("192.168.1.1").unwrap();
    assert_eq!(n.ip(), Address::new(192, 168, 1, 1));
    assert_eq!(n.prefix(), 32);
    let n = Network::parse("10.0.0.0/255.255.255.0").unwrap();
    assert_eq!(n.prefix(), 24);
}

#[test]
fn network_parse_refusals_are_addressing_errors() {
    for text in ["", "10.0.0.0/33", "10.0.0/8", "10.0.0.0/8/8", "net", "10.0.0.0/255.0.255.0"] {
        let e = Network::parse(text).unwrap_err();
        assert_eq!(e.kind(), ErrorKind::Addressing, "{}", text);
        assert!(!e.message().is_empty());
    }
    assert_eq!(Network::parse("10.0.0.0/33").unwrap_err().to_string(), "invalid prefix");
}

#[test]
fn calc_mask_own_network_whole_octets() {
    for prefix in [0u8, 8, 16, 24, 32] {
        let n = net(172, 24, 9, 7, prefix);
        assert_eq!(calc_mask(n, n.network()), n.mask(), "/{}", prefix);
    }
}

#[test]
fn calc_mask_own_network_cuts_to_whole_octets() {
    let n = net(10, 1, 16, 0, 20);
    assert_eq!(n.mask(), Address::new(255, 255, 240, 0));
    assert_eq!(calc_mask(n, n.network()), Address::new(255, 255, 0, 0));
    assert_eq!(calc_mask(net(10, 1, 16, 0, 7), Address::new(10, 0, 0, 0)), Address::new(0, 0, 0, 0));
    assert_eq!(
        calc_mask(net(10, 1, 16, 0, 31), Address::new(10, 1, 16, 0)),
        Address::new(255, 255, 255, 0)
    );
}

#[test]
fn calc_mask_first_octet_disagreement_is_zero() {
    assert_eq!(calc_mask(net(10, 0, 0, 0, 8), Address::new(11, 0, 0, 0)), Address::new(0, 0, 0, 0));
    assert_eq!(
        calc_mask(net(192, 168, 1, 0, 24), Address::new(193, 168, 1, 1)),
        Address::new(0, 0, 0, 0)
    );
    assert_eq!(
        calc_mask(net(10, 6, 0, 1, 32), Address::new(172, 6, 0, 1)),
        Address::new(0, 0, 0, 0)
    );
}

#[test]
fn calc_mask_stops_at_the_first_disagreement() {
    assert_eq!(
        calc_mask(net(10, 6, 0, 1, 32), Address::new(10, 6, 0, 2)),
        Address::new(255, 255, 255, 0)
    );
    assert_eq!(
        calc_mask(net(172, 24, 6, 7, 32), Address::new(172, 24, 5, 7)),
        Address::new(255, 255, 0, 0)
    );
    assert_eq!(
        calc_mask(net(10, 1, 2, 3, 32), Address::new(10, 9, 2, 3)),
        Address::new(255, 0, 0, 0)
    );
    assert_eq!(
        calc_mask(net(10, 1, 2, 3, 32), Address::new(10, 1, 2, 3)),
        Address::new(255, 255, 255, 255)
    );
    assert_eq!(
        calc_mask(net(192, 168, 1, 77, 24), Address::new(192, 168, 1, 1)),
        Address::new(255, 255, 255, 0)
    );
}

#[test]
fn calc_mask_is_deterministic() {
    let n = net(192, 168, 7, 0, 24);
    let g = Address::new(192, 168, 7, 1);
    assert_eq!(calc_mask(n, g), calc_mask(n, g));
}
