use inetstack::{ArpConfig, Ipv4Addr, MacAddress, Options, TcpConfig, UdpConfig};

#[test]
fn ipv4_octets_in_order() {
    assert_eq!(Ipv4Addr::new(192, 168, 1, 20).octets(), [192, 168, 1, 20]);
}

#[test]
fn ipv4_unspecified_and_broadcast() {
    assert!(Ipv4Addr::unspecified().is_unspecified());
    assert!(!Ipv4Addr::unspecified().is_broadcast());
    assert!(Ipv4Addr::broadcast().is_broadcast());
    assert!(!Ipv4Addr::broadcast().is_unspecified());
    assert!(Ipv4Addr::new(0, 0, 0, 0).is_unspecified());
    assert!(Ipv4Addr::new(255, 255, 255, 255).is_broadcast());
    assert!(!Ipv4Addr::new(0, 0, 0, 1).is_unspecified());
    assert!(!Ipv4Addr::new(255, 255, 255, 254).is_broadcast());
    assert!(!Ipv4Addr::new(10, 0, 0, 1).is_unspecified());
    assert!(!Ipv4Addr::new(10, 0, 0, 1).is_broadcast());
}

#[test]
fn mac_nil_and_broadcast() {
    assert_eq!(MacAddress::nil().octets(), [0; 6]);
    assert_eq!(MacAddress::broadcast().octets(), [0xff; 6]);
    assert!(MacAddress::nil().is_nil());
    assert!(!MacAddress::nil().is_broadcast());
    assert!(MacAddress::broadcast().is_broadcast());
    assert!(!MacAddress::broadcast().is_nil());
    let m = MacAddress::new([0x12, 0x23, 0x45, 0x67, 0x89, 0xab]);
    assert_eq!(m.octets(), [0x12, 0x23, 0x45, 0x67, 0x89, 0xab]);
    assert!(!m.is_nil());
    assert!(!m.is_broadcast());
    assert!(!MacAddress::new([0, 0, 0, 0, 0, 1]).is_nil());
    assert!(!MacAddress::new([0xff, 0xff, 0xff, 0xff, 0xff, 0xfe]).is_broadcast());
}

#[test]
fn with_seed_is_initial() {
    let o = Options::with_seed([9; 32]);
    assert_eq!(o.rng_seed, [9; 32]);
    assert!(o.my_ipv4_addr.is_unspecified());
    assert_eq!(o.my_ipv4_addr.octets(), [0, 0, 0, 0]);
    assert!(o.my_link_addr.is_nil());
    assert_eq!(o.arp, ArpConfig::default());
    assert_eq!(o.tcp, TcpConfig::default());
    assert_eq!(o.udp, UdpConfig::default());
}

#[test]
fn default_is_initial() {
    let o = Options::default();
    assert!(o.my_ipv4_addr.is_unspecified());
    assert!(o.my_link_addr.is_nil());
    assert_eq!(o.arp, ArpConfig::default());
    assert_eq!(o.tcp, TcpConfig::default());
    assert_eq!(o.udp, UdpConfig::default());
}

#[test]
fn default_seeds_differ() {
    // Two seeds of 256 random bits are equal with negligible probability.
    let a = Options::default().rng_seed;
    let b = Options::default().rng_seed;
    assert_ne!(a, b);
}

#[test]
fn my_ipv4_addr_sets_address_only() {
    let o = Options::with_seed([1; 32]).my_ipv4_addr(Ipv4Addr::new(10, 0, 0, 7));
    assert_eq!(o.my_ipv4_addr.octets(), [10, 0, 0, 7]);
    assert!(o.my_link_addr.is_nil());
    assert_eq!(o.rng_seed, [1; 32]);
}

#[test]
fn my_link_addr_sets_address_only() {
    let mac = MacAddress::new([0x02, 0, 0, 0, 0, 0x01]);
    let o = Options::with_seed([2; 32]).my_link_addr(mac);
    assert_eq!(o.my_link_addr.octets(), [0x02, 0, 0, 0, 0, 0x01]);
    assert!(o.my_ipv4_addr.is_unspecified());
    assert_eq!(o.rng_seed, [2; 32]);
}

#[test]
fn rng_seed_sets_seed() {
    let mut seed = [0u8; 32];
    for (i, b) in seed.iter_mut().enumerate() {
        *b = i as u8;
    }
    let o = Options::with_seed([0; 32]).rng_seed(seed);
    assert_eq!(o.rng_seed, seed);
    assert!(o.my_ipv4_addr.is_unspecified());
}

#[test]
fn arp_and_tcp_set_their_fields() {
    let o = Options::with_seed([3; 32]).arp(ArpConfig::default()).tcp(TcpConfig::default());
    assert_eq!(o.arp, ArpConfig::default());
    assert_eq!(o.tcp, TcpConfig::default());
    assert_eq!(o.rng_seed, [3; 32]);
}

#[test]
fn last_value_wins() {
    let o = Options::with_seed([0; 32])
        .my_ipv4_addr(Ipv4Addr::new(10, 0, 0, 1))
        .my_ipv4_addr(Ipv4Addr::new(10, 0, 0, 2))
        .rng_seed([5; 32])
        .rng_seed([6; 32]);
    assert_eq!(o.my_ipv4_addr.octets(), [10, 0, 0, 2]);
    assert_eq!(o.rng_seed, [6; 32]);
}

#[test]
fn builders_commute() {
    let ip = Ipv4Addr::new(172, 16, 0, 3);
    let mac = MacAddress::new([0x0a, 0x0b, 0x0c, 0x0d, 0x0e, 0x0f]);
    let a = Options::with_seed([4; 32]).my_ipv4_addr(ip).my_link_addr(mac).rng_seed([8; 32]);
    let b = Options::with_seed([4; 32]).rng_seed([8; 32]).my_link_addr(mac).my_ipv4_addr(ip);
    assert_eq!(a.my_ipv4_addr, b.my_ipv4_addr);
    assert_eq!(a.my_link_addr.octets(), b.my_link_addr.octets());
    assert_eq!(a.rng_seed, b.rng_seed);
}

#[test]
fn built_options_have_no_broadcast_address() {
    let o = Options::default()
        .my_ipv4_addr(Ipv4Addr::new(192, 168, 0, 1))
        .my_link_addr(MacAddress::new([0x02, 1, 2, 3, 4, 5]));
    assert!(!o.my_ipv4_addr.is_broadcast());
    assert!(!o.my_link_addr.is_broadcast());
}

#[test]
fn equal_octets_equal_addresses() {
    assert_eq!(Ipv4Addr::new(0, 0, 0, 0), Ipv4Addr::unspecified());
    assert_eq!(Options::with_seed([0; 32]).my_ipv4_addr, Ipv4Addr::new(0, 0, 0, 0));
    assert_eq!(MacAddress::new([0; 6]).octets(), MacAddress::nil().octets());
}

#[test]
fn unset_addresses_stay_initial_along_a_chain() {
    let o = Options::default()
        .rng_seed([7; 32])
        .arp(ArpConfig::default())
        .my_link_addr(MacAddress::new([0x02, 0, 0, 0, 0, 9]))
        .tcp(TcpConfig::default());
    assert!(o.my_ipv4_addr.is_unspecified());
    assert!(!o.my_link_addr.is_nil());
    assert!(!o.my_link_addr.is_broadcast());
}
