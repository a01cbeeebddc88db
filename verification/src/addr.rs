//! Link and network addresses of a stack instance.

use vstd::prelude::*;

verus! {

/// An IPv4 address, held as its four octets in network order.
#[derive(Clone, Copy, Debug, PartialEq, Eq, Structural)]
pub struct Ipv4Addr {
    a: u8,
    b: u8,
    c: u8,
    d: u8,
}

impl View for Ipv4Addr {
    type V = Seq<u8>;

    /// The four octets, most significant first.
    closed spec fn view(&self) -> Seq<u8> {
        seq![self.a, self.b, self.c, self.d]
    }
}

/// Whether every octet of `s` equals `byte`.
pub open spec fn all_octets(s: Seq<u8>, byte: u8) -> bool {
    forall|i: int| 0 <= i < s.len() ==> s[i] == byte
}

impl Ipv4Addr {
    /// The address `a.b.c.d`.
    pub closed spec fn spec_new(a: u8, b: u8, c: u8, d: u8) -> Ipv4Addr {
        Ipv4Addr { a, b, c, d }
    }

    /// The address `a.b.c.d`.
    pub fn new(a: u8, b: u8, c: u8, d: u8) -> (r: Ipv4Addr)
        ensures
            r@ == seq![a, b, c, d],
            r == Ipv4Addr::spec_new(a, b, c, d),
    {
        Ipv4Addr { a, b, c, d }
    }

    /// The address `0.0.0.0`.
    pub fn unspecified() -> (r: Ipv4Addr)
        ensures
            r@ == seq![0u8, 0u8, 0u8, 0u8],
            r.spec_is_unspecified(),
    {
        Ipv4Addr { a: 0, b: 0, c: 0, d: 0 }
    }

    /// The address `255.255.255.255`.
    pub fn broadcast() -> (r: Ipv4Addr)
        ensures
            r@ == seq![255u8, 255u8, 255u8, 255u8],
            r.spec_is_broadcast(),
    {
        Ipv4Addr { a: 255, b: 255, c: 255, d: 255 }
    }

    /// The four octets, most significant first.
    pub fn octets(&self) -> (r: [u8; 4])
        ensures
            r@ == self@,
    {
        [self.a, self.b, self.c, self.d]
    }

    /// `0.0.0.0`: every octet is zero.
    pub open spec fn spec_is_unspecified(&self) -> bool {
        all_octets(self@, 0)
    }

    /// `255.255.255.255`: every octet is all ones.
    pub open spec fn spec_is_broadcast(&self) -> bool {
        all_octets(self@, 255)
    }

    /// Whether this is the unspecified address `0.0.0.0`.
    pub fn is_unspecified(&self) -> (r: bool)
        ensures
            r == self.spec_is_unspecified(),
    {
        let r = self.a == 0 && self.b == 0 && self.c == 0 && self.d == 0;
        assert(self@[0] == self.a && self@[1] == self.b && self@[2] == self.c && self@[3] == self.d);
        r
    }

    /// Whether this is the limited broadcast address `255.255.255.255`.
    pub fn is_broadcast(&self) -> (r: bool)
        ensures
            r == self.spec_is_broadcast(),
    {
        let r = self.a == 255 && self.b == 255 && self.c == 255 && self.d == 255;
        assert(self@[0] == self.a && self@[1] == self.b && self@[2] == self.c && self@[3] == self.d);
        r
    }
}

/// A link-layer (Ethernet) address of six octets.
#[derive(Clone, Copy, Debug)]
pub struct MacAddress {
    octets: [u8; 6],
}

impl View for MacAddress {
    type V = Seq<u8>;

    /// The six octets in transmission order.
    closed spec fn view(&self) -> Seq<u8> {
        self.octets@
    }
}

impl MacAddress {
    /// The address made of the given octets.
    pub fn new(octets: [u8; 6]) -> (r: MacAddress)
        ensures
            r@ == octets@,
    {
        MacAddress { octets }
    }

    /// The nil address `00:00:00:00:00:00`.
    pub fn nil() -> (r: MacAddress)
        ensures
            r@ == seq![0u8, 0u8, 0u8, 0u8, 0u8, 0u8],
            r.spec_is_nil(),
    {
        let r = MacAddress { octets: [0, 0, 0, 0, 0, 0] };
        assert(r@ =~= seq![0u8, 0u8, 0u8, 0u8, 0u8, 0u8]);
        r
    }

    /// The broadcast address `ff:ff:ff:ff:ff:ff`.
    pub fn broadcast() -> (r: MacAddress)
        ensures
            r@ == seq![255u8, 255u8, 255u8, 255u8, 255u8, 255u8],
            r.spec_is_broadcast(),
    {
        let r = MacAddress { octets: [255, 255, 255, 255, 255, 255] };
        assert(r@ =~= seq![255u8, 255u8, 255u8, 255u8, 255u8, 255u8]);
        r
    }

    /// The six octets in transmission order.
    pub fn octets(&self) -> (r: [u8; 6])
        ensures
            r@ == self@,
    {
        self.octets
    }

    /// Every octet is zero.
    pub open spec fn spec_is_nil(&self) -> bool {
        all_octets(self@, 0)
    }

    /// Every octet is all ones.
    pub open spec fn spec_is_broadcast(&self) -> bool {
        all_octets(self@, 255)
    }

    /// Whether every octet equals `byte`.
    fn all_equal(&self, byte: u8) -> (r: bool)
        ensures
            r == all_octets(self@, byte),
    {
        let mut i: usize = 0;
        while i < 6
            invariant
                i <= 6,
                self@.len() == 6,
                forall|j: int| 0 <= j < i ==> self@[j] == byte,
            decreases 6 - i,
        {
            if self.octets[i] != byte {
                return false;
            }
            i = i + 1;
        }
        true
    }

    /// Whether this is the nil address.
    pub fn is_nil(&self) -> (r: bool)
        ensures
            r == self.spec_is_nil(),
    {
        self.all_equal(0)
    }

    /// Whether this is the broadcast address.
    pub fn is_broadcast(&self) -> (r: bool)
        ensures
            r == self.spec_is_broadcast(),
    {
        self.all_equal(255)
    }
}

/// No IPv4 address is both unspecified and the broadcast address.
pub proof fn lemma_ipv4_unspecified_not_broadcast(addr: Ipv4Addr)
    ensures
        !(addr.spec_is_unspecified() && addr.spec_is_broadcast()),
{
    assert(addr@[0] == addr.a);
}

/// No link address is both nil and the broadcast address.
pub proof fn lemma_mac_nil_not_broadcast(addr: MacAddress)
    ensures
        !(addr.spec_is_nil() && addr.spec_is_broadcast()),
{
    assert(addr@.len() == 6);
    assert(addr@[0] == addr.octets@[0]);
}

/// Two IPv4 addresses with the same octets are the same address.
pub proof fn lemma_ipv4_view_equal(a: Ipv4Addr, b: Ipv4Addr)
    ensures
        a@ == b@ <==> a == b,
{
    if a@ == b@ {
        assert(a@[0] == a.a && a@[1] == a.b && a@[2] == a.c && a@[3] == a.d);
        assert(b@[0] == b.a && b@[1] == b.b && b@[2] == b.c && b@[3] == b.d);
    }
}

/// Two link addresses with the same octets are the same address.
pub proof fn lemma_mac_view_equal(a: MacAddress, b: MacAddress)
    ensures
        a@ == b@ <==> a == b,
{
    if a@ == b@ {
        assert(a.octets =~= b.octets);
    }
}

/// The unspecified IPv4 address is `0.0.0.0` and no other: an address is
/// unspecified exactly when its four octets are all zero.
pub proof fn lemma_ipv4_unspecified_iff_zero(addr: Ipv4Addr)
    ensures
        addr.spec_is_unspecified() <==> addr@ == seq![0u8, 0u8, 0u8, 0u8],
        addr.spec_is_unspecified() <==> addr == Ipv4Addr::spec_new(0, 0, 0, 0),
{
    let z = seq![0u8, 0u8, 0u8, 0u8];
    if addr.spec_is_unspecified() {
        assert(addr@ =~= z);
    }
    if addr@ == z {
        assert(z[0] == 0u8 && z[1] == 0u8 && z[2] == 0u8 && z[3] == 0u8);
    }
    lemma_ipv4_view_equal(addr, Ipv4Addr::spec_new(0, 0, 0, 0));
}

/// The broadcast IPv4 address is `255.255.255.255` and no other: an address
/// is broadcast exactly when its four octets are all ones.
pub proof fn lemma_ipv4_broadcast_iff_ones(addr: Ipv4Addr)
    ensures
        addr.spec_is_broadcast() <==> addr@ == seq![255u8, 255u8, 255u8, 255u8],
        addr.spec_is_broadcast() <==> addr == Ipv4Addr::spec_new(255, 255, 255, 255),
{
    let f = seq![255u8, 255u8, 255u8, 255u8];
    if addr.spec_is_broadcast() {
        assert(addr@ =~= f);
    }
    if addr@ == f {
        assert(f[0] == 255u8 && f[1] == 255u8 && f[2] == 255u8 && f[3] == 255u8);
    }
    lemma_ipv4_view_equal(addr, Ipv4Addr::spec_new(255, 255, 255, 255));
}

/// The nil link address is `00:00:00:00:00:00` and no other: an address is
/// nil exactly when its six octets are all zero.
pub proof fn lemma_mac_nil_iff_zero(addr: MacAddress)
    ensures
        addr.spec_is_nil() <==> addr@ == seq![0u8, 0u8, 0u8, 0u8, 0u8, 0u8],
{
    let z = seq![0u8, 0u8, 0u8, 0u8, 0u8, 0u8];
    assert(addr@.len() == 6);
    if addr.spec_is_nil() {
        assert(addr@ =~= z);
    }
    if addr@ == z {
        assert(z[0] == 0u8 && z[1] == 0u8 && z[2] == 0u8 && z[3] == 0u8 && z[4] == 0u8 && z[5]
            == 0u8);
    }
}

/// The broadcast link address is `ff:ff:ff:ff:ff:ff` and no other: an
/// address is broadcast exactly when its six octets are all ones.
pub proof fn lemma_mac_broadcast_iff_ones(addr: MacAddress)
    ensures
        addr.spec_is_broadcast() <==> addr@ == seq![255u8, 255u8, 255u8, 255u8, 255u8, 255u8],
{
    let f = seq![255u8, 255u8, 255u8, 255u8, 255u8, 255u8];
    assert(addr@.len() == 6);
    if addr.spec_is_broadcast() {
        assert(addr@ =~= f);
    }
    if addr@ == f {
        assert(f[0] == 255u8 && f[1] == 255u8 && f[2] == 255u8 && f[3] == 255u8 && f[4] == 255u8
            && f[5] == 255u8);
    }
}

} // verus!
