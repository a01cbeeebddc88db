//! Options a network stack instance is started with, and their builders.

use crate::addr::{Ipv4Addr, MacAddress};
use crate::config::{ArpConfig, TcpConfig, UdpConfig};
use crate::seed::random_seed;
use vstd::prelude::*;

verus! {

/// One call of a builder of [`Options`], with the value handed to it.
pub enum Build {
    Arp(ArpConfig),
    Ipv4(Ipv4Addr),
    Link(MacAddress),
    Seed([u8; 32]),
    Tcp(TcpConfig),
}

/// Whether the builder call may be made: the address builders take neither
/// the unspecified (nil) nor the broadcast address.
pub open spec fn build_allowed(b: Build) -> bool {
    match b {
        Build::Ipv4(addr) => !addr.spec_is_unspecified() && !addr.spec_is_broadcast(),
        Build::Link(addr) => !addr.spec_is_nil() && !addr.spec_is_broadcast(),
        _ => true,
    }
}

/// Some call in `builds` sets the IPv4 address.
pub open spec fn sets_ipv4(builds: Seq<Build>) -> bool {
    exists|i: int| 0 <= i < builds.len() && #[trigger] builds[i] is Ipv4
}

/// Some call in `builds` sets the link address.
pub open spec fn sets_link(builds: Seq<Build>) -> bool {
    exists|i: int| 0 <= i < builds.len() && #[trigger] builds[i] is Link
}

/// Addresses, random seed and protocol settings of a stack instance.
#[derive(Clone, Debug)]
pub struct Options {
    pub arp: ArpConfig,
    pub my_ipv4_addr: Ipv4Addr,
    pub my_link_addr: MacAddress,
    pub rng_seed: [u8; 32],
    pub tcp: TcpConfig,
    pub udp: UdpConfig,
}

impl Options {
    /// The options with the ARP settings replaced by `value`.
    pub open spec fn with_arp(self, value: ArpConfig) -> Options {
        Options { arp: value, ..self }
    }

    /// The options with the IPv4 address replaced by `value`.
    pub open spec fn with_my_ipv4_addr(self, value: Ipv4Addr) -> Options {
        Options { my_ipv4_addr: value, ..self }
    }

    /// The options with the link address replaced by `value`.
    pub open spec fn with_my_link_addr(self, value: MacAddress) -> Options {
        Options { my_link_addr: value, ..self }
    }

    /// The options with the random seed replaced by `value`.
    pub open spec fn with_rng_seed(self, value: [u8; 32]) -> Options {
        Options { rng_seed: value, ..self }
    }

    /// The options with the TCP settings replaced by `value`.
    pub open spec fn with_tcp(self, value: TcpConfig) -> Options {
        Options { tcp: value, ..self }
    }

    /// The options after the builder call `b`.
    pub open spec fn apply_build(self, b: Build) -> Options {
        match b {
            Build::Arp(v) => self.with_arp(v),
            Build::Ipv4(v) => self.with_my_ipv4_addr(v),
            Build::Link(v) => self.with_my_link_addr(v),
            Build::Seed(v) => self.with_rng_seed(v),
            Build::Tcp(v) => self.with_tcp(v),
        }
    }

    /// The options after the builder calls of `builds`, first to last.
    pub open spec fn apply_builds(self, builds: Seq<Build>) -> Options
        decreases builds.len(),
    {
        if builds.len() == 0 {
            self
        } else {
            self.apply_builds(builds.drop_last()).apply_build(builds.last())
        }
    }

    /// The options a stack starts with before any builder ran, given its seed:
    /// default peer settings, the unspecified IPv4 address and the nil link
    /// address.
    pub open spec fn is_initial(self, seed: [u8; 32]) -> bool {
        &&& self.arp == ArpConfig {}
        &&& self.my_ipv4_addr.spec_is_unspecified()
        &&& self.my_ipv4_addr@ == seq![0u8, 0u8, 0u8, 0u8]
        &&& self.my_link_addr.spec_is_nil()
        &&& self.my_link_addr@ == seq![0u8, 0u8, 0u8, 0u8, 0u8, 0u8]
        &&& self.rng_seed == seed
        &&& self.tcp == TcpConfig {}
        &&& self.udp == UdpConfig {}
    }

    /// Neither address is a broadcast address: what the default options and
    /// every builder keep.
    pub open spec fn addresses_valid(self) -> bool {
        &&& !self.my_ipv4_addr.spec_is_broadcast()
        &&& !self.my_link_addr.spec_is_broadcast()
    }

    /// The initial options with the given random seed.
    pub fn with_seed(rng_seed: [u8; 32]) -> (r: Options)
        ensures
            r.is_initial(rng_seed),
            r.addresses_valid(),
    {
        let r = Options {
            arp: ArpConfig::default(),
            my_ipv4_addr: Ipv4Addr::unspecified(),
            my_link_addr: MacAddress::nil(),
            rng_seed,
            tcp: TcpConfig::default(),
            udp: UdpConfig::default(),
        };
        assert(r.my_ipv4_addr@[0] == 0u8);
        assert(r.my_link_addr@[0] == 0u8);
        r
    }

    /// Replaces the ARP settings.
    pub fn arp(self, value: ArpConfig) -> (r: Self)
        ensures
            r == self.with_arp(value),
            self.addresses_valid() ==> r.addresses_valid(),
    {
        let mut options = self;
        options.arp = value;
        options
    }

    /// Replaces the IPv4 address of this stack; the address must be neither
    /// `0.0.0.0` nor `255.255.255.255`.
    pub fn my_ipv4_addr(self, value: Ipv4Addr) -> (r: Self)
        requires
            !value.spec_is_unspecified(),
            !value.spec_is_broadcast(),
        ensures
            r == self.with_my_ipv4_addr(value),
            !r.my_ipv4_addr.spec_is_unspecified(),
            self.addresses_valid() ==> r.addresses_valid(),
    {
        let mut options = self;
        options.my_ipv4_addr = value;
        options
    }

    /// Replaces the link address of this stack; the address must be neither
    /// nil nor the broadcast address.
    pub fn my_link_addr(self, value: MacAddress) -> (r: Self)
        requires
            !value.spec_is_nil(),
            !value.spec_is_broadcast(),
        ensures
            r == self.with_my_link_addr(value),
            !r.my_link_addr.spec_is_nil(),
            self.addresses_valid() ==> r.addresses_valid(),
    {
        let mut options = self;
        options.my_link_addr = value;
        options
    }

    /// Replaces the random seed.
    pub fn rng_seed(self, value: [u8; 32]) -> (r: Self)
        ensures
            r == self.with_rng_seed(value),
            self.addresses_valid() ==> r.addresses_valid(),
    {
        let mut options = self;
        options.rng_seed = value;
        options
    }

    /// Replaces the TCP settings.
    pub fn tcp(self, value: TcpConfig) -> (r: Self)
        ensures
            r == self.with_tcp(value),
            self.addresses_valid() ==> r.addresses_valid(),
    {
        let mut options = self;
        options.tcp = value;
        options
    }
}

impl Default for Options {
    /// The initial options, seeded from the thread-local random generator.
    fn default() -> (r: Self)
        ensures
            r.is_initial(r.rng_seed),
            r.addresses_valid(),
    {
        let seed = random_seed();
        Options::with_seed(seed)
    }
}

/// A later call of a builder overrides an earlier call of the same builder:
/// only the last value given for a field stays.
pub proof fn lemma_last_value_wins(
    options: Options,
    arp1: ArpConfig,
    arp2: ArpConfig,
    ip1: Ipv4Addr,
    ip2: Ipv4Addr,
    link1: MacAddress,
    link2: MacAddress,
    seed1: [u8; 32],
    seed2: [u8; 32],
    tcp1: TcpConfig,
    tcp2: TcpConfig,
)
    ensures
        options.with_arp(arp1).with_arp(arp2) == options.with_arp(arp2),
        options.with_my_ipv4_addr(ip1).with_my_ipv4_addr(ip2) == options.with_my_ipv4_addr(ip2),
        options.with_my_link_addr(link1).with_my_link_addr(link2) == options.with_my_link_addr(
            link2,
        ),
        options.with_rng_seed(seed1).with_rng_seed(seed2) == options.with_rng_seed(seed2),
        options.with_tcp(tcp1).with_tcp(tcp2) == options.with_tcp(tcp2),
{
}

/// Builders of different fields commute: the options that come out do not
/// depend on the order in which the fields were set.
pub proof fn lemma_builders_commute(
    options: Options,
    arp: ArpConfig,
    ip: Ipv4Addr,
    link: MacAddress,
    seed: [u8; 32],
    tcp: TcpConfig,
)
    ensures
        options.with_arp(arp).with_my_ipv4_addr(ip) == options.with_my_ipv4_addr(ip).with_arp(arp),
        options.with_arp(arp).with_my_link_addr(link) == options.with_my_link_addr(link).with_arp(
            arp,
        ),
        options.with_arp(arp).with_rng_seed(seed) == options.with_rng_seed(seed).with_arp(arp),
        options.with_arp(arp).with_tcp(tcp) == options.with_tcp(tcp).with_arp(arp),
        options.with_my_ipv4_addr(ip).with_my_link_addr(link) == options.with_my_link_addr(
            link,
        ).with_my_ipv4_addr(ip),
        options.with_my_ipv4_addr(ip).with_rng_seed(seed) == options.with_rng_seed(
            seed,
        ).with_my_ipv4_addr(ip),
        options.with_my_ipv4_addr(ip).with_tcp(tcp) == options.with_tcp(tcp).with_my_ipv4_addr(ip),
        options.with_my_link_addr(link).with_rng_seed(seed) == options.with_rng_seed(
            seed,
        ).with_my_link_addr(link),
        options.with_my_link_addr(link).with_tcp(tcp) == options.with_tcp(tcp).with_my_link_addr(
            link,
        ),
        options.with_rng_seed(seed).with_tcp(tcp) == options.with_tcp(tcp).with_rng_seed(seed),
{
}

/// A builder gives back the value it was handed, and leaves every other
/// field as it was.
pub proof fn lemma_builder_reads_back(
    options: Options,
    arp: ArpConfig,
    ip: Ipv4Addr,
    link: MacAddress,
    seed: [u8; 32],
    tcp: TcpConfig,
)
    ensures
        options.with_arp(arp).arp == arp,
        options.with_my_ipv4_addr(ip).my_ipv4_addr == ip,
        options.with_my_link_addr(link).my_link_addr == link,
        options.with_rng_seed(seed).rng_seed == seed,
        options.with_tcp(tcp).tcp == tcp,
        options.with_arp(arp).udp == options.udp,
        options.with_my_ipv4_addr(ip).udp == options.udp,
        options.with_my_link_addr(link).udp == options.udp,
        options.with_rng_seed(seed).udp == options.udp,
        options.with_tcp(tcp).udp == options.udp,
{
}

/// Applying one more builder call after a chain is the same as applying the
/// chain extended by that call.
pub proof fn lemma_apply_builds_push(options: Options, builds: Seq<Build>, b: Build)
    ensures
        options.apply_builds(builds.push(b)) == options.apply_builds(builds).apply_build(b),
        options.apply_builds(Seq::empty()) == options,
{
    assert(builds.push(b).drop_last() =~= builds);
}

/// Options built from the initial options by any chain of builder calls that
/// may be made have no broadcast address, and the IPv4 (link) address is the
/// unspecified (nil) one exactly when no call in the chain set it.
pub proof fn lemma_built_options(start: Options, builds: Seq<Build>)
    requires
        start.is_initial(start.rng_seed),
        forall|i: int| 0 <= i < builds.len() ==> build_allowed(#[trigger] builds[i]),
    ensures
        start.apply_builds(builds).addresses_valid(),
        start.apply_builds(builds).my_ipv4_addr.spec_is_unspecified() <==> !sets_ipv4(builds),
        start.apply_builds(builds).my_link_addr.spec_is_nil() <==> !sets_link(builds),
    decreases builds.len(),
{
    if builds.len() == 0 {
        assert(start.my_ipv4_addr@[0] == 0u8);
        assert(start.my_link_addr@[0] == 0u8);
    } else {
        let prefix = builds.drop_last();
        let last = builds.last();
        assert forall|i: int| 0 <= i < prefix.len() implies build_allowed(#[trigger] prefix[i]) by {
            assert(prefix[i] == builds[i]);
        }
        lemma_built_options(start, prefix);
        assert(build_allowed(builds[builds.len() - 1]));
        if sets_ipv4(prefix) {
            let i = choose|i: int| 0 <= i < prefix.len() && #[trigger] prefix[i] is Ipv4;
            assert(builds[i] is Ipv4);
        }
        if sets_link(prefix) {
            let i = choose|i: int| 0 <= i < prefix.len() && #[trigger] prefix[i] is Link;
            assert(builds[i] is Link);
        }
        if last is Ipv4 {
            assert(builds[builds.len() - 1] is Ipv4);
        } else if sets_ipv4(builds) {
            let i = choose|i: int| 0 <= i < builds.len() && #[trigger] builds[i] is Ipv4;
            assert(prefix[i] is Ipv4);
        }
        if last is Link {
            assert(builds[builds.len() - 1] is Link);
        } else if sets_link(builds) {
            let i = choose|i: int| 0 <= i < builds.len() && #[trigger] builds[i] is Link;
            assert(prefix[i] is Link);
        }
    }
}

} // verus!
