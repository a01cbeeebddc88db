# inetstack

The options a network stack instance starts with: its IPv4 and link
addresses, the seed of its random generator and the settings of its ARP,
TCP and UDP peers, with builders whose behaviour is proved with Verus.

- `src/addr.rs`: `Ipv4Addr` and `MacAddress`, viewed as their octets, with
  the unspecified, nil and broadcast checks.
- `src/config.rs`: the peer settings carried by the options.
- `src/options.rs`: `Options`, its builders and the laws they obey (last
  value wins, builders commute, no chain of builder calls yields a broadcast
  address).
- `src/seed.rs`: the random seed drawn from `rand` for the default options.
- `app/`: the logging macros over `log` and the bridge to
  `std::net::Ipv4Addr`.
