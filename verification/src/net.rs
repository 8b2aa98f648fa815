//! Addresses, and the socket candidates that discovery probes.

use vstd::prelude::*;

verus! {

/// An IP address, in the form the wire libraries hand over.
#[derive(Debug, Clone, Copy, PartialEq, Eq, Hash)]
pub enum IpAddr {
    /// The four octets of an IPv4 address.
    V4([u8; 4]),
    /// The eight segments of an IPv6 address.
    V6([u16; 8]),
}

/// An address together with a port.
#[derive(Debug, Clone, Copy, PartialEq, Eq, Hash)]
pub struct SocketAddr {
    /// Where the camera may live.
    pub ip: IpAddr,
    /// The port to try there.
    pub port: u16,
}

/// The port on which cameras listen for TCP.
pub const TCP_PORT: u16 = 9000;

/// The older of the two standard Baichuan UDP ports.
pub const UDP_PORT_LOW: u16 = 2015;

/// The newer of the two standard Baichuan UDP ports.
pub const UDP_PORT_HIGH: u16 = 2018;

/// The TCP candidates, address by address. A port that an operator names is
/// tried ahead of the standard one.
pub open spec fn tcp_candidates(addrs: Seq<IpAddr>, port: Option<u16>) -> Seq<SocketAddr> {
    match port {
        Some(n) if n != TCP_PORT => Seq::new(
            2 * addrs.len(),
            |i: int|
                SocketAddr {
                    ip: addrs[i / 2],
                    port: if i % 2 == 0 {
                        n
                    } else {
                        TCP_PORT
                    },
                },
        ),
        _ => Seq::new(addrs.len(), |i: int| SocketAddr { ip: addrs[i], port: TCP_PORT }),
    }
}

/// The UDP candidates, address by address. A port that an operator names is
/// tried ahead of the standard ones.
pub open spec fn udp_candidates(addrs: Seq<IpAddr>, port: Option<u16>) -> Seq<SocketAddr> {
    match port {
        Some(n) if n != UDP_PORT_LOW && n != UDP_PORT_HIGH => Seq::new(
            3 * addrs.len(),
            |i: int|
                SocketAddr {
                    ip: addrs[i / 3],
                    port: if i % 3 == 0 {
                        n
                    } else if i % 3 == 1 {
                        UDP_PORT_LOW
                    } else {
                        UDP_PORT_HIGH
                    },
                },
        ),
        _ => Seq::new(
            2 * addrs.len(),
            |i: int|
                SocketAddr {
                    ip: addrs[i / 2],
                    port: if i % 2 == 0 {
                        UDP_PORT_HIGH
                    } else {
                        UDP_PORT_LOW
                    },
                },
        ),
    }
}

/// Builds the TCP socket candidates of a camera.
///
/// With no port, or the standard one, each address is tried once. Any other
/// port is tried before the standard one at each address.
pub fn pick_tcp_sockets(addrs: &[IpAddr], port: Option<u16>) -> (sockets: Vec<SocketAddr>)
    ensures
        sockets@ == tcp_candidates(addrs@, port),
{
    let mut sockets: Vec<SocketAddr> = Vec::new();
    for i in 0..addrs.len()
        invariant
            sockets@ == tcp_candidates(addrs@.take(i as int), port),
    {
        match port {
            Some(9000) | None => {
                sockets.push(SocketAddr { ip: addrs[i], port: TCP_PORT });
            },
            Some(n) => {
                sockets.push(SocketAddr { ip: addrs[i], port: n });
                sockets.push(SocketAddr { ip: addrs[i], port: TCP_PORT });
            },
        }
        assert(sockets@ =~= tcp_candidates(addrs@.take(i + 1), port));
    }
    assert(addrs@.take(addrs@.len() as int) =~= addrs@);
    sockets
}

/// Builds the UDP socket candidates of a camera.
///
/// With no port, or a standard one, each address is tried at both standard
/// ports. Any other port is tried first, then both standard ports.
pub fn pick_udp_sockets(addrs: &[IpAddr], port: Option<u16>) -> (sockets: Vec<SocketAddr>)
    ensures
        sockets@ == udp_candidates(addrs@, port),
{
    let mut sockets: Vec<SocketAddr> = Vec::new();
    for i in 0..addrs.len()
        invariant
            sockets@ == udp_candidates(addrs@.take(i as int), port),
    {
        match port {
            None | Some(2015) | Some(2018) => {
                sockets.push(SocketAddr { ip: addrs[i], port: UDP_PORT_HIGH });
                sockets.push(SocketAddr { ip: addrs[i], port: UDP_PORT_LOW });
            },
            Some(n) => {
                sockets.push(SocketAddr { ip: addrs[i], port: n });
                sockets.push(SocketAddr { ip: addrs[i], port: UDP_PORT_LOW });
                sockets.push(SocketAddr { ip: addrs[i], port: UDP_PORT_HIGH });
            },
        }
        assert(sockets@ =~= udp_candidates(addrs@.take(i + 1), port));
    }
    assert(addrs@.take(addrs@.len() as int) =~= addrs@);
    sockets
}

/// Naming a standard port explicitly changes nothing.
pub proof fn law_standard_ports_are_the_default(addrs: Seq<IpAddr>)
    ensures
        tcp_candidates(addrs, Some(TCP_PORT)) == tcp_candidates(addrs, None),
        udp_candidates(addrs, Some(UDP_PORT_LOW)) == udp_candidates(addrs, None),
        udp_candidates(addrs, Some(UDP_PORT_HIGH)) == udp_candidates(addrs, None),
{
}

/// The candidate lists grow with the number of addresses: by one or two TCP
/// sockets and by two or three UDP sockets for each.
pub proof fn law_candidates_scale_with_addresses(addrs: Seq<IpAddr>, port: Option<u16>)
    ensures
        tcp_candidates(addrs, port).len() == if port is None || port == Some(TCP_PORT) {
            addrs.len()
        } else {
            2 * addrs.len()
        },
        udp_candidates(addrs, port).len() == if port is None || port == Some(UDP_PORT_LOW)
            || port == Some(UDP_PORT_HIGH) {
            2 * addrs.len()
        } else {
            3 * addrs.len()
        },
{
}

/// Whatever port an operator names, every address is tried at every standard
/// port, and also at the named one.
pub proof fn law_every_address_is_tried_at_every_port(
    addrs: Seq<IpAddr>,
    port: Option<u16>,
    a: int,
)
    requires
        0 <= a < addrs.len(),
    ensures
        tcp_candidates(addrs, port).contains(SocketAddr { ip: addrs[a], port: TCP_PORT }),
        udp_candidates(addrs, port).contains(SocketAddr { ip: addrs[a], port: UDP_PORT_LOW }),
        udp_candidates(addrs, port).contains(SocketAddr { ip: addrs[a], port: UDP_PORT_HIGH }),
        port matches Some(n) ==> tcp_candidates(addrs, port).contains(
            SocketAddr { ip: addrs[a], port: n },
        ),
        port matches Some(n) ==> udp_candidates(addrs, port).contains(
            SocketAddr { ip: addrs[a], port: n },
        ),
{
    let tcp = tcp_candidates(addrs, port);
    let udp = udp_candidates(addrs, port);
    if tcp.len() == addrs.len() {
        assert(tcp[a].ip == addrs[a]);
    } else {
        assert(tcp[2 * a].ip == addrs[a]);
        assert(tcp[2 * a + 1].ip == addrs[a]);
    }
    if udp.len() == 2 * addrs.len() {
        assert(udp[2 * a].ip == addrs[a]);
        assert(udp[2 * a + 1].ip == addrs[a]);
    } else {
        assert(udp[3 * a].ip == addrs[a]);
        assert(udp[3 * a + 1].ip == addrs[a]);
        assert(udp[3 * a + 2].ip == addrs[a]);
    }
}

/// Nothing but the camera's addresses is tried, and nothing but the standard
/// ports and the named one.
pub proof fn law_candidates_are_expected(
    addrs: Seq<IpAddr>,
    port: Option<u16>,
    candidate: SocketAddr,
)
    ensures
        tcp_candidates(addrs, port).contains(candidate) ==> addrs.contains(candidate.ip) && (
        candidate.port == TCP_PORT || port == Some(candidate.port)),
        udp_candidates(addrs, port).contains(candidate) ==> addrs.contains(candidate.ip) && (
        candidate.port == UDP_PORT_LOW || candidate.port == UDP_PORT_HIGH || port == Some(
            candidate.port,
        )),
{
}

/// At each address a port that an operator names is tried before the standard
/// ones.
pub proof fn law_named_port_comes_first(addrs: Seq<IpAddr>, n: u16, a: int)
    requires
        0 <= a < addrs.len(),
    ensures
        n != TCP_PORT ==> tcp_candidates(addrs, Some(n)).subrange(2 * a, 2 * a + 2) == seq![
            SocketAddr { ip: addrs[a], port: n },
            SocketAddr { ip: addrs[a], port: TCP_PORT },
        ],
        n != UDP_PORT_LOW && n != UDP_PORT_HIGH ==> udp_candidates(addrs, Some(n)).subrange(
            3 * a,
            3 * a + 3,
        ) == seq![
            SocketAddr { ip: addrs[a], port: n },
            SocketAddr { ip: addrs[a], port: UDP_PORT_LOW },
            SocketAddr { ip: addrs[a], port: UDP_PORT_HIGH },
        ],
{
}

/// The candidates of a list of addresses are those of its first part, followed
/// by those of the rest.
pub proof fn law_candidates_concatenate(
    front: Seq<IpAddr>,
    back: Seq<IpAddr>,
    port: Option<u16>,
)
    ensures
        tcp_candidates(front + back, port) == tcp_candidates(front, port) + tcp_candidates(
            back,
            port,
        ),
        udp_candidates(front + back, port) == udp_candidates(front, port) + udp_candidates(
            back,
            port,
        ),
{
    assert(tcp_candidates(front + back, port) =~= tcp_candidates(front, port) + tcp_candidates(
        back,
        port,
    ));
    assert(udp_candidates(front + back, port) =~= udp_candidates(front, port) + udp_candidates(
        back,
        port,
    ));
}

/// Where no address occurs twice, no socket is tried twice.
pub proof fn law_no_candidate_is_tried_twice(addrs: Seq<IpAddr>, port: Option<u16>)
    requires
        addrs.no_duplicates(),
    ensures
        tcp_candidates(addrs, port).no_duplicates(),
        udp_candidates(addrs, port).no_duplicates(),
{
}

/// One more address adds its own sockets behind all others, and changes none of
/// them: over TCP the named port, then 9000; over UDP the named port, then 2015
/// and 2018; and with no port of its own 9000, or 2018 and 2015. Without an
/// address there is nothing to try.
pub proof fn law_each_address_adds_its_own_sockets(
    addrs: Seq<IpAddr>,
    ip: IpAddr,
    port: Option<u16>,
)
    ensures
        tcp_candidates(Seq::empty(), port) == Seq::<SocketAddr>::empty(),
        udp_candidates(Seq::empty(), port) == Seq::<SocketAddr>::empty(),
        tcp_candidates(addrs.push(ip), port) == tcp_candidates(addrs, port) + match port {
            None => seq![SocketAddr { ip, port: 9000 }],
            Some(n) => if n == 9000 {
                seq![SocketAddr { ip, port: 9000 }]
            } else {
                seq![SocketAddr { ip, port: n }, SocketAddr { ip, port: 9000 }]
            },
        },
        udp_candidates(addrs.push(ip), port) == udp_candidates(addrs, port) + match port {
            None => seq![SocketAddr { ip, port: 2018 }, SocketAddr { ip, port: 2015 }],
            Some(n) => if n == 2015 || n == 2018 {
                seq![SocketAddr { ip, port: 2018 }, SocketAddr { ip, port: 2015 }]
            } else {
                seq![
                    SocketAddr { ip, port: n },
                    SocketAddr { ip, port: 2015 },
                    SocketAddr { ip, port: 2018 },
                ]
            },
        },
{
    assert(tcp_candidates(addrs.push(ip), port) =~= tcp_candidates(addrs, port) + match port {
        None => seq![SocketAddr { ip, port: 9000 }],
        Some(n) => if n == 9000 {
            seq![SocketAddr { ip, port: 9000 }]
        } else {
            seq![SocketAddr { ip, port: n }, SocketAddr { ip, port: 9000 }]
        },
    });
    assert(udp_candidates(addrs.push(ip), port) =~= udp_candidates(addrs, port) + match port {
        None => seq![SocketAddr { ip, port: 2018 }, SocketAddr { ip, port: 2015 }],
        Some(n) => if n == 2015 || n == 2018 {
            seq![SocketAddr { ip, port: 2018 }, SocketAddr { ip, port: 2015 }]
        } else {
            seq![
                SocketAddr { ip, port: n },
                SocketAddr { ip, port: 2015 },
                SocketAddr { ip, port: 2018 },
            ]
        },
    });
}

} // verus!
