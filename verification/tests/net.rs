use bc_camera::{pick_tcp_sockets, pick_udp_sockets, IpAddr, SocketAddr};

fn v4(s: &str) -> IpAddr {
    let octets: Vec<u8> = s.split('.').map(|part| part.parse().unwrap()).collect();
    IpAddr::V4([octets[0], octets[1], octets[2], octets[3]])
}

fn at(ip: IpAddr, port: u16) -> SocketAddr {
    SocketAddr { ip, port }
}

#[test]
fn tcp_default_port_yields_one_socket_per_addr() {
    let addrs = [v4("10.0.0.1"), v4("10.0.0.2")];
    let out = pick_tcp_sockets(&addrs, None);
    assert_eq!(out, vec![at(addrs[0], 9000), at(addrs[1], 9000)]);
}

#[test]
fn tcp_explicit_9000_is_same_as_none() {
    let addrs = [v4("10.0.0.1")];
    assert_eq!(
        pick_tcp_sockets(&addrs, Some(9000)),
        pick_tcp_sockets(&addrs, None),
    );
}

#[test]
fn tcp_non_standard_port_falls_back_to_9000() {
    let addrs = [v4("10.0.0.5")];
    let out = pick_tcp_sockets(&addrs, Some(9500));
    assert_eq!(out, vec![at(addrs[0], 9500), at(addrs[0], 9000)]);
}

#[test]
fn tcp_empty_addrs_yields_empty_list() {
    let out = pick_tcp_sockets(&[], None);
    assert!(out.is_empty());
    let out = pick_tcp_sockets(&[], Some(9500));
    assert!(out.is_empty());
}

#[test]
fn udp_default_port_yields_2018_and_2015_per_addr() {
    let addrs = [v4("10.0.0.1")];
    let out = pick_udp_sockets(&addrs, None);
    assert_eq!(out, vec![at(addrs[0], 2018), at(addrs[0], 2015)]);
}

#[test]
fn udp_standard_ports_match_default() {
    let addrs = [v4("10.0.0.1")];
    assert_eq!(
        pick_udp_sockets(&addrs, Some(2015)),
        pick_udp_sockets(&addrs, None)
    );
    assert_eq!(
        pick_udp_sockets(&addrs, Some(2018)),
        pick_udp_sockets(&addrs, None)
    );
}

#[test]
fn udp_non_standard_port_tries_override_then_both_fallbacks() {
    let addrs = [v4("10.0.0.5")];
    let out = pick_udp_sockets(&addrs, Some(2020));
    assert_eq!(
        out,
        vec![at(addrs[0], 2020), at(addrs[0], 2015), at(addrs[0], 2018)]
    );
}

#[test]
fn udp_scales_with_addrs() {
    let addrs = [v4("10.0.0.1"), v4("10.0.0.2")];
    let out = pick_udp_sockets(&addrs, None);
    assert_eq!(out.len(), 4);
}

#[test]
fn candidates_go_address_by_address() {
    let addrs = [v4("10.0.0.1"), IpAddr::V6([0xfe80, 0, 0, 0, 0, 0, 0, 1])];
    assert_eq!(
        pick_tcp_sockets(&addrs, Some(80)),
        vec![
            at(addrs[0], 80),
            at(addrs[0], 9000),
            at(addrs[1], 80),
            at(addrs[1], 9000),
        ]
    );
    assert_eq!(
        pick_udp_sockets(&addrs, Some(80)),
        vec![
            at(addrs[0], 80),
            at(addrs[0], 2015),
            at(addrs[0], 2018),
            at(addrs[1], 80),
            at(addrs[1], 2015),
            at(addrs[1], 2018),
        ]
    );
}

#[test]
fn candidate_lists_concatenate_without_duplicates() {
    let (a, b, c) = (v4("10.0.0.1"), v4("10.0.0.2"), v4("10.0.0.3"));
    for port in [None, Some(9000), Some(2015), Some(2018), Some(9500)] {
        let mut tcp = pick_tcp_sockets(&[a], port);
        tcp.extend(pick_tcp_sockets(&[b, c], port));
        assert_eq!(pick_tcp_sockets(&[a, b, c], port), tcp);
        let mut udp = pick_udp_sockets(&[a], port);
        udp.extend(pick_udp_sockets(&[b, c], port));
        assert_eq!(pick_udp_sockets(&[a, b, c], port), udp);
        for list in [tcp, udp] {
            for (i, socket) in list.iter().enumerate() {
                assert!(!list[..i].contains(socket));
            }
        }
    }
}
