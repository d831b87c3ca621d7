use sockaddr::AddrError;
use sockaddr::AddressFamily;
use sockaddr::GenericIpv4;
use sockaddr::GenericIpv6;
use sockaddr::GenericSocketAddr;
use sockaddr::InetAddr;
use sockaddr::IpAddr;
use sockaddr::Ipv4Addr;
use sockaddr::Ipv6Addr;
use sockaddr::NetlinkAddr;
use sockaddr::PacketAddr;
use sockaddr::SockAddr;
use sockaddr::SysControlAddr;
use sockaddr::UnixAddr;
use sockaddr::sys_control::control_name_request;
use sockaddr::sys_control::MAX_KCTL_NAME;
use sockaddr::unix::SUN_PATH_LEN;

#[test]
fn generic_round_trip_v4() {
    let g = GenericSocketAddr::V4 {
        ip: GenericIpv4 { a: 192, b: 168, c: 1, d: 1 },
        port: 8080,
    };
    let inet = InetAddr::from_generic(&g);
    assert_eq!(inet.to_generic(), g);
}

#[test]
fn generic_round_trip_v6() {
    let g = GenericSocketAddr::V6 {
        ip: GenericIpv6 {
            s0: 0x2001,
            s1: 0x0db8,
            s2: 0,
            s3: 0,
            s4: 0x8d3,
            s5: 0,
            s6: 0,
            s7: 0x42,
        },
        port: 443,
        flowinfo: 0xdeadbeef,
        scope_id: 7,
    };
    let inet = InetAddr::from_generic(&g);
    assert_eq!(inet.to_generic(), g);
}

#[test]
fn byte_order_port_invisible() {
    let ip = IpAddr::V4(Ipv4Addr::new(127, 0, 0, 1));
    let inet = InetAddr::new(ip, 8080);
    assert_eq!(inet.port(), 8080);
}

#[test]
fn byte_order_port_big_endian_on_wire() {
    // 8080 is 0x1f90: the raw view must carry the port high byte first.
    let inet = InetAddr::new(IpAddr::V4(Ipv4Addr::new(127, 0, 0, 1)), 8080);
    let (bytes, len) = SockAddr::new_inet(inet).as_ffi_pair();
    assert_eq!(len, 16);
    assert_eq!(bytes.len(), 16);
    assert_eq!(bytes[0], 2); // IPv4 family code, host order
    assert_eq!(bytes[1], 0);
    assert_eq!(bytes[2], 0x1f);
    assert_eq!(bytes[3], 0x90);
    assert_eq!(&bytes[4..8], &[127, 0, 0, 1]);
}

#[test]
fn unix_path_round_trip() {
    let addr = UnixAddr::new(b"/tmp/sock").unwrap();
    assert_eq!(addr.path(), Some(b"/tmp/sock".to_vec()));
    assert_eq!(addr.as_abstract(), None);
}

#[test]
fn unix_full_buffer_without_terminator() {
    // A path that fills the buffer exactly, with no room for any null byte.
    let path = vec![b'a'; SUN_PATH_LEN];
    let addr = UnixAddr::new(&path).unwrap();
    let got = addr.path().unwrap();
    assert_eq!(got.len(), SUN_PATH_LEN);
    assert_eq!(got, path);
}

#[test]
fn unix_path_stops_at_embedded_nul() {
    let addr = UnixAddr::new(b"/tmp/a\0junk").unwrap();
    assert_eq!(addr.path(), Some(b"/tmp/a".to_vec()));
}

#[test]
fn abstract_namespace() {
    let addr = UnixAddr::new_abstract(b"myapp").unwrap();
    assert_eq!(addr.as_abstract(), Some(b"myapp".to_vec()));
    assert_eq!(addr.path(), None);
}

#[test]
fn oversize_path_rejected() {
    let long = vec![b'a'; SUN_PATH_LEN + 1];
    assert_eq!(UnixAddr::new(&long), Err(AddrError::NameTooLong));
    assert!(SockAddr::new_unix(&long).is_err());
}

#[test]
fn oversize_abstract_rejected() {
    // The implicit leading null leaves room for one byte fewer than the
    // buffer's capacity.
    let long = vec![b'x'; SUN_PATH_LEN];
    assert_eq!(UnixAddr::new_abstract(&long), Err(AddrError::NameTooLong));
    let just_fits = vec![b'x'; SUN_PATH_LEN - 1];
    assert!(UnixAddr::new_abstract(&just_fits).is_ok());
}

#[test]
fn oversize_control_name_rejected() {
    let long = vec![b'c'; MAX_KCTL_NAME + 1];
    assert_eq!(control_name_request(&long), Err(AddrError::NameTooLong));
    assert_eq!(
        SysControlAddr::from_name(&long, 1, 2),
        Err(AddrError::NameTooLong)
    );
    let ok = control_name_request(b"com.example.filter").unwrap();
    assert_eq!(ok.len(), MAX_KCTL_NAME);
    assert_eq!(&ok[..18], b"com.example.filter");
    assert!(ok[18..].iter().all(|&b| b == 0));
}

fn v4_raw(port_hi: u8, port_lo: u8, addr: [u8; 4], padding: [u8; 8]) -> Vec<u8> {
    let mut b = vec![2u8, 0, port_hi, port_lo];
    b.extend_from_slice(&addr);
    b.extend_from_slice(&padding);
    b
}

#[test]
fn equality_ignores_padding() {
    // Two buffers identical except for the uninitialized padding bytes the
    // kernel never promises to zero.
    let b1 = v4_raw(0x01, 0xbb, [192, 168, 1, 1], [0; 8]);
    let b2 = v4_raw(0x01, 0xbb, [192, 168, 1, 1], [0xde, 0xad, 0xbe, 0xef, 1, 2, 3, 4]);
    let a1 = SockAddr::from_libc_sockaddr(Some(&b1)).unwrap();
    let a2 = SockAddr::from_libc_sockaddr(Some(&b2)).unwrap();
    assert_eq!(a1, a2);
}

#[test]
fn equality_respects_meaningful_fields() {
    let b1 = v4_raw(0x01, 0xbb, [192, 168, 1, 1], [0; 8]);
    let b2 = v4_raw(0x01, 0xbc, [192, 168, 1, 1], [0; 8]);
    let b3 = v4_raw(0x01, 0xbb, [192, 168, 1, 2], [0; 8]);
    let a1 = SockAddr::from_libc_sockaddr(Some(&b1)).unwrap();
    let a2 = SockAddr::from_libc_sockaddr(Some(&b2)).unwrap();
    let a3 = SockAddr::from_libc_sockaddr(Some(&b3)).unwrap();
    assert_ne!(a1, a2);
    assert_ne!(a1, a3);
}

#[test]
fn from_raw_dispatches_on_ipv6_family() {
    // sockaddr_in6: family 10, port 443 network order, flow info 5 host
    // order, the loopback address ::1, scope id 9.
    let mut b = vec![10u8, 0, 0x01, 0xbb];
    b.extend_from_slice(&[5, 0, 0, 0]);
    let mut addr = [0u8; 16];
    addr[15] = 1;
    b.extend_from_slice(&addr);
    b.extend_from_slice(&[9, 0, 0, 0]);
    assert_eq!(b.len(), 28);
    let got = SockAddr::from_libc_sockaddr(Some(&b)).unwrap();
    match &got {
        SockAddr::Inet(inet @ InetAddr::V6(sa)) => {
            assert_eq!(inet.port(), 443);
            assert_eq!(sa.sin6_flowinfo, 5);
            assert_eq!(sa.sin6_scope_id, 9);
            assert_eq!(sa.sin6_addr.segments(), [0, 0, 0, 0, 0, 0, 0, 1]);
        }
        other => panic!("wrong variant: {:?}", other),
    }
    assert_eq!(got.family(), AddressFamily::Inet6);
}

#[test]
fn from_raw_rejects_unknown_family_and_null() {
    let b = vec![99u8, 0, 0, 0, 0, 0, 0, 0, 0, 0, 0, 0, 0, 0, 0, 0];
    assert!(SockAddr::from_libc_sockaddr(Some(&b)).is_none());
    assert!(SockAddr::from_libc_sockaddr(None).is_none());
}

#[test]
fn from_raw_rejects_unix_family() {
    // A well-formed Unix address buffer is still refused: its length cannot
    // ride in a bare buffer.
    let unix = SockAddr::new_unix(b"/tmp/sock").unwrap();
    let (bytes, _) = unix.as_ffi_pair();
    assert!(SockAddr::from_libc_sockaddr(Some(&bytes)).is_none());
}

#[test]
fn from_raw_rejects_short_buffer() {
    let b = vec![2u8, 0, 0x1f];
    assert!(SockAddr::from_libc_sockaddr(Some(&b)).is_none());
    let b2 = vec![2u8];
    assert!(SockAddr::from_libc_sockaddr(Some(&b2)).is_none());
}

#[test]
fn from_raw_rejects_packet_with_overlong_hw_len() {
    let mut b = vec![17u8, 0, 0x08, 0x00];
    b.extend_from_slice(&[3, 0, 0, 0]); // ifindex
    b.extend_from_slice(&[1, 0]); // hatype
    b.push(0); // pkttype
    b.push(9); // halen: exceeds the 8-byte storage
    b.extend_from_slice(&[0; 8]);
    assert_eq!(b.len(), 20);
    assert!(SockAddr::from_libc_sockaddr(Some(&b)).is_none());
    let mut ok = b.clone();
    ok[11] = 6;
    assert!(SockAddr::from_libc_sockaddr(Some(&ok)).is_some());
}

#[test]
fn display_ipv4_endpoint() {
    let inet = InetAddr::new(IpAddr::new_v4(192, 168, 1, 1), 443);
    assert_eq!(inet.to_str(), "192.168.1.1:443");
}

#[test]
fn display_ipv6_endpoint() {
    let inet = InetAddr::new(IpAddr::new_v6(0, 0, 0, 0, 0, 0, 0, 1), 443);
    assert_eq!(inet.to_str(), "[::1]:443");
}

#[test]
fn display_unnamed_unix() {
    let addr = UnixAddr::new(b"").unwrap();
    assert_eq!(addr.to_str(), "<unbound UNIX socket>");
    let sock = SockAddr::new_unix(b"").unwrap();
    assert_eq!(sock.to_str(), "<unbound UNIX socket>");
}

#[test]
fn display_unix_path_and_abstract() {
    let addr = UnixAddr::new(b"/tmp/sock").unwrap();
    assert_eq!(addr.to_str(), "/tmp/sock");
    let abst = UnixAddr::new_abstract(b"myapp").unwrap();
    assert_eq!(abst.to_str(), "@myapp");
}

#[test]
fn display_unix_decodes_utf8() {
    // A multi-byte UTF-8 path renders as its characters, not its raw bytes.
    let addr = UnixAddr::new("/tmp/café".as_bytes()).unwrap();
    assert_eq!(addr.to_str(), "/tmp/café");
}

#[test]
fn display_ipv6_forms() {
    assert_eq!(Ipv6Addr::new(0, 0, 0, 0, 0, 0, 0, 0).to_str(), "::");
    assert_eq!(Ipv6Addr::new(0, 0, 0, 0, 0, 0, 0, 1).to_str(), "::1");
    assert_eq!(
        Ipv6Addr::new(0x2001, 0xdb8, 0, 0, 0, 0, 0, 1).to_str(),
        "2001:db8::1"
    );
    assert_eq!(Ipv6Addr::new(1, 0, 0, 0, 0, 0, 0, 0).to_str(), "1::");
    // A lone zero segment is not compressed.
    assert_eq!(
        Ipv6Addr::new(1, 2, 3, 4, 5, 0, 7, 8).to_str(),
        "1:2:3:4:5:0:7:8"
    );
    // The leftmost of two equally long runs is elided.
    assert_eq!(
        Ipv6Addr::new(1, 0, 0, 4, 5, 0, 0, 8).to_str(),
        "1::4:5:0:0:8"
    );
}

#[test]
fn display_ipv4_forms() {
    assert_eq!(Ipv4Addr::new(0, 0, 0, 0).to_str(), "0.0.0.0");
    assert_eq!(Ipv4Addr::any().to_str(), "0.0.0.0");
    assert_eq!(Ipv4Addr::new(255, 255, 255, 255).to_str(), "255.255.255.255");
    assert_eq!(IpAddr::new_v4(10, 0, 0, 7).to_str(), "10.0.0.7");
}

#[test]
fn display_netlink_packet_sys_control() {
    assert_eq!(NetlinkAddr::new(5, 16).to_str(), "pid: 5 groups: 16");
    let p = PacketAddr {
        sll_protocol: 8,
        sll_ifindex: 3,
        sll_hatype: 1,
        sll_pkttype: 0,
        sll_halen: 6,
        sll_addr: [1, 2, 3, 4, 5, 6, 0, 0],
    };
    assert_eq!(p.to_str(), "protocol: 8 ifindex: 3 hatype: 1 halen: 6");
    assert_eq!(SysControlAddr::new(3, 1).to_str(), "id: 3 unit: 1");
}

#[test]
fn family_codes() {
    assert_eq!(AddressFamily::from_i32(1), Some(AddressFamily::Unix));
    assert_eq!(AddressFamily::from_i32(2), Some(AddressFamily::Inet));
    assert_eq!(AddressFamily::from_i32(10), Some(AddressFamily::Inet6));
    assert_eq!(AddressFamily::from_i32(16), Some(AddressFamily::Netlink));
    assert_eq!(AddressFamily::from_i32(17), Some(AddressFamily::Packet));
    // A valid but unhandled family decodes to nothing.
    assert_eq!(AddressFamily::from_i32(5), None);
    assert_eq!(AddressFamily::from_i32(99), None);
    assert_eq!(AddressFamily::Unix.to_i32(), 1);
    assert_eq!(AddressFamily::Inet6.to_i32(), 10);
    assert_eq!(AddressFamily::Vsock.to_i32(), 40);
}

#[test]
fn family_of_each_variant() {
    let v4 = SockAddr::new_inet(InetAddr::new(IpAddr::new_v4(1, 2, 3, 4), 80));
    assert_eq!(v4.family(), AddressFamily::Inet);
    let v6 = SockAddr::new_inet(InetAddr::new(IpAddr::new_v6(0, 0, 0, 0, 0, 0, 0, 1), 80));
    assert_eq!(v6.family(), AddressFamily::Inet6);
    assert_eq!(
        SockAddr::new_unix(b"/run/x").unwrap().family(),
        AddressFamily::Unix
    );
    assert_eq!(SockAddr::new_netlink(0, 0).family(), AddressFamily::Netlink);
}

#[test]
fn ffi_pair_lengths() {
    let unix = SockAddr::new_unix(b"/tmp/sock").unwrap();
    let (bytes, len) = unix.as_ffi_pair();
    assert_eq!(len, 2 + 9);
    assert_eq!(bytes, b"\x01\x00/tmp/sock".to_vec());
    let nl = SockAddr::new_netlink(0x01020304, 0x0a0b0c0d);
    let (bytes, len) = nl.as_ffi_pair();
    assert_eq!(len, 12);
    assert_eq!(bytes, vec![16, 0, 0, 0, 4, 3, 2, 1, 0x0d, 0x0c, 0x0b, 0x0a]);
}

#[test]
fn raw_round_trip_netlink_and_packet() {
    let nl = SockAddr::new_netlink(77, 5);
    let (bytes, _) = nl.as_ffi_pair();
    assert_eq!(SockAddr::from_libc_sockaddr(Some(&bytes)).unwrap(), nl);

    let p = SockAddr::Packet(PacketAddr {
        sll_protocol: 0x0008,
        sll_ifindex: 2,
        sll_hatype: 1,
        sll_pkttype: 4,
        sll_halen: 6,
        sll_addr: [0xaa, 0xbb, 0xcc, 0xdd, 0xee, 0xff, 0, 0],
    });
    let (bytes, len) = p.as_ffi_pair();
    assert_eq!(len, 20);
    assert_eq!(SockAddr::from_libc_sockaddr(Some(&bytes)).unwrap(), p);
}

#[test]
fn raw_round_trip_inet() {
    let v4 = SockAddr::new_inet(InetAddr::new(IpAddr::new_v4(10, 1, 2, 3), 8080));
    let (bytes, _) = v4.as_ffi_pair();
    assert_eq!(SockAddr::from_libc_sockaddr(Some(&bytes)).unwrap(), v4);

    let v6 = SockAddr::new_inet(InetAddr::from_generic(&GenericSocketAddr::V6 {
        ip: GenericIpv6 { s0: 0xfe80, s1: 0, s2: 0, s3: 0, s4: 1, s5: 2, s6: 3, s7: 4 },
        port: 9000,
        flowinfo: 11,
        scope_id: 3,
    }));
    let (bytes, len) = v6.as_ffi_pair();
    assert_eq!(len, 28);
    assert_eq!(SockAddr::from_libc_sockaddr(Some(&bytes)).unwrap(), v6);
}

#[test]
fn unix_equality_bounded_by_used_length() {
    let a = UnixAddr::new(b"/tmp/x").unwrap();
    let b = UnixAddr::new(b"/tmp/x").unwrap();
    let c = UnixAddr::new(b"/tmp/y").unwrap();
    let d = UnixAddr::new(b"/tmp/xx").unwrap();
    assert_eq!(a, b);
    assert_ne!(a, c);
    assert_ne!(a, d);
    let e = UnixAddr::new_abstract(b"tmp").unwrap();
    assert_eq!(e.as_abstract(), Some(b"tmp".to_vec()));
    assert_ne!(a, e);
}

#[test]
fn sockaddr_equality_across_families() {
    let inet = SockAddr::new_inet(InetAddr::new(IpAddr::new_v4(1, 1, 1, 1), 1));
    let unix = SockAddr::new_unix(b"/tmp/q").unwrap();
    let nl = SockAddr::new_netlink(1, 1);
    assert_ne!(inet, unix);
    assert_ne!(inet, nl);
    assert_ne!(unix, nl);
    assert_eq!(nl, SockAddr::new_netlink(1, 1));
}

#[test]
fn ip_accessors() {
    let v4 = Ipv4Addr::new(172, 16, 0, 9);
    assert_eq!(v4.octets(), [172, 16, 0, 9]);
    let v6 = Ipv6Addr::new(0x2001, 0xdb8, 3, 4, 5, 6, 7, 8);
    assert_eq!(v6.segments(), [0x2001, 0xdb8, 3, 4, 5, 6, 7, 8]);
    let inet = InetAddr::new(IpAddr::new_v4(172, 16, 0, 9), 2000);
    match inet.ip() {
        IpAddr::V4(ip) => assert_eq!(ip.octets(), [172, 16, 0, 9]),
        IpAddr::V6(_) => panic!("wrong family"),
    }
}

#[test]
fn sys_control_accessors() {
    let a = SysControlAddr::new(4, 2);
    assert_eq!(a.id(), 4);
    assert_eq!(a.unit(), 2);
    let b = SysControlAddr::from_name(b"com.example.ctl", 4, 2).unwrap();
    assert_eq!(a, b);
    let p = PacketAddr {
        sll_protocol: 0,
        sll_ifindex: 0,
        sll_hatype: 0,
        sll_pkttype: 0,
        sll_halen: 3,
        sll_addr: [9, 8, 7, 0, 0, 0, 0, 0],
    };
    assert_eq!(p.get_addr(), vec![9, 8, 7]);
}

#[test]
fn empty_abstract_name() {
    let addr = UnixAddr::new_abstract(b"").unwrap();
    assert_eq!(addr.as_abstract(), Some(Vec::new()));
    assert_eq!(addr.path(), None);
    assert_eq!(addr.to_str(), "@");
}

#[test]
fn unnamed_unix_has_no_path_or_name() {
    let addr = UnixAddr::new(b"").unwrap();
    assert_eq!(addr.path(), None);
    assert_eq!(addr.as_abstract(), None);
}

#[test]
fn netlink_accessors() {
    let nl = NetlinkAddr::new(1234, 0x30);
    assert_eq!(nl.pid(), 1234);
    assert_eq!(nl.groups(), 0x30);
}

#[test]
fn v6_port_round_trips_through_network_order() {
    let inet = InetAddr::new(IpAddr::new_v6(0xfe80, 0, 0, 0, 0, 0, 0, 2), 65535);
    assert_eq!(inet.port(), 65535);
    let inet0 = InetAddr::new(IpAddr::new_v6(0, 0, 0, 0, 0, 0, 0, 2), 0);
    assert_eq!(inet0.port(), 0);
}

#[test]
fn new_v6_zeroes_flow_and_scope() {
    let inet = InetAddr::new(IpAddr::new_v6(0, 0, 0, 0, 0, 0, 0, 1), 80);
    match inet.to_generic() {
        GenericSocketAddr::V6 { flowinfo, scope_id, port, .. } => {
            assert_eq!(flowinfo, 0);
            assert_eq!(scope_id, 0);
            assert_eq!(port, 80);
        }
        GenericSocketAddr::V4 { .. } => panic!("wrong family"),
    }
}

#[test]
fn ip_equality() {
    assert_eq!(Ipv4Addr::new(1, 2, 3, 4), Ipv4Addr::new(1, 2, 3, 4));
    assert_ne!(Ipv4Addr::new(1, 2, 3, 4), Ipv4Addr::new(1, 2, 3, 5));
    assert_eq!(
        Ipv6Addr::new(1, 2, 3, 4, 5, 6, 7, 8),
        Ipv6Addr::new(1, 2, 3, 4, 5, 6, 7, 8)
    );
    assert_ne!(
        Ipv6Addr::new(1, 2, 3, 4, 5, 6, 7, 8),
        Ipv6Addr::new(1, 2, 3, 4, 5, 6, 7, 9)
    );
}

#[test]
fn display_sockaddr_delegates() {
    let inet = SockAddr::new_inet(InetAddr::new(IpAddr::new_v4(192, 168, 1, 1), 443));
    assert_eq!(inet.to_str(), "192.168.1.1:443");
    let nl = SockAddr::new_netlink(9, 2);
    assert_eq!(nl.to_str(), "pid: 9 groups: 2");
    let unix = SockAddr::new_unix(b"/run/app.sock").unwrap();
    assert_eq!(unix.to_str(), "/run/app.sock");
}

#[test]
fn ipv6_display_hex_digits() {
    assert_eq!(
        Ipv6Addr::new(0xabcd, 0xef01, 0x2345, 0x6789, 0xa, 0xb0, 0xc00, 0xf).to_str(),
        "abcd:ef01:2345:6789:a:b0:c00:f"
    );
}
