use tcp_connect::address::{copy_addrs, pick_addr, SocketAddress};

#[test]
fn set_port_changes_only_the_port() {
    let mut a = SocketAddress::V4 { ip: 0x7f000001, port: 0 };
    a.set_port(443);
    assert_eq!(a, SocketAddress::V4 { ip: 0x7f000001, port: 443 });
    assert_eq!(a.port(), 443);
    let mut b = SocketAddress::V6 { ip: 1, port: 1, flowinfo: 2, scope_id: 3 };
    b.set_port(80);
    assert_eq!(b, SocketAddress::V6 { ip: 1, port: 80, flowinfo: 2, scope_id: 3 });
}

#[test]
fn pick_addr_takes_random_modulo_length() {
    let addrs: Vec<SocketAddress> =
        (0u32..3).map(|i| SocketAddress::V4 { ip: i, port: 0 }).collect();
    assert_eq!(pick_addr(&addrs, 0), addrs[0]);
    assert_eq!(pick_addr(&addrs, 4), addrs[1]);
    assert_eq!(pick_addr(&addrs, usize::MAX), addrs[usize::MAX % 3]);
    assert_eq!(copy_addrs(&addrs), addrs);
}
