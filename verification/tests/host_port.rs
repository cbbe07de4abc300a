use tcp_connect::host_port::{host_port, AddrError};

#[test]
fn inner_tcp_connect_shared_connect_invalid_addr() {
    assert!(host_port("hostnamewithoutport").is_err());
}

#[test]
fn inner_tcp_connect_shared_connect_invalid_port() {
    assert!(host_port("hostname:invalidport").is_err());
}

#[test]
fn host_port_error_kinds() {
    assert_eq!(host_port("hostnamewithoutport"), Err(AddrError::InvalidFormat));
    assert_eq!(host_port("hostname:invalidport"), Err(AddrError::InvalidPort));
    assert_eq!(host_port(""), Err(AddrError::InvalidFormat));
    assert_eq!(host_port("host:"), Err(AddrError::InvalidPort));
    assert_eq!(host_port("host:+"), Err(AddrError::InvalidPort));
    assert_eq!(host_port("host:-1"), Err(AddrError::InvalidPort));
    assert_eq!(host_port("host:65536"), Err(AddrError::InvalidPort));
    assert_eq!(host_port("host:99999999999999999999"), Err(AddrError::InvalidPort));
    assert_eq!(host_port("host: 80"), Err(AddrError::InvalidPort));
    assert_eq!(host_port("host:8o"), Err(AddrError::InvalidPort));
}

#[test]
fn host_port_splits_at_last_colon() {
    assert_eq!(host_port("localhost:80"), Ok(("localhost", 80)));
    assert_eq!(host_port("127.0.0.1:8080"), Ok(("127.0.0.1", 8080)));
    assert_eq!(host_port("[::1]:443"), Ok(("[::1]", 443)));
    assert_eq!(host_port("a:b:c:1"), Ok(("a:b:c", 1)));
    assert_eq!(host_port(":0"), Ok(("", 0)));
    assert_eq!(host_port("héllo:7"), Ok(("héllo", 7)));
}

#[test]
fn host_port_accepts_what_u16_parsing_accepts() {
    assert_eq!(host_port("h:65535"), Ok(("h", 65535)));
    assert_eq!(host_port("h:+80"), Ok(("h", 80)));
    assert_eq!(host_port("h:0080"), Ok(("h", 80)));
    for port in ["0", "1", "80", "443", "65535", "+1", "00000"] {
        let expected: u16 = port.parse().unwrap();
        assert_eq!(host_port(&format!("x:{}", port)), Ok(("x", expected)));
    }
}

#[test]
fn host_port_round_trip() {
    for host in ["localhost", "a:b", "", "example.com"] {
        for port in [0u16, 1, 80, 65535] {
            assert_eq!(host_port(&format!("{}:{}", host, port)), Ok((host, port)));
        }
    }
}
