use wallout::util::net::is_socket_addr;

#[test]
fn ipv4_socket_addresses() {
    assert!(is_socket_addr("127.0.0.1:8999"));
    assert!(is_socket_addr("0.0.0.0:0"));
    assert!(is_socket_addr("255.255.255.255:65535"));
    assert!(is_socket_addr("1.2.3.4:0080"));
    assert!(!is_socket_addr("1.2.3.4:65536"));
    assert!(!is_socket_addr("1.2.3.4"));
    assert!(!is_socket_addr("01.2.3.4:80"));
    assert!(!is_socket_addr("1.2.3.0004:80"));
    assert!(!is_socket_addr("256.1.1.1:80"));
    assert!(!is_socket_addr("1.2.3:80"));
    assert!(!is_socket_addr("localhost:80"));
    assert!(!is_socket_addr(""));
}

#[test]
fn ipv6_socket_addresses() {
    assert!(is_socket_addr("[::1]:80"));
    assert!(is_socket_addr("[::]:1"));
    assert!(is_socket_addr("[1:2:3:4:5:6:7:8]:1"));
    assert!(is_socket_addr("[1:2:3:4:5:6:7::]:1"));
    assert!(is_socket_addr("[::ffff:1.2.3.4]:80"));
    assert!(is_socket_addr("[1:2:3:4:5:6:1.2.3.4]:1"));
    assert!(is_socket_addr("[fe80::1%2]:80"));
    assert!(is_socket_addr("[ABCD::ef01]:8"));
    assert!(!is_socket_addr("[1:2:3:4:5:6:7:8:9]:1"));
    assert!(!is_socket_addr("[1::2::3]:1"));
    assert!(!is_socket_addr("[12345::1]:1"));
    assert!(!is_socket_addr("[1:2:3:4:5:6:7:1.2.3.4]:1"));
    assert!(!is_socket_addr("::1:80"));
    assert!(!is_socket_addr("[::1]"));
    assert!(!is_socket_addr("[::1]:80:80"));
}

