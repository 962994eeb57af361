use virtio_transport::http::{handle_request, HttpReply};
use virtio_transport::net::{addresses_of, plan_for_event, DhcpEvent, Ipv4Cidr, SocketType};

#[test]
fn lost_lease_clears_addresses_and_route() {
    let plan = plan_for_event(&DhcpEvent::Deconfigured);
    assert!(plan.clear_addresses);
    assert_eq!(plan.set_address, None);
    assert_eq!(plan.set_default_route, None);
    assert!(plan.remove_default_route);
}

#[test]
fn acquired_lease_installs_address_and_router() {
    let addr = Ipv4Cidr { address: 0xc0a8_0105, prefix_len: 24 };
    let plan = plan_for_event(&DhcpEvent::Configured {
        address: addr,
        router: Some(0xc0a8_0101),
    });
    assert!(plan.clear_addresses);
    assert_eq!(plan.set_address, Some(addr));
    assert_eq!(plan.set_default_route, Some(0xc0a8_0101));
    assert!(!plan.remove_default_route);
}

#[test]
fn acquired_lease_without_router_drops_the_route() {
    let addr = Ipv4Cidr { address: 0x0a00_0002, prefix_len: 16 };
    let plan = plan_for_event(&DhcpEvent::Configured { address: addr, router: None });
    assert_eq!(plan.set_address, Some(addr));
    assert_eq!(plan.set_default_route, None);
    assert!(plan.remove_default_route);
}

#[test]
fn addresses_strip_prefix_lengths_in_order() {
    let cidrs = vec![
        Ipv4Cidr { address: 1, prefix_len: 8 },
        Ipv4Cidr { address: 2, prefix_len: 24 },
    ];
    assert_eq!(addresses_of(&cidrs), vec![1, 2]);
}

#[test]
fn socket_types_are_told_apart() {
    assert_ne!(SocketType::Udp, SocketType::Tcp);
    assert_ne!(SocketType::Tcp, SocketType::Icmp);
}

#[test]
fn get_request_earns_the_canned_page() {
    let request = b"GET /index.html HTTP/1.1\r\nHost: example\r\n\r\n".to_vec();
    match handle_request(&request) {
        HttpReply::Response(s) => {
            assert_eq!(
                s.as_str(),
                "HTTP/1.1 200 OK\nServer: D3OS httpd\nConnection: close\nContent-Type: text/plain; charset=UTF-8\n\nHello from D3OS!\n\n"
            );
        },
        other => panic!("expected a response, got {:?}", other),
    }
}

#[test]
fn other_methods_are_reported_unknown() {
    let request = b"POST /submit HTTP/1.1\r\nHost: example\r\n\r\n".to_vec();
    match handle_request(&request) {
        HttpReply::UnknownMethod(m) => assert_eq!(m, b"POST".to_vec()),
        other => panic!("expected an unknown method, got {:?}", other),
    }
}

#[test]
fn garbage_is_malformed() {
    let request = vec![0xffu8, 0xfe, 0x00, 0x0a];
    assert_eq!(handle_request(&request), HttpReply::Malformed);
}
