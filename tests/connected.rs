use connect_info::{connected_from_addrs, Connected, Extra, HttpInfo, SocketAddress};

fn v4(ip: u32, port: u16) -> SocketAddress {
    SocketAddress::V4 { ip, port }
}

fn v6(ip: u128, port: u16) -> SocketAddress {
    SocketAddress::V6 { ip, port, flowinfo: 0, scope_id: 0 }
}

#[test]
fn fresh_descriptor_is_reusable_and_empty() {
    let c = Connected::new();
    assert!(c.is_reusable());
    assert_eq!(c.http_info(), None);
    assert_eq!(c.into_extra(), None);
}

#[test]
fn set_reusable_false_is_read_back() {
    let c = Connected::new().set_reusable(false);
    assert!(!c.is_reusable());
}

#[test]
fn last_set_reusable_wins_around_attach() {
    let info = HttpInfo::new(v4(0x7f00_0001, 8080), v4(0x7f00_0001, 50000));
    let before = Connected::new().set_reusable(false).attach(Extra::Http(info));
    let after = Connected::new().attach(Extra::Http(info)).set_reusable(false);
    assert!(!before.is_reusable());
    assert!(!after.is_reusable());
    let twice = Connected::new().set_reusable(false).set_reusable(true);
    assert!(twice.is_reusable());
    assert_eq!(before.http_info(), Some(info));
    assert_eq!(after.http_info(), Some(info));
}

#[test]
fn second_attach_replaces_first() {
    let first = HttpInfo::new(v4(1, 1), v4(2, 2));
    let second = HttpInfo::new(v6(3, 443), v6(4, 60000));
    let c = Connected::new().attach(Extra::Http(first)).attach(Extra::Http(second));
    let got = c.http_info().unwrap();
    assert_eq!(got, second);
    assert_ne!(got, first);
    assert_eq!(got.remote_addr(), v6(3, 443));
    assert_eq!(c.into_extra(), Some(Extra::Http(second)));
}

#[test]
fn never_attached_is_absent() {
    let c = Connected::new().set_reusable(false);
    assert_eq!(c.http_info(), None);
    assert_eq!(c.into_extra(), None);
}

#[test]
fn both_queries_succeed_attaches_pair() {
    let remote = v4(0x5db8_d822, 80);
    let local = v4(0xc0a8_0002, 51234);
    let c = connected_from_addrs(Some(remote), Some(local));
    assert!(c.is_reusable());
    let info = c.http_info().unwrap();
    assert_eq!(info.remote_addr(), remote);
    assert_eq!(info.local_addr(), local);
    assert_ne!(info.remote_addr(), info.local_addr());
}

#[test]
fn remote_query_fails_attaches_nothing() {
    let c = connected_from_addrs(None, Some(v4(0xc0a8_0002, 51234)));
    assert!(c.is_reusable());
    assert_eq!(c.http_info(), None);
    assert_eq!(c.into_extra(), None);
}

#[test]
fn local_query_fails_attaches_nothing() {
    let c = connected_from_addrs(Some(v6(1, 443)), None);
    assert_eq!(c.http_info(), None);
    assert_eq!(c.into_extra(), None);
}

#[test]
fn both_queries_fail_attaches_nothing() {
    let c = connected_from_addrs(None, None);
    assert!(c.is_reusable());
    assert_eq!(c.http_info(), None);
}

#[test]
fn independent_transports_get_independent_descriptors() {
    let a = connected_from_addrs(Some(v4(10, 80)), Some(v4(11, 4000)));
    let b = connected_from_addrs(Some(v6(20, 443)), Some(v6(21, 5000)));
    let a_again = connected_from_addrs(Some(v4(10, 80)), Some(v4(11, 4000)));
    assert_eq!(a.http_info().unwrap().remote_addr(), v4(10, 80));
    assert_eq!(a.http_info().unwrap().local_addr(), v4(11, 4000));
    assert_eq!(b.http_info().unwrap().remote_addr(), v6(20, 443));
    assert_eq!(b.http_info().unwrap().local_addr(), v6(21, 5000));
    assert_eq!(a.http_info(), a_again.http_info());
}

#[test]
fn http_info_getters_return_each_address() {
    let remote = SocketAddress::V6 { ip: 1, port: 443, flowinfo: 7, scope_id: 3 };
    let local = v4(0x7f00_0001, 1234);
    let info = HttpInfo::new(remote, local);
    assert_eq!(info.remote_addr(), remote);
    assert_eq!(info.local_addr(), local);
}
