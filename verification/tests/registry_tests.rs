use tun_bridge::config::Config;
use tun_bridge::dispatch::{accept_connection, AcceptOutcome};
use tun_bridge::flow::{ipv4, FlowIdentity, Protocol};
use tun_bridge::registry::Registry;
use tun_bridge::router::{note_datagram_sent, route_datagram, RouteOutcome};
use tun_bridge::session::SessionRecord;

fn record(now: u64, timeout_secs: u64) -> SessionRecord {
    SessionRecord {
        created_at: now,
        last_activity: now,
        timeout_secs,
    }
}

#[test]
fn empty_registry_has_nothing() {
    let reg = Registry::new();
    let id = FlowIdentity::tcp(ipv4(10, 0, 0, 1), 5000, ipv4(1, 2, 3, 4), 80);
    assert_eq!(reg.len(), 0);
    assert!(!reg.contains(id));
    assert_eq!(reg.get(id), None);
    assert_eq!(reg.identities(), Vec::<FlowIdentity>::new());
}

#[test]
fn insert_if_absent_registers_once() {
    let mut reg = Registry::new();
    let id = FlowIdentity::tcp(ipv4(10, 0, 0, 1), 5000, ipv4(1, 2, 3, 4), 80);
    assert!(reg.insert_if_absent(id, record(7, 10)));
    assert!(reg.contains(id));
    assert_eq!(reg.len(), 1);
    assert_eq!(reg.get(id), Some(record(7, 10)));
    // A second insert under the same identity changes nothing.
    assert!(!reg.insert_if_absent(id, record(9, 99)));
    assert_eq!(reg.len(), 1);
    assert_eq!(reg.get(id), Some(record(7, 10)));
}

#[test]
fn touch_refreshes_only_live_sessions() {
    let mut reg = Registry::new();
    let id = FlowIdentity::udp(ipv4(10, 0, 0, 1), 6000, ipv4(8, 8, 8, 8), 53);
    assert!(!reg.touch(id, 5));
    assert!(reg.insert_if_absent(id, record(1, 10)));
    assert!(reg.touch(id, 5));
    let rec = reg.get(id).unwrap();
    assert_eq!(rec.created_at, 1);
    assert_eq!(rec.last_activity, 5);
    assert_eq!(rec.timeout_secs, 10);
}

#[test]
fn remove_of_completed_session_is_noop() {
    let mut reg = Registry::new();
    let id = FlowIdentity::tcp(ipv4(10, 0, 0, 1), 5000, ipv4(1, 2, 3, 4), 80);
    assert!(reg.insert_if_absent(id, record(0, 10)));
    assert!(reg.remove(id));
    assert_eq!(reg.len(), 0);
    // Evicting or removing an identity with no live session is a no-op.
    assert!(!reg.remove(id));
    assert_eq!(reg.len(), 0);
}

#[test]
fn identities_snapshot_lists_each_once() {
    let mut reg = Registry::new();
    let a = FlowIdentity::tcp(ipv4(10, 0, 0, 1), 5000, ipv4(1, 2, 3, 4), 80);
    let b = FlowIdentity::udp(ipv4(10, 0, 0, 1), 6000, ipv4(8, 8, 8, 8), 53);
    assert!(reg.insert_if_absent(a, record(0, 10)));
    assert!(reg.insert_if_absent(b, record(0, 10)));
    let snap = reg.identities();
    assert_eq!(snap.len(), 2);
    assert!(snap.contains(&a));
    assert!(snap.contains(&b));
}

#[test]
fn accepts_with_distinct_identities_each_register() {
    let mut reg = Registry::new();
    let cfg = Config::default();
    let a = FlowIdentity::tcp(ipv4(10, 0, 0, 1), 5000, ipv4(1, 2, 3, 4), 80);
    let b = FlowIdentity::tcp(ipv4(10, 0, 0, 1), 5001, ipv4(1, 2, 3, 4), 80);
    assert_eq!(accept_connection(&mut reg, &cfg, a, 3), AcceptOutcome::Registered);
    assert_eq!(accept_connection(&mut reg, &cfg, b, 4), AcceptOutcome::Registered);
    assert_eq!(reg.len(), 2);
    assert_eq!(reg.get(a), Some(record(3, 10)));
    assert_eq!(reg.get(b), Some(record(4, 10)));
}

#[test]
fn duplicate_accept_rejected_without_touching_original() {
    let mut reg = Registry::new();
    let cfg = Config::default();
    let id = FlowIdentity::tcp(ipv4(10, 0, 0, 1), 5000, ipv4(1, 2, 3, 4), 80);
    assert_eq!(accept_connection(&mut reg, &cfg, id, 3), AcceptOutcome::Registered);
    assert_eq!(
        accept_connection(&mut reg, &cfg, id, 8),
        AcceptOutcome::DuplicateRejected
    );
    assert_eq!(reg.len(), 1);
    assert_eq!(reg.get(id), Some(record(3, 10)));
}

#[test]
fn datagrams_sharing_identity_share_one_session() {
    let mut reg = Registry::new();
    let cfg = Config::default();
    let id = FlowIdentity::udp(ipv4(10, 0, 0, 1), 6000, ipv4(8, 8, 8, 8), 53);
    assert_eq!(route_datagram(&mut reg, &cfg, id, 0), RouteOutcome::NewSession);
    assert_eq!(
        route_datagram(&mut reg, &cfg, id, 1),
        RouteOutcome::DeliverToExisting
    );
    assert_eq!(
        route_datagram(&mut reg, &cfg, id, 4),
        RouteOutcome::DeliverToExisting
    );
    assert_eq!(reg.len(), 1);
    let rec = reg.get(id).unwrap();
    assert_eq!(rec.created_at, 0);
    assert_eq!(rec.last_activity, 4);
}

#[test]
fn sends_refresh_the_activity_clock_too() {
    let mut reg = Registry::new();
    let cfg = Config::default();
    let id = FlowIdentity::udp(ipv4(10, 0, 0, 1), 6000, ipv4(8, 8, 8, 8), 53);
    assert!(!note_datagram_sent(&mut reg, id, 1));
    assert_eq!(route_datagram(&mut reg, &cfg, id, 2), RouteOutcome::NewSession);
    assert!(note_datagram_sent(&mut reg, id, 6));
    assert_eq!(reg.get(id).unwrap().last_activity, 6);
}

#[test]
fn reaper_evicts_idle_sessions_and_keeps_active_ones() {
    let mut reg = Registry::new();
    let idle = FlowIdentity::tcp(ipv4(10, 0, 0, 1), 5000, ipv4(1, 2, 3, 4), 80);
    let busy = FlowIdentity::udp(ipv4(10, 0, 0, 1), 6000, ipv4(8, 8, 8, 8), 53);
    assert!(reg.insert_if_absent(idle, record(0, 10)));
    assert!(reg.insert_if_absent(busy, record(0, 10)));
    assert!(reg.touch(busy, 9));
    let evicted = reg.reap(11);
    assert_eq!(evicted, vec![idle]);
    assert!(!reg.contains(idle));
    assert_eq!(reg.get(busy), Some(SessionRecord { created_at: 0, last_activity: 9, timeout_secs: 10 }));
}

#[test]
fn session_exactly_at_timeout_is_not_yet_idle() {
    let mut reg = Registry::new();
    let id = FlowIdentity::udp(ipv4(10, 0, 0, 1), 6000, ipv4(8, 8, 8, 8), 53);
    assert!(reg.insert_if_absent(id, record(0, 10)));
    let evicted = reg.reap(10);
    assert!(evicted.is_empty());
    assert!(reg.contains(id));
}

#[test]
fn repeated_reaps_evict_each_idle_session_once() {
    let mut reg = Registry::new();
    let a = FlowIdentity::tcp(ipv4(10, 0, 0, 1), 5000, ipv4(1, 2, 3, 4), 80);
    let b = FlowIdentity::udp(ipv4(10, 0, 0, 1), 6000, ipv4(8, 8, 8, 8), 53);
    assert!(reg.insert_if_absent(a, record(0, 10)));
    assert!(reg.insert_if_absent(b, record(0, 10)));
    let first = reg.reap(20);
    assert_eq!(first.len(), 2);
    assert!(first.contains(&a));
    assert!(first.contains(&b));
    // With no new activity, a second scan finds nothing to evict.
    let second = reg.reap(20);
    assert!(second.is_empty());
    let third = reg.reap(100);
    assert!(third.is_empty());
    assert_eq!(reg.len(), 0);
}

#[test]
fn tcp_session_idle_past_timeout_is_evicted() {
    // MTU 1400, tcp timeout 10 s; the connection produces no traffic for
    // 11 s and its identity must be gone afterwards.
    let cfg = Config::default();
    assert_eq!(cfg.mtu, 1400);
    let mut reg = Registry::new();
    let id = FlowIdentity::tcp(ipv4(10, 0, 0, 1), 5000, ipv4(93, 184, 216, 34), 443);
    assert_eq!(accept_connection(&mut reg, &cfg, id, 0), AcceptOutcome::Registered);
    let evicted = reg.reap(11);
    assert_eq!(evicted, vec![id]);
    assert!(!reg.contains(id));
    assert_eq!(reg.len(), 0);
}

#[test]
fn udp_datagrams_two_seconds_apart_share_a_session() {
    // udp timeout 10 s; two datagrams of one identity, 2 s apart.
    let cfg = Config::default();
    assert_eq!(cfg.udp_timeout_secs, 10);
    let mut reg = Registry::new();
    let id = FlowIdentity::udp(ipv4(10, 0, 0, 1), 6000, ipv4(8, 8, 8, 8), 53);
    assert_eq!(route_datagram(&mut reg, &cfg, id, 0), RouteOutcome::NewSession);
    assert_eq!(
        route_datagram(&mut reg, &cfg, id, 2),
        RouteOutcome::DeliverToExisting
    );
    assert_eq!(reg.len(), 1);
    assert_eq!(reg.get(id).unwrap().last_activity, 2);
    assert_eq!(reg.get(id).unwrap().created_at, 0);
}

#[test]
fn identity_distinguishes_protocols_and_ports() {
    let tcp = FlowIdentity::tcp(ipv4(10, 0, 0, 1), 5000, ipv4(1, 2, 3, 4), 80);
    let udp = FlowIdentity::udp(ipv4(10, 0, 0, 1), 5000, ipv4(1, 2, 3, 4), 80);
    assert_ne!(tcp, udp);
    assert_eq!(tcp.protocol, Protocol::Tcp);
    assert_eq!(udp.protocol, Protocol::Udp);
    let mut reg = Registry::new();
    assert!(reg.insert_if_absent(tcp, record(0, 10)));
    assert!(reg.insert_if_absent(udp, record(0, 10)));
    assert_eq!(reg.len(), 2);
}
