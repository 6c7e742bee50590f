use dhtmsg::discovery::{PeerAddress, SeenPeerSet};
use dhtmsg::identity::derive_infohash;
use dhtmsg::schedule::{AnnounceSchedule, DEFAULT_ANNOUNCE_SECS};
use dhtmsg::session::{PortInfo, PortStrategy, Session};

fn addr(last: u32, port: u16) -> PeerAddress {
    PeerAddress::new(0x0A00_0000 | last, port)
}

#[test]
fn schedule_announces_only_after_interval() {
    let mut s = AnnounceSchedule::new(45, 1_000);
    let ticks: [(u64, bool); 6] = [
        (6_000, false),
        (45_999, false),
        (46_000, true),
        (51_000, false),
        (91_000, true),
        (135_999, false),
    ];
    let mut last = 1_000;
    for (now, expected) in ticks {
        assert_eq!(s.tick(now), expected, "tick at {now}");
        if expected {
            last = now;
        }
        assert_eq!(s.last_announce_ms, last);
        assert_eq!(s.interval_secs, 45);
    }
}

#[test]
fn schedule_clock_going_back_counts_as_no_time() {
    let mut s = AnnounceSchedule::new(DEFAULT_ANNOUNCE_SECS, 10_000);
    assert!(!s.tick(5_000));
    assert_eq!(s.last_announce_ms, 10_000);
    let mut z = AnnounceSchedule::new(0, 10_000);
    assert!(z.tick(5_000));
    assert_eq!(z.last_announce_ms, 5_000);
}

#[test]
fn schedule_with_huge_interval_never_fires() {
    let mut s = AnnounceSchedule::new(u64::MAX, 0);
    assert!(!s.tick(u64::MAX));
    assert!(!s.is_due(u64::MAX));
}

#[test]
fn seen_set_greets_each_address_once() {
    let mut seen = SeenPeerSet::new();
    let a = addr(1, 6881);
    let b = addr(2, 6881);
    let c = addr(1, 6882);
    let first = seen.take_fresh(&vec![a, b, a, c]);
    assert_eq!(first, vec![a, b, c]);
    let second = seen.take_fresh(&vec![c, a, addr(3, 1)]);
    assert_eq!(second, vec![addr(3, 1)]);
    let third = seen.take_fresh(&vec![a, b, c]);
    assert!(third.is_empty());
    assert_eq!(seen.len(), 4);
    assert!(seen.contains(&a));
    assert!(!seen.contains(&addr(9, 9)));
}

#[test]
fn seen_set_insert_reports_newness() {
    let mut seen = SeenPeerSet::new();
    assert!(seen.insert(addr(1, 1)));
    assert!(!seen.insert(addr(1, 1)));
    assert_eq!(seen.len(), 1);
}

#[test]
fn empty_batch_greets_no_one() {
    let mut seen = SeenPeerSet::new();
    assert!(seen.take_fresh(&Vec::new()).is_empty());
    assert_eq!(seen.len(), 0);
}

#[test]
fn idle_session_never_looks_up_or_greets() {
    let mut s = Session::new(45, 0, None);
    for k in 0..30u64 {
        let plan = s.tick(k * 5_000);
        assert_eq!(plan.lookup, None);
        assert_eq!(plan.announce, k == 9 || k == 18 || k == 27);
        assert!(s.peers_found(&vec![addr(1, 1), addr(2, 2)]).is_empty());
    }
    assert_eq!(s.seen_count(), 0);
    assert_eq!(s.target(), None);
}

#[test]
fn active_session_looks_up_and_greets_once() {
    let key = derive_infohash("ab01").unwrap();
    let mut s = Session::new(45, 0, Some(key));
    let plan = s.tick(5_000);
    assert!(!plan.announce);
    assert_eq!(plan.lookup, Some(key));
    assert_eq!(s.peers_found(&vec![addr(1, 1), addr(1, 1)]), vec![addr(1, 1)]);
    let plan = s.tick(50_000);
    assert!(plan.announce);
    assert_eq!(s.schedule().last_announce_ms, 50_000);
    assert!(s.peers_found(&vec![addr(1, 1)]).is_empty());
    assert!(s.has_seen(&addr(1, 1)));
    assert_eq!(s.seen_count(), 1);
}

#[test]
fn announced_port_prefers_public() {
    let info = PortInfo { local_port: 40000, public_port: Some(51000) };
    assert_eq!(info.announced_port(40000), 51000);
    let info = PortInfo { local_port: 40000, public_port: None };
    assert_eq!(info.announced_port(40001), 40001);
}

#[test]
fn port_strategy_reuse_probed() {
    let info = PortInfo { local_port: 40000, public_port: Some(51000) };
    assert_eq!(PortStrategy::ReuseProbed.bind_port(Some(info)), 40000);
    assert_eq!(PortStrategy::ReuseProbed.announce_port(Some(info), 40000), Some(51000));
    let no_public = PortInfo { local_port: 40000, public_port: None };
    assert_eq!(PortStrategy::ReuseProbed.announce_port(Some(no_public), 40000), Some(40000));
    assert_eq!(PortStrategy::ReuseProbed.bind_port(None), 0);
    assert_eq!(PortStrategy::ReuseProbed.announce_port(None, 41000), Some(41000));
}

#[test]
fn port_strategy_ephemeral() {
    let info = PortInfo { local_port: 40000, public_port: Some(51000) };
    assert_eq!(PortStrategy::Ephemeral.bind_port(Some(info)), 0);
    assert_eq!(PortStrategy::Ephemeral.announce_port(Some(info), 41000), None);
}
