//! The control state of the discovery loop, and of its idle variant when no
//! peer is sought.
use vstd::prelude::*;
use crate::discovery::{fresh_in_batch, PeerAddress, SeenPeerSet};
use crate::identity::RendezvousKey;
use crate::schedule::{announce_due, AnnounceSchedule};

verus! {

/// Pause between two iterations of the loop, in milliseconds.
pub const POLL_INTERVAL_MS: u64 = 5000;

/// The ports resolved at startup: the locally bound one, and the public one
/// that the directory observed through NAT, when it did.
#[derive(Debug, Clone, Copy, PartialEq, Eq)]
pub struct PortInfo {
    pub local_port: u16,
    pub public_port: Option<u16>,
}

impl PortInfo {
    /// The port to announce: the observed public port if known, else the
    /// port the greeting endpoint is bound to.
    pub fn announced_port(&self, bound_port: u16) -> (r: u16)
        ensures
            r == match self.public_port {
                Some(p) => p,
                None => bound_port,
            },
    {
        match self.public_port {
            Some(p) => p,
            None => bound_port,
        }
    }
}

/// How the greeting endpoint's port is chosen and announced.
#[derive(Debug, Clone, Copy, PartialEq, Eq)]
pub enum PortStrategy {
    /// Bind the port that a probe of the directory client used, and announce
    /// its public (NAT-observed) port when one was seen.
    ReuseProbed,
    /// Bind any free port and let the directory imply the announced port.
    Ephemeral,
}

impl PortStrategy {
    /// The port to bind the greeting endpoint to; 0 asks for any free port.
    pub fn bind_port(&self, probed: Option<PortInfo>) -> (r: u16)
        ensures
            r == match (*self, probed) {
                (PortStrategy::ReuseProbed, Some(info)) => info.local_port,
                _ => 0,
            },
    {
        match (*self, probed) {
            (PortStrategy::ReuseProbed, Some(info)) => info.local_port,
            _ => 0,
        }
    }

    /// The port to announce for the key, given the port actually bound; none
    /// means the directory takes the port it observes.
    pub fn announce_port(&self, probed: Option<PortInfo>, bound_port: u16) -> (r: Option<u16>)
        ensures
            r == match (*self, probed) {
                (PortStrategy::ReuseProbed, Some(info)) => Some(
                    match info.public_port {
                        Some(p) => p,
                        None => bound_port,
                    },
                ),
                (PortStrategy::ReuseProbed, None) => Some(bound_port),
                (PortStrategy::Ephemeral, _) => None,
            },
    {
        match (*self, probed) {
            (PortStrategy::ReuseProbed, Some(info)) => Some(info.announced_port(bound_port)),
            (PortStrategy::ReuseProbed, None) => Some(bound_port),
            (PortStrategy::Ephemeral, _) => None,
        }
    }
}

/// The work one iteration asks for.
#[derive(Debug, Clone, Copy, PartialEq, Eq)]
pub struct TickPlan {
    /// Announce the local key now.
    pub announce: bool,
    /// Look this key up now.
    pub lookup: Option<RendezvousKey>,
}

/// State owned by one run of the loop: the announce schedule, the key sought
/// (none in the idle variant), and the addresses already greeted.
#[derive(Debug)]
pub struct Session {
    schedule: AnnounceSchedule,
    target: Option<RendezvousKey>,
    seen: SeenPeerSet,
}

impl Session {
    pub closed spec fn wf(&self) -> bool {
        self.seen.wf()
    }

    pub closed spec fn spec_schedule(&self) -> AnnounceSchedule {
        self.schedule
    }

    pub closed spec fn spec_target(&self) -> Option<RendezvousKey> {
        self.target
    }

    pub closed spec fn spec_seen(&self) -> Set<PeerAddress> {
        self.seen@
    }

    /// A session that starts at `now_ms`, with nothing seen yet. With no
    /// target it is the idle variant.
    pub fn new(interval_secs: u64, now_ms: u64, target: Option<RendezvousKey>) -> (r: Session)
        ensures
            r.wf(),
            r.spec_schedule() == (AnnounceSchedule { last_announce_ms: now_ms, interval_secs }),
            r.spec_target() == target,
            r.spec_seen() == Set::<PeerAddress>::empty(),
    {
        Session {
            schedule: AnnounceSchedule::new(interval_secs, now_ms),
            target,
            seen: SeenPeerSet::new(),
        }
    }

    /// The key sought, if any.
    pub fn target(&self) -> (r: Option<RendezvousKey>)
        ensures
            r == self.spec_target(),
    {
        self.target
    }

    /// The announce schedule.
    pub fn schedule(&self) -> (r: AnnounceSchedule)
        ensures
            r == self.spec_schedule(),
    {
        self.schedule
    }

    /// Number of addresses greeted so far.
    pub fn seen_count(&self) -> (r: usize)
        requires
            self.wf(),
        ensures
            r == self.spec_seen().len(),
    {
        self.seen.len()
    }

    /// Has `addr` been greeted in this session?
    pub fn has_seen(&self, addr: &PeerAddress) -> (r: bool)
        ensures
            r == self.spec_seen().contains(*addr),
    {
        self.seen.contains(addr)
    }

    /// Starts an iteration at `now_ms`: announce when the interval has gone
    /// by, and look the target up on every iteration when there is one. An
    /// idle session never looks anything up.
    pub fn tick(&mut self, now_ms: u64) -> (r: TickPlan)
        requires
            old(self).wf(),
        ensures
            final(self).wf(),
            r.announce == announce_due(
                old(self).spec_schedule().last_announce_ms,
                old(self).spec_schedule().interval_secs,
                now_ms,
            ),
            r.lookup == old(self).spec_target(),
            old(self).spec_target() is None ==> r.lookup is None,
            final(self).spec_schedule().interval_secs == old(self).spec_schedule().interval_secs,
            final(self).spec_schedule().last_announce_ms == if r.announce {
                now_ms
            } else {
                old(self).spec_schedule().last_announce_ms
            },
            final(self).spec_target() == old(self).spec_target(),
            final(self).spec_seen() == old(self).spec_seen(),
    {
        let announce = self.schedule.tick(now_ms);
        TickPlan { announce, lookup: self.target }
    }

    /// Takes one batch of addresses that a lookup produced and returns those
    /// to greet: each address not greeted before in this session, once. An
    /// idle session greets no one and its state does not change.
    pub fn peers_found(&mut self, batch: &Vec<PeerAddress>) -> (r: Vec<PeerAddress>)
        requires
            old(self).wf(),
        ensures
            final(self).wf(),
            final(self).spec_schedule() == old(self).spec_schedule(),
            final(self).spec_target() == old(self).spec_target(),
            old(self).spec_target() is None ==> r@.len() == 0 && final(self).spec_seen() == old(
                self,
            ).spec_seen(),
            old(self).spec_target() is Some ==> r@ == fresh_in_batch(old(self).spec_seen(), batch@)
                && final(self).spec_seen() == old(self).spec_seen().union(batch@.to_set()),
    {
        if self.target.is_none() {
            return Vec::new();
        }
        self.seen.take_fresh(batch)
    }
}

} // verus!
