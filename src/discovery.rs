//! Peer addresses found by lookups, and the set of those already greeted.
use vstd::prelude::*;

verus! {

/// An IPv4 address and UDP port of a candidate peer.
#[derive(Debug, Clone, Copy, PartialEq, Eq, Hash, Structural)]
pub struct PeerAddress {
    /// The IPv4 address, most significant octet first.
    pub ip: u32,
    pub port: u16,
}

impl PeerAddress {
    pub fn new(ip: u32, port: u16) -> (r: PeerAddress)
        ensures
            r.ip == ip,
            r.port == port,
    {
        PeerAddress { ip, port }
    }
}

/// The addresses of a batch that get a greeting, given the set already seen:
/// each address that is neither seen nor earlier in the batch, in batch order.
pub open spec fn fresh_in_batch(seen: Set<PeerAddress>, batch: Seq<PeerAddress>) -> Seq<PeerAddress>
    decreases batch.len(),
{
    if batch.len() == 0 {
        Seq::empty()
    } else {
        let earlier = batch.drop_last();
        let found = fresh_in_batch(seen, earlier);
        if seen.contains(batch.last()) || earlier.contains(batch.last()) {
            found
        } else {
            found.push(batch.last())
        }
    }
}

/// The addresses seen after a sequence of lookup rounds.
pub open spec fn seen_after(seen: Set<PeerAddress>, rounds: Seq<Seq<PeerAddress>>) -> Set<PeerAddress>
    decreases rounds.len(),
{
    if rounds.len() == 0 {
        seen
    } else {
        seen_after(seen, rounds.drop_last()).union(rounds.last().to_set())
    }
}

/// Every greeting sent over a sequence of lookup rounds, in order.
pub open spec fn greetings_over(seen: Set<PeerAddress>, rounds: Seq<Seq<PeerAddress>>) -> Seq<PeerAddress>
    decreases rounds.len(),
{
    if rounds.len() == 0 {
        Seq::empty()
    } else {
        greetings_over(seen, rounds.drop_last()) + fresh_in_batch(
            seen_after(seen, rounds.drop_last()),
            rounds.last(),
        )
    }
}

/// What one batch yields: no address twice, none already seen, each from the
/// batch; and each address of the batch that was not seen is among them.
pub proof fn lemma_fresh_in_batch(seen: Set<PeerAddress>, batch: Seq<PeerAddress>)
    ensures
        fresh_in_batch(seen, batch).no_duplicates(),
        forall|a: PeerAddress| #[trigger]
            fresh_in_batch(seen, batch).contains(a) <==> (batch.contains(a) && !seen.contains(a)),
    decreases batch.len(),
{
    if batch.len() > 0 {
        let earlier = batch.drop_last();
        lemma_fresh_in_batch(seen, earlier);
        assert forall|a: PeerAddress| batch.contains(a) <==> (earlier.contains(a) || a == batch.last()) by {
            if batch.contains(a) {
                let i = choose|i: int| 0 <= i < batch.len() && batch[i] == a;
                if i < batch.len() - 1 {
                    assert(earlier[i] == a);
                }
            }
            if earlier.contains(a) {
                let i = choose|i: int| 0 <= i < earlier.len() && earlier[i] == a;
                assert(batch[i] == a);
            }
            if a == batch.last() {
                assert(batch[batch.len() - 1] == a);
            }
        }
        let found = fresh_in_batch(seen, earlier);
        let x = batch.last();
        if !(seen.contains(x) || earlier.contains(x)) {
            let grown = found.push(x);
            assert forall|a: PeerAddress| #[trigger] grown.contains(a) <==> (found.contains(a) || a == x) by {
                if grown.contains(a) {
                    let i = choose|i: int| 0 <= i < grown.len() && grown[i] == a;
                    if i < found.len() {
                        assert(found[i] == a);
                    }
                }
                if found.contains(a) {
                    let i = choose|i: int| 0 <= i < found.len() && found[i] == a;
                    assert(grown[i] == a);
                }
                if a == x {
                    assert(grown[found.len() as int] == a);
                }
            }
            assert forall|i: int, j: int| 0 <= i < j < grown.len() implies grown[i] != grown[j] by {
                if j == found.len() {
                    assert(found.contains(grown[i]));
                }
            }
        }
    }
}

/// A greeting goes to an address at most once: over any sequence of lookup
/// rounds, no address is greeted twice, and none that was already seen
/// when the rounds began is greeted at all.
pub proof fn lemma_greeted_at_most_once(seen: Set<PeerAddress>, rounds: Seq<Seq<PeerAddress>>)
    ensures
        greetings_over(seen, rounds).no_duplicates(),
        forall|a: PeerAddress| seen.contains(a) ==> !#[trigger] greetings_over(seen, rounds).contains(a),
        forall|a: PeerAddress| #[trigger]
            greetings_over(seen, rounds).contains(a) ==> seen_after(seen, rounds).contains(a),
        seen.subset_of(seen_after(seen, rounds)),
    decreases rounds.len(),
{
    if rounds.len() > 0 {
        let earlier = rounds.drop_last();
        let before = seen_after(seen, earlier);
        let sent = greetings_over(seen, earlier);
        let fresh = fresh_in_batch(before, rounds.last());
        lemma_greeted_at_most_once(seen, earlier);
        lemma_fresh_in_batch(before, rounds.last());
        let all = sent + fresh;
        assert(all == greetings_over(seen, rounds));
        assert forall|a: PeerAddress| #[trigger] all.contains(a) <==> (sent.contains(a) || fresh.contains(a)) by {
            if all.contains(a) {
                let i = choose|i: int| 0 <= i < all.len() && all[i] == a;
                if i >= sent.len() {
                    assert(fresh[i - sent.len()] == a);
                }
            }
            if sent.contains(a) {
                let i = choose|i: int| 0 <= i < sent.len() && sent[i] == a;
                assert(all[i] == a);
            }
            if fresh.contains(a) {
                let i = choose|i: int| 0 <= i < fresh.len() && fresh[i] == a;
                assert(all[sent.len() + i] == a);
            }
        }
        assert forall|i: int, j: int| 0 <= i < j < all.len() implies all[i] != all[j] by {
            if j < sent.len() {
            } else if i >= sent.len() {
                assert(fresh[i - sent.len()] == all[i]);
                assert(fresh[j - sent.len()] == all[j]);
            } else {
                assert(sent.contains(all[i]));
                assert(fresh[j - sent.len()] == all[j]);
                assert(fresh.contains(all[j]));
            }
        }
        assert forall|a: PeerAddress| #[trigger] fresh.contains(a) implies seen_after(seen, rounds).contains(a) by {
            assert(rounds.last().to_set().contains(a));
        }
    }
}

/// The addresses already greeted in one run of the discovery loop. It only
/// grows; each address is held once.
#[derive(Debug)]
pub struct SeenPeerSet {
    peers: Vec<PeerAddress>,
}

impl View for SeenPeerSet {
    type V = Set<PeerAddress>;

    closed spec fn view(&self) -> Set<PeerAddress> {
        self.peers@.to_set()
    }
}

impl SeenPeerSet {
    /// Each address is held once.
    pub closed spec fn wf(&self) -> bool {
        self.peers@.no_duplicates()
    }

    /// An empty set, as at the start of a discovery run.
    pub fn new() -> (r: SeenPeerSet)
        ensures
            r.wf(),
            r@ == Set::<PeerAddress>::empty(),
    {
        let r = SeenPeerSet { peers: Vec::new() };
        assert(r@ =~= Set::<PeerAddress>::empty());
        r
    }

    /// How many addresses have been seen.
    pub fn len(&self) -> (r: usize)
        requires
            self.wf(),
        ensures
            r == self@.len(),
    {
        proof {
            self.peers@.unique_seq_to_set();
        }
        self.peers.len()
    }

    /// Has `addr` been seen?
    pub fn contains(&self, addr: &PeerAddress) -> (r: bool)
        ensures
            r == self@.contains(*addr),
    {
        let mut i: usize = 0;
        while i < self.peers.len()
            invariant
                0 <= i <= self.peers@.len(),
                forall|j: int| 0 <= j < i ==> self.peers@[j] != *addr,
            decreases self.peers@.len() - i,
        {
            if self.peers[i] == *addr {
                assert(self.peers@.to_set().contains(*addr));
                return true;
            }
            i = i + 1;
        }
        false
    }

    /// Adds `addr`; returns whether it was new.
    pub fn insert(&mut self, addr: PeerAddress) -> (r: bool)
        requires
            old(self).wf(),
        ensures
            final(self).wf(),
            r == !old(self)@.contains(addr),
            final(self)@ == old(self)@.insert(addr),
    {
        if self.contains(&addr) {
            assert(self@.insert(addr) =~= self@);
            false
        } else {
            let ghost before = self.peers@;
            self.peers.push(addr);
            proof {
                assert forall|a: PeerAddress| self.peers@.contains(a) <==> (before.contains(a) || a == addr) by {
                    if self.peers@.contains(a) {
                        let i = choose|i: int| 0 <= i < self.peers@.len() && self.peers@[i] == a;
                        if i < before.len() {
                            assert(before[i] == a);
                        }
                    }
                    if before.contains(a) {
                        let i = choose|i: int| 0 <= i < before.len() && before[i] == a;
                        assert(self.peers@[i] == a);
                    }
                    if a == addr {
                        assert(self.peers@[before.len() as int] == a);
                    }
                }
                assert(self@ =~= old(self)@.insert(addr));
                assert forall|i: int, j: int| 0 <= i < j < self.peers@.len() implies self.peers@[i] != self.peers@[j] by {
                    if j == before.len() {
                        assert(before.contains(self.peers@[i]));
                    }
                }
            }
            true
        }
    }

    /// Takes one batch of lookup results: every address in it is marked seen,
    /// and those that were not seen before are returned, each once and in
    /// batch order, to be greeted.
    pub fn take_fresh(&mut self, batch: &Vec<PeerAddress>) -> (r: Vec<PeerAddress>)
        requires
            old(self).wf(),
        ensures
            final(self).wf(),
            r@ == fresh_in_batch(old(self)@, batch@),
            final(self)@ == old(self)@.union(batch@.to_set()),
    {
        let mut out: Vec<PeerAddress> = Vec::new();
        let mut i: usize = 0;
        while i < batch.len()
            invariant
                0 <= i <= batch@.len(),
                self.wf(),
                out@ == fresh_in_batch(old(self)@, batch@.take(i as int)),
                self@ == old(self)@.union(batch@.take(i as int).to_set()),
            decreases batch@.len() - i,
        {
            let addr = batch[i];
            let ghost prefix = batch@.take(i as int);
            let ghost next = batch@.take(i as int + 1);
            assert(next.drop_last() =~= prefix);
            assert(next.last() == addr);
            assert(self@.contains(addr) <==> (old(self)@.contains(addr) || prefix.contains(addr)));
            if self.insert(addr) {
                out.push(addr);
            }
            proof {
                assert forall|a: PeerAddress| next.contains(a) <==> (prefix.contains(a) || a == addr) by {
                    if next.contains(a) {
                        let k = choose|k: int| 0 <= k < next.len() && next[k] == a;
                        if k < prefix.len() {
                            assert(prefix[k] == a);
                        }
                    }
                    if prefix.contains(a) {
                        let k = choose|k: int| 0 <= k < prefix.len() && prefix[k] == a;
                        assert(next[k] == a);
                    }
                    if a == addr {
                        assert(next[i as int] == a);
                    }
                }
                assert(self@ =~= old(self)@.union(next.to_set()));
            }
            i = i + 1;
        }
        assert(batch@.take(batch@.len() as int) =~= batch@);
        out
    }
}

} // verus!
