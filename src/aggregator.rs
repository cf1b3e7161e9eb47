//! Block-signature aggregation: block hashes are submitted for threshold
//! signing and handed back with their multisignatures strictly in the order
//! in which they were first submitted, however the signatures complete.
use vstd::prelude::*;

use crate::bytes::equal_32;

verus! {

/// A block hash.
#[derive(Clone, Copy, Debug, PartialEq, Eq, Hash)]
pub struct BlockHash(pub [u8; 32]);

impl BlockHash {
    /// Whether two hashes are the same.
    pub fn same(&self, other: &BlockHash) -> (r: bool)
        ensures
            r == (*self == *other),
    {
        equal_32(&self.0, &other.0)
    }
}

/// What the aggregator holds, as mathematical values.
pub struct AggregatorView<S> {
    /// Submitted hashes that have not been handed back yet, oldest first.
    pub hash_queue: Seq<BlockHash>,
    /// Completed multisignatures that have not been handed back yet.
    pub signatures: Map<BlockHash, S>,
    /// Every hash ever submitted, in the order of its first submission.
    pub started: Seq<BlockHash>,
    /// Every hash handed back, in the order it was handed back.
    pub emitted: Seq<BlockHash>,
    /// No further hash will be submitted.
    pub last_hash_placed: bool,
    /// The network's channel of incoming messages has closed.
    pub network_closed: bool,
}

impl<S> AggregatorView<S> {
    /// The hashes handed back and those still queued are, together, exactly
    /// the hashes submitted, each once and in submission order.
    pub open spec fn ordered(&self) -> bool {
        &&& self.emitted + self.hash_queue == self.started
        &&& self.started.no_duplicates()
    }
}

/// The answer to "what is the next signed hash?".
pub enum NextHash<S> {
    /// The oldest pending hash with its multisignature; it leaves the queue.
    Ready(BlockHash, S),
    /// Nothing is queued and no further hash will come: the stream ends.
    Finished,
    /// No progress is possible because the network has gone away.
    Closed,
    /// The oldest pending hash is not signed yet: wait for an event.
    Pending,
}

/// What the aggregator's event loop observed.
pub enum AggregatorEvent<S, D> {
    /// The multicast completed the multisignature of a hash.
    Multisigned(BlockHash, S),
    /// A message the multicast produced for the network, or `None` when that
    /// channel has closed.
    FromMulticast(Option<D>),
    /// A message from the network for the multicast, or `None` when the
    /// network's channel has closed.
    FromNetwork(Option<D>),
}

/// What the event loop must do after an event.
pub enum AggregatorAction<D> {
    /// A multisignature was stored: look at the queue again.
    Stored,
    /// Send this message to every node of the network.
    Broadcast(D),
    /// Hand this message to the multicast.
    Deliver(D),
    /// Nothing to do: keep waiting.
    Continue,
    /// The network has gone away: end the stream with an error.
    NetworkClosed,
}

/// The state after `poll_outcome` is observed.
pub open spec fn after_poll<S>(v: AggregatorView<S>) -> AggregatorView<S> {
    match poll_outcome(v) {
        NextHash::Ready(h, _) => AggregatorView {
            hash_queue: v.hash_queue.drop_first(),
            signatures: v.signatures.remove(h),
            emitted: v.emitted.push(h),
            ..v
        },
        _ => v,
    }
}

/// What polling the aggregator in state `v` answers.
pub open spec fn poll_outcome<S>(v: AggregatorView<S>) -> NextHash<S> {
    if v.hash_queue.len() > 0 && v.signatures.contains_key(v.hash_queue[0]) {
        NextHash::Ready(v.hash_queue[0], v.signatures[v.hash_queue[0]])
    } else if v.hash_queue.len() == 0 && v.last_hash_placed {
        NextHash::Finished
    } else if v.network_closed {
        NextHash::Closed
    } else {
        NextHash::Pending
    }
}

/// The state after polling `n` times from `v`.
pub open spec fn after_polls<S>(v: AggregatorView<S>, n: nat) -> AggregatorView<S>
    decreases n,
{
    if n == 0 {
        v
    } else {
        after_polls(after_poll(v), (n - 1) as nat)
    }
}

/// Once no further hash will be submitted and every queued hash is signed,
/// polling hands back the whole queue in order and then ends the stream
/// instead of waiting.
pub proof fn lemma_drain_then_finish<S>(v: AggregatorView<S>)
    requires
        v.last_hash_placed,
        v.hash_queue.no_duplicates(),
        forall|i: int| 0 <= i < v.hash_queue.len() ==> v.signatures.contains_key(#[trigger] v.hash_queue[i]),
    ensures
        after_polls(v, v.hash_queue.len()).emitted == v.emitted + v.hash_queue,
        after_polls(v, v.hash_queue.len()).hash_queue.len() == 0,
        poll_outcome(after_polls(v, v.hash_queue.len())) is Finished,
    decreases v.hash_queue.len(),
{
    if v.hash_queue.len() == 0 {
        assert(v.emitted + v.hash_queue =~= v.emitted);
    } else {
        let h = v.hash_queue[0];
        let w = after_poll(v);
        assert(w.hash_queue =~= v.hash_queue.drop_first());
        assert forall|i: int| 0 <= i < w.hash_queue.len() implies w.signatures.contains_key(
            #[trigger] w.hash_queue[i],
        ) by {
            assert(w.hash_queue[i] == v.hash_queue[i + 1]);
            assert(v.hash_queue[i + 1] != v.hash_queue[0]);
        }
        assert(w.hash_queue.no_duplicates()) by {
            assert forall|x: int, y: int| 0 <= x < y < w.hash_queue.len() implies w.hash_queue[x]
                != w.hash_queue[y] by {
                assert(v.hash_queue[x + 1] != v.hash_queue[y + 1]);
            }
        }
        lemma_drain_then_finish(w);
        assert(v.hash_queue.len() - 1 == w.hash_queue.len());
        assert(w.emitted + w.hash_queue =~= v.emitted + v.hash_queue);
    }
}

/// Some entry of `entries` is keyed by `h`.
spec fn has_entry<S>(entries: Seq<(BlockHash, S)>, h: BlockHash) -> bool {
    exists|i: int| 0 <= i < entries.len() && entries[i].0 == h
}

/// Hands block hashes to a threshold multicast and returns them, signed, in
/// the order of submission.
pub struct BlockSignatureAggregator<S> {
    signatures: Vec<(BlockHash, S)>,
    signature_map: Ghost<Map<BlockHash, S>>,
    hash_queue: Vec<BlockHash>,
    last_hash_placed: bool,
    started_hashes: Vec<BlockHash>,
    network_closed: bool,
    emitted: Ghost<Seq<BlockHash>>,
}

impl<S> View for BlockSignatureAggregator<S> {
    type V = AggregatorView<S>;

    closed spec fn view(&self) -> AggregatorView<S> {
        AggregatorView {
            hash_queue: self.hash_queue@,
            signatures: self.signature_map@,
            started: self.started_hashes@,
            emitted: self.emitted@,
            last_hash_placed: self.last_hash_placed,
            network_closed: self.network_closed,
        }
    }
}

impl<S> BlockSignatureAggregator<S> {
    /// The stored signatures list each hash once and agree with the view.
    pub closed spec fn wf(&self) -> bool {
        &&& self@.ordered()
        &&& forall|i: int, j: int|
            0 <= i < j < self.signatures@.len() ==> self.signatures@[i].0 != self.signatures@[j].0
        &&& forall|i: int|
            0 <= i < self.signatures@.len() ==> {
                &&& #[trigger] self.signature_map@.contains_key(self.signatures@[i].0)
                &&& self.signature_map@[self.signatures@[i].0] == self.signatures@[i].1
            }
        &&& forall|h: BlockHash|
            #[trigger] self.signature_map@.contains_key(h) ==> has_entry(self.signatures@, h)
    }

    pub fn new() -> (r: Self)
        ensures
            r.wf(),
            r@.hash_queue.len() == 0,
            r@.signatures.is_empty(),
            r@.started.len() == 0,
            r@.emitted.len() == 0,
            !r@.last_hash_placed,
            !r@.network_closed,
    {
        let r = BlockSignatureAggregator {
            signatures: Vec::new(),
            signature_map: Ghost(Map::empty()),
            hash_queue: Vec::new(),
            last_hash_placed: false,
            started_hashes: Vec::new(),
            network_closed: false,
            emitted: Ghost(Seq::empty()),
        };
        assert(r@.emitted + r@.hash_queue =~= r@.started);
        r
    }

    fn was_started(&self, hash: BlockHash) -> (r: bool)
        ensures
            r == self@.started.contains(hash),
    {
        let mut i: usize = 0;
        while i < self.started_hashes.len()
            invariant
                i <= self.started_hashes@.len(),
                forall|j: int| 0 <= j < i ==> self.started_hashes@[j] != hash,
            decreases self.started_hashes@.len() - i,
        {
            if self.started_hashes[i].same(&hash) {
                return true;
            }
            i = i + 1;
        }
        false
    }

    fn signature_index(&self, hash: BlockHash) -> (r: Option<usize>)
        requires
            self.wf(),
        ensures
            match r {
                Some(i) => i < self.signatures@.len() && self.signatures@[i as int].0 == hash,
                None => !self@.signatures.contains_key(hash),
            },
    {
        let mut i: usize = 0;
        while i < self.signatures.len()
            invariant
                i <= self.signatures@.len(),
                forall|j: int| 0 <= j < i ==> self.signatures@[j].0 != hash,
            decreases self.signatures@.len() - i,
        {
            if self.signatures[i].0.same(&hash) {
                return Some(i);
            }
            i = i + 1;
        }
        None
    }

    /// Submits `hash` for signing. A hash submitted before is ignored;
    /// otherwise it joins the queue and `true` tells the caller to start its
    /// multicast.
    pub fn start_aggregation(&mut self, hash: BlockHash) -> (r: bool)
        requires
            old(self).wf(),
        ensures
            final(self).wf(),
            r == !old(self)@.started.contains(hash),
            r ==> final(self)@ == (AggregatorView {
                hash_queue: old(self)@.hash_queue.push(hash),
                started: old(self)@.started.push(hash),
                ..old(self)@
            }),
            !r ==> final(self)@ == old(self)@,
    {
        if self.was_started(hash) {
            return false;
        }
        self.hash_queue.push(hash);
        self.started_hashes.push(hash);
        proof {
            let st = old(self)@.started;
            assert forall|x: int, y: int|
                0 <= x < y < st.len() + 1 implies self@.started[x] != self@.started[y] by {
                if y == st.len() {
                    assert(st.contains(st[x]));
                }
            }
            assert(self@.emitted + self@.hash_queue =~= self@.started);
        }
        true
    }

    /// Records that no further hash will be submitted.
    pub fn notify_last_hash(&mut self)
        requires
            old(self).wf(),
        ensures
            final(self).wf(),
            final(self)@ == (AggregatorView { last_hash_placed: true, ..old(self)@ }),
    {
        self.last_hash_placed = true;
    }

    /// Hands back the oldest submitted hash once it is signed, or says why
    /// it cannot.
    pub fn poll_next(&mut self) -> (r: NextHash<S>)
        requires
            old(self).wf(),
        ensures
            final(self).wf(),
            r == poll_outcome(old(self)@),
            final(self)@ == after_poll(old(self)@),
    {
        if self.hash_queue.len() > 0 {
            let head = self.hash_queue[0];
            match self.signature_index(head) {
                Some(i) => {
                    let ghost old_sigs = self.signatures@;
                    let (hash, signature) = self.signatures.remove(i);
                    let _ = self.hash_queue.remove(0);
                    proof {
                        self.signature_map@ = self.signature_map@.remove(head);
                        self.emitted@ = self.emitted@.push(head);
                        let new_sigs = self.signatures@;
                        assert(new_sigs =~= old_sigs.remove(i as int));
                        assert forall|k: int| 0 <= k < new_sigs.len() implies new_sigs[k] == (
                            if k < i {
                                old_sigs[k]
                            } else {
                                old_sigs[k + 1]
                            }) by {}
                        assert forall|k: int| 0 <= k < new_sigs.len() implies new_sigs[k].0
                            != head by {
                            if k >= i {
                                assert(old_sigs[k + 1].0 != old_sigs[i as int].0);
                            }
                        }
                        assert(self@.emitted + self@.hash_queue =~= self@.started) by {
                            let e = old(self)@.emitted;
                            let q = old(self)@.hash_queue;
                            assert(e + q =~= e.push(head) + q.drop_first());
                        }
                        assert forall|x: int, y: int|
                            0 <= x < y < new_sigs.len() implies new_sigs[x].0 != new_sigs[y].0 by {
                            let ox = if x < i { x } else { x + 1 };
                            let oy = if y < i { y } else { y + 1 };
                            assert(new_sigs[x] == old_sigs[ox] && new_sigs[y] == old_sigs[oy]);
                        }
                        assert forall|h: BlockHash|
                            #[trigger] self.signature_map@.contains_key(h) implies has_entry(
                                new_sigs,
                                h,
                            ) by {
                            assert(old(self).signature_map@.contains_key(h));
                            let k0 = choose|k: int| 0 <= k < old_sigs.len() && old_sigs[k].0 == h;
                            assert(k0 != i);
                            if k0 < i {
                                assert(new_sigs[k0].0 == h);
                            } else {
                                assert(new_sigs[k0 - 1].0 == h);
                            }
                        }
                        assert forall|k: int|
                            0 <= k < new_sigs.len() implies {
                                &&& #[trigger] self.signature_map@.contains_key(new_sigs[k].0)
                                &&& self.signature_map@[new_sigs[k].0] == new_sigs[k].1
                            } by {
                            let ok = if k < i { k } else { k + 1 };
                            assert(new_sigs[k] == old_sigs[ok]);
                            assert(old(self).signature_map@.contains_key(old_sigs[ok].0));
                        }
                    }
                    return NextHash::Ready(hash, signature);
                },
                None => {},
            }
        } else if self.last_hash_placed {
            return NextHash::Finished;
        }
        if self.network_closed {
            NextHash::Closed
        } else {
            NextHash::Pending
        }
    }

    fn store_signature(&mut self, hash: BlockHash, signature: S)
        requires
            old(self).wf(),
        ensures
            final(self).wf(),
            final(self)@ == (AggregatorView {
                signatures: old(self)@.signatures.insert(hash, signature),
                ..old(self)@
            }),
    {
        let ghost sig = signature;
        let ghost old_sigs = self.signatures@;
        let found = self.signature_index(hash);
        match found {
            Some(i) => {
                self.signatures.set(i, (hash, signature));
            },
            None => {
                self.signatures.push((hash, signature));
            },
        }
        proof {
            self.signature_map@ = self.signature_map@.insert(hash, sig);
            let new_sigs = self.signatures@;
            let pos: int = match found {
                Some(i) => i as int,
                None => old_sigs.len() as int,
            };
            assert(new_sigs[pos] == (hash, sig));
            assert forall|k: int| 0 <= k < new_sigs.len() && k != pos implies new_sigs[k]
                == old_sigs[k] && old_sigs[k].0 != hash by {
                if found is None {
                    assert(old(self).signature_map@.contains_key(old_sigs[k].0));
                }
            }
            assert forall|x: int, y: int|
                0 <= x < y < new_sigs.len() implies new_sigs[x].0 != new_sigs[y].0 by {
                if x != pos && y != pos {
                    assert(old_sigs[x].0 != old_sigs[y].0);
                }
            }
            assert forall|h: BlockHash|
                #[trigger] self.signature_map@.contains_key(h) implies has_entry(new_sigs, h) by {
                if h == hash {
                    assert(new_sigs[pos].0 == h);
                } else {
                    let k0 = choose|k: int| 0 <= k < old_sigs.len() && old_sigs[k].0 == h;
                    assert(k0 != pos);
                    assert(new_sigs[k0].0 == h);
                }
            }
            assert forall|k: int|
                0 <= k < new_sigs.len() implies {
                    &&& #[trigger] self.signature_map@.contains_key(new_sigs[k].0)
                    &&& self.signature_map@[new_sigs[k].0] == new_sigs[k].1
                } by {
                if k != pos {
                    assert(old(self).signature_map@.contains_key(old_sigs[k].0));
                }
            }
        }
    }

    /// Applies one event of the event loop and says what the loop must do.
    pub fn handle_event<D>(&mut self, event: AggregatorEvent<S, D>) -> (r: AggregatorAction<D>)
        requires
            old(self).wf(),
        ensures
            final(self).wf(),
            match event {
                AggregatorEvent::Multisigned(h, s) => {
                    &&& r is Stored
                    &&& final(self)@ == (AggregatorView {
                        signatures: old(self)@.signatures.insert(h, s),
                        ..old(self)@
                    })
                },
                AggregatorEvent::FromMulticast(Some(m)) => r == AggregatorAction::Broadcast(m)
                    && final(self)@ == old(self)@,
                AggregatorEvent::FromMulticast(None) => r is Continue && final(self)@ == old(
                    self,
                )@,
                AggregatorEvent::FromNetwork(Some(m)) => r == AggregatorAction::Deliver(m)
                    && final(self)@ == old(self)@,
                AggregatorEvent::FromNetwork(None) => {
                    &&& r is NetworkClosed
                    &&& final(self)@ == (AggregatorView { network_closed: true, ..old(self)@ })
                },
            },
    {
        match event {
            AggregatorEvent::Multisigned(hash, signature) => {
                self.store_signature(hash, signature);
                AggregatorAction::Stored
            },
            AggregatorEvent::FromMulticast(Some(message)) => AggregatorAction::Broadcast(message),
            AggregatorEvent::FromMulticast(None) => AggregatorAction::Continue,
            AggregatorEvent::FromNetwork(Some(message)) => AggregatorAction::Deliver(message),
            AggregatorEvent::FromNetwork(None) => {
                self.network_closed = true;
                AggregatorAction::NetworkClosed
            },
        }
    }

    /// In every state the aggregator can reach, the hashes handed back so far
    /// are the first hashes submitted, in submission order and each once;
    /// the queue holds the rest, in the same order.
    pub proof fn lemma_emission_follows_submission(&self)
        requires
            self.wf(),
        ensures
            self@.emitted + self@.hash_queue == self@.started,
            self@.emitted.no_duplicates(),
            self@.hash_queue.no_duplicates(),
            forall|i: int| 0 <= i < self@.emitted.len() ==> self@.emitted[i] == self@.started[i],
    {
        let e = self@.emitted;
        let q = self@.hash_queue;
        let st = self@.started;
        assert forall|i: int, j: int| 0 <= i < j < e.len() implies e[i] != e[j] by {
            assert(st[i] == e[i] && st[j] == e[j]);
        }
        assert forall|i: int, j: int| 0 <= i < j < q.len() implies q[i] != q[j] by {
            assert(st[e.len() + i] == q[i] && st[e.len() + j] == q[j]);
        }
        assert forall|i: int| 0 <= i < e.len() implies e[i] == st[i] by {
            assert((e + q)[i] == e[i]);
        }
    }
}

} // verus!
