//! Broadcast hub: the live subscriber registry and its fan-out.
//!
//! `subscribe` registers a fresh unbounded outbound queue under a
//! monotonically increasing, never reused client id; `publish` hands a
//! duplicate of one event to every registered subscriber and, in the
//! same pass, lazily prunes every subscriber whose receiving end is
//! gone.  Queues are unbounded: a slow subscriber accumulates an
//! unbounded backlog in memory until its receiving end is dropped — a
//! deliberate simplicity/robustness trade-off, at the price of a
//! resource-exhaustion risk under pathological subscriber behaviour.

use vstd::prelude::*;
use crate::events::DomainEvent;

verus! {

/// tokio's unbounded queue sender, an opaque handle here: one per
/// registered subscriber.
#[verifier::external_type_specification]
#[verifier::external_body]
#[verifier::reject_recursive_types(T)]
pub struct ExUnboundedSender<T>(tokio::sync::mpsc::UnboundedSender<T>);

/// tokio's unbounded queue receiver, an opaque handle here: handed to
/// the subscriber, never read by the hub.
#[verifier::external_type_specification]
#[verifier::external_body]
#[verifier::reject_recursive_types(T)]
pub struct ExUnboundedReceiver<T>(tokio::sync::mpsc::UnboundedReceiver<T>);

/// Relies on tokio's `mpsc::unbounded_channel`: a fresh, connected
/// sender/receiver pair for one subscriber's outbound queue.
#[verifier::external_body]
fn new_event_channel() -> (
    tokio::sync::mpsc::UnboundedSender<DomainEvent>,
    tokio::sync::mpsc::UnboundedReceiver<DomainEvent>,
) {
    tokio::sync::mpsc::unbounded_channel()
}

/// Relies on tokio's `UnboundedSender::send`: a non-blocking enqueue
/// of a duplicate of the event, which succeeds unless the receiving
/// end of the queue is gone.  Whether it succeeds depends on that
/// external state, so nothing is promised of the outcome.
#[verifier::external_body]
fn send_event(tx: &tokio::sync::mpsc::UnboundedSender<DomainEvent>, ev: &DomainEvent) -> bool {
    tx.send(ev.clone()).is_ok()
}

/// One registry entry: a client id and its outbound queue.
pub type Client = (u64, tokio::sync::mpsc::UnboundedSender<DomainEvent>);

/// `s` filtered by the boolean mask `keep`: the elements whose mask
/// position is true, in their original order.
pub open spec fn mask_filter<A>(s: Seq<A>, keep: Seq<bool>) -> Seq<A>
    recommends
        s.len() == keep.len(),
    decreases s.len(),
{
    if s.len() == 0 {
        Seq::empty()
    } else if keep[0] {
        seq![s[0]] + mask_filter(s.skip(1), keep.skip(1))
    } else {
        mask_filter(s.skip(1), keep.skip(1))
    }
}

/// Filtering one more element at the back appends it exactly when its
/// mask bit is true.
pub proof fn lemma_mask_filter_snoc<A>(s: Seq<A>, keep: Seq<bool>, x: A, b: bool)
    requires
        s.len() == keep.len(),
    ensures
        mask_filter(s.push(x), keep.push(b)) == mask_filter(s, keep) + (if b {
            seq![x]
        } else {
            Seq::<A>::empty()
        }),
    decreases s.len(),
{
    let sp = s.push(x);
    let kp = keep.push(b);
    if s.len() == 0 {
        assert(sp.skip(1) =~= Seq::<A>::empty());
        assert(kp.skip(1) =~= Seq::<bool>::empty());
        assert(mask_filter(sp.skip(1), kp.skip(1)) =~= Seq::<A>::empty());
        if b {
            assert(mask_filter(sp, kp) =~= seq![x]);
            assert(mask_filter(s, keep) + seq![x] =~= seq![x]);
        } else {
            assert(mask_filter(sp, kp) =~= Seq::<A>::empty());
            assert(mask_filter(s, keep) + Seq::<A>::empty() =~= Seq::<A>::empty());
        }
    } else {
        assert(sp.skip(1) =~= s.skip(1).push(x));
        assert(kp.skip(1) =~= keep.skip(1).push(b));
        lemma_mask_filter_snoc(s.skip(1), keep.skip(1), x, b);
        if keep[0] {
            assert(mask_filter(sp, kp) =~= mask_filter(s, keep) + (if b {
                seq![x]
            } else {
                Seq::<A>::empty()
            }));
        } else {
            assert(mask_filter(sp, kp) =~= mask_filter(s, keep) + (if b {
                seq![x]
            } else {
                Seq::<A>::empty()
            }));
        }
    }
}

/// Fan-out law, registry part: a publish pass never adds a
/// subscriber.  Whatever the delivery outcomes were, the registry
/// after a publish holds only clients the registry held before, each
/// at most as often as before (order is unchanged by
/// [`Hub::publish`]'s own contract).
pub proof fn lemma_publish_no_new_clients<A>(s: Seq<A>, keep: Seq<bool>)
    requires
        s.len() == keep.len(),
    ensures
        mask_filter(s, keep).len() <= s.len(),
        forall|x: A| #[trigger] mask_filter(s, keep).contains(x) ==> s.contains(x),
    decreases s.len(),
{
    if s.len() > 0 {
        lemma_publish_no_new_clients(s.skip(1), keep.skip(1));
        let f = mask_filter(s, keep);
        assert forall|x: A| #[trigger] f.contains(x) implies s.contains(x) by {
            let t = mask_filter(s.skip(1), keep.skip(1));
            if keep[0] {
                let i = choose|i: int| 0 <= i < f.len() && f[i] == x;
                if i == 0 {
                    assert(s[0] == x);
                } else {
                    assert(t[i - 1] == x);
                    assert(t.contains(x));
                }
            } else {
                assert(t.contains(x));
            }
            if s.skip(1).contains(x) {
                let j = choose|j: int| 0 <= j < s.skip(1).len() && s.skip(1)[j] == x;
                assert(s[j + 1] == x);
            }
        }
    }
}

/// The ids of a registry fragment, in order.
pub open spec fn client_ids(cs: Seq<Client>) -> Seq<u64> {
    Seq::new(cs.len(), |i: int| cs[i].0)
}

/// Taking ids commutes with filtering by a mask.
pub proof fn lemma_client_ids_mask(cs: Seq<Client>, keep: Seq<bool>)
    requires
        cs.len() == keep.len(),
    ensures
        client_ids(mask_filter(cs, keep)) == mask_filter(client_ids(cs), keep),
    decreases cs.len(),
{
    if cs.len() == 0 {
        assert(client_ids(mask_filter(cs, keep)) =~= mask_filter(client_ids(cs), keep));
    } else {
        lemma_client_ids_mask(cs.skip(1), keep.skip(1));
        assert(client_ids(cs).skip(1) =~= client_ids(cs.skip(1)));
        if keep[0] {
            assert(client_ids(seq![cs[0]] + mask_filter(cs.skip(1), keep.skip(1))) =~= seq![
                cs[0].0,
            ] + client_ids(mask_filter(cs.skip(1), keep.skip(1))));
            assert(client_ids(mask_filter(cs, keep)) =~= mask_filter(client_ids(cs), keep));
        } else {
            assert(client_ids(mask_filter(cs, keep)) =~= mask_filter(client_ids(cs), keep));
        }
    }
}

/// Whether the client ids are strictly increasing along the registry.
pub open spec fn ids_sorted(cs: Seq<Client>) -> bool {
    forall|a: int, b: int| 0 <= a < b < cs.len() ==> #[trigger] cs[a].0 < #[trigger] cs[b].0
}

/// Whether every client id lies below `bound`.
pub open spec fn ids_below(cs: Seq<Client>, bound: u64) -> bool {
    forall|a: int| 0 <= a < cs.len() ==> #[trigger] cs[a].0 < bound
}

/// The broadcast hub: the registry of live subscribers and the
/// process-wide client id counter.  It is the only shared-mutable
/// component; callers serialize access with one mutual-exclusion lock
/// held for the duration of a subscribe or publish call.
pub struct Hub {
    /// Next client id to hand out; ids count up from 1 and are never
    /// reused.
    pub next_id: u64,
    /// The live subscribers in subscription order.
    pub clients: Vec<Client>,
}

impl Hub {
    /// The client ids, in registry order.
    pub open spec fn ids(self) -> Seq<u64> {
        client_ids(self.clients@)
    }

    /// Registry invariant: ids strictly increase along the registry
    /// and all lie below the counter, so no id is ever handed out
    /// twice.
    pub open spec fn wf(self) -> bool {
        ids_sorted(self.clients@) && ids_below(self.clients@, self.next_id)
    }

    /// Fresh hub with no subscribers; the first client gets id 1.
    pub fn new() -> (r: Hub)
        ensures
            r.wf(),
            r.next_id == 1,
            r.clients@.len() == 0,
    {
        Hub { next_id: 1, clients: Vec::new() }
    }

    /// Number of currently registered subscribers.
    pub fn client_count(&self) -> (r: usize)
        ensures
            r == self.clients@.len(),
    {
        self.clients.len()
    }

    /// Register a new subscriber: a fresh id and a fresh unbounded
    /// queue whose receiving end is returned to the caller.
    pub fn subscribe(&mut self) -> (r: (u64, tokio::sync::mpsc::UnboundedReceiver<DomainEvent>))
        requires
            old(self).wf(),
            old(self).next_id < u64::MAX,
        ensures
            final(self).wf(),
            r.0 == old(self).next_id,
            final(self).next_id == old(self).next_id + 1,
            final(self).clients@.len() == old(self).clients@.len() + 1,
            final(self).ids() == old(self).ids().push(r.0),
            // the id is fresh: it was never in the registry before
            forall|i: int|
                0 <= i < old(self).clients@.len() ==> #[trigger] old(self).clients@[i].0 != r.0,
    {
        let id = self.next_id;
        self.next_id = self.next_id + 1;
        let (tx, rx) = new_event_channel();
        self.clients.push((id, tx));
        proof {
            assert(final(self).ids() =~= old(self).ids().push(id));
        }
        (id, rx)
    }

    /// Deliver a duplicate of `ev` to every registered subscriber's
    /// queue, and remove, in the same pass, every subscriber whose
    /// enqueue reports that its receiving end is gone.  The registry
    /// afterwards is the old registry filtered by the per-subscriber
    /// delivery outcomes, in unchanged order; pruning is lazy and only
    /// ever happens here.
    pub fn publish(&mut self, ev: &DomainEvent)
        requires
            old(self).wf(),
        ensures
            final(self).wf(),
            final(self).next_id == old(self).next_id,
            final(self).clients@.len() <= old(self).clients@.len(),
            exists|keep: Seq<bool>|
                keep.len() == old(self).clients@.len() && final(self).clients@
                    == #[trigger] mask_filter(old(self).clients@, keep) && final(self).ids()
                    == mask_filter(old(self).ids(), keep),
    {
        let ghost orig = self.clients@;
        let mut kept: Vec<Client> = Vec::new();
        let ghost mut mask: Seq<bool> = Seq::empty();
        proof {
            assert(orig.take(0) =~= Seq::<Client>::empty());
            assert(orig.skip(0) =~= orig);
        }
        while self.clients.len() > 0
            invariant
                self.next_id == old(self).next_id,
                mask.len() + self.clients@.len() == orig.len(),
                self.clients@ == orig.skip(mask.len() as int),
                kept@ == mask_filter(orig.take(mask.len() as int), mask),
                ids_sorted(self.clients@),
                ids_sorted(kept@),
                ids_below(self.clients@, old(self).next_id),
                ids_below(kept@, old(self).next_id),
                forall|p: int, q: int|
                    0 <= p < kept@.len() && 0 <= q < self.clients@.len() ==> #[trigger] kept@[p].0
                        < #[trigger] self.clients@[q].0,
            decreases self.clients@.len(),
        {
            let ghost pre = self.clients@;
            let c = self.clients.remove(0);
            proof {
                assert(self.clients@ =~= pre.skip(1));
                assert(pre.skip(1) =~= orig.skip(mask.len() as int + 1));
                assert(orig.take(mask.len() as int + 1) =~= orig.take(mask.len() as int).push(c));
                lemma_mask_filter_snoc(orig.take(mask.len() as int), mask, c, true);
                lemma_mask_filter_snoc(orig.take(mask.len() as int), mask, c, false);
            }
            let ok = send_event(&c.1, ev);
            if ok {
                kept.push(c);
                proof {
                    mask = mask.push(true);
                }
            } else {
                proof {
                    mask = mask.push(false);
                }
            }
        }
        self.clients = kept;
        proof {
            assert(orig.take(mask.len() as int) =~= orig);
            lemma_client_ids_mask(orig, mask);
            lemma_publish_no_new_clients(orig, mask);
            assert(mask.len() == orig.len() && self.clients@ == mask_filter(orig, mask)
                && client_ids(self.clients@) == mask_filter(client_ids(orig), mask));
        }
    }
}

} // verus!
