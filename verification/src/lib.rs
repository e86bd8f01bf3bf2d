//! An in-process, unbounded, multi-consumer broadcast channel.
//!
//! A single logical sender fans each value out to every live subscriber, each
//! of which owns a private unbounded queue. Subscribers whose receiving half
//! has been dropped are pruned lazily during the next send. The broadcaster
//! handle is cheaply clonable; all clones share one registry of subscriber
//! endpoints behind a mutex.

use vstd::prelude::*;
use futures::channel::mpsc::UnboundedReceiver;
use futures::channel::mpsc::UnboundedSender;

mod channel;
mod locking;

verus! {

/// Why a broadcast operation failed.
pub enum BroadcastError<T> {
    /// No subscriber accepted the value; it is handed back undelivered.
    NoReceivers(T),
    /// The registry lock was poisoned: an earlier holder panicked while
    /// holding it. The value passed to `send` is lost in this case.
    Poisoned,
}

impl<T> BroadcastError<T> {
    /// A short description common to both failure kinds.
    pub fn description(&self) -> (r: &'static str)
        ensures
            r@ == "Broadcast problem. Message can't be sent."@,
    {
        "Broadcast problem. Message can't be sent."
    }

    /// A short human-readable message for this failure.
    pub fn message(&self) -> (r: &'static str)
        ensures
            self is NoReceivers ==> r@ == "No receivers for send"@,
            self is Poisoned ==> r@ == "poisoned lock: another task failed"@,
    {
        match self {
            BroadcastError::NoReceivers(_) => "No receivers for send",
            BroadcastError::Poisoned => "poisoned lock: another task failed",
        }
    }
}

/// Unbounded broadcast sender. Any number of receivers can be requested from
/// it, each seeing every value sent after its own `receiver` call. The value
/// type must be clonable, since every live subscriber gets its own copy.
/// Cloning the broadcaster yields another handle to the same registry.
/// Dropping a receiver is fine: its endpoint is pruned on the next send.
#[derive(Clone)]
#[verifier::reject_recursive_types(T)]
pub struct UnboundedBroadcaster<T> {
    sender: std::sync::Arc<std::sync::Mutex<Vec<UnboundedSender<T>>>>,
}

impl<T: Clone> UnboundedBroadcaster<T> {
    /// A fresh broadcaster with no subscribers.
    pub fn new() -> Self {
        UnboundedBroadcaster { sender: std::sync::Arc::new(locking::mutex_new(Vec::new())) }
    }

    /// Send the value, broadcasting a clone of it to every live receiver and
    /// pruning the endpoints whose receiver is gone. Fails with
    /// `NoReceivers`, handing the value back, when no endpoint accepted it;
    /// fails with `Poisoned`, losing the value, when the registry lock is
    /// poisoned.
    pub fn send(&self, msg: T) -> (r: Result<(), BroadcastError<T>>)
        ensures
            r matches Err(BroadcastError::NoReceivers(m)) ==> m == msg,
    {
        match locking::acquire(&self.sender) {
            Err(()) => Err(BroadcastError::Poisoned),
            Ok(mut guard) => {
                let registry = locking::guard_take(&mut guard);
                let kept = fan_out(registry, &msg);
                let delivered = kept.len();
                locking::guard_set(&mut guard, kept);
                delivery_outcome(delivered, msg)
            },
        }
    }

    /// Request a receiver from the broadcaster. Values sent before this call
    /// are missed; values sent after it will be received. Fails only with
    /// `Poisoned`, when the registry lock is poisoned.
    pub fn receiver(&self) -> (r: Result<UnboundedReceiver<T>, BroadcastError<T>>)
        ensures
            r matches Err(e) ==> e is Poisoned,
    {
        let (tx, rx) = channel::channel_pair();
        match locking::acquire(&self.sender) {
            Err(()) => Err(BroadcastError::Poisoned),
            Ok(mut guard) => {
                let mut registry: Vec<UnboundedSender<T>> = locking::guard_take(&mut guard);
                registry.push(tx);
                locking::guard_set(&mut guard, registry);
                Ok(rx)
            },
        }
    }
}

/// The outcome a send reports once its fan-out pass delivered the value to
/// `delivered` endpoints: success exactly when at least one endpoint accepted
/// it, and otherwise `NoReceivers` carrying the value back unchanged.
pub fn delivery_outcome<T>(delivered: usize, msg: T) -> (r: Result<(), BroadcastError<T>>)
    ensures
        delivered > 0 <==> r is Ok,
        delivered == 0 ==> (r matches Err(BroadcastError::NoReceivers(m)) && m == msg),
{
    if delivered > 0 {
        Ok(())
    } else {
        Err(BroadcastError::NoReceivers(msg))
    }
}

/// The subsequence of `s` at the positions where `keep` is true, in order.
pub open spec fn selected<A>(s: Seq<A>, keep: Seq<bool>) -> Seq<A>
    recommends
        s.len() == keep.len(),
    decreases s.len(),
{
    if s.len() == 0 || keep.len() == 0 {
        Seq::empty()
    } else if keep.last() {
        selected(s.drop_last(), keep.drop_last()).push(s.last())
    } else {
        selected(s.drop_last(), keep.drop_last())
    }
}

/// How many endpoints accepted delivery, given the acceptance outcomes.
pub open spec fn count_true(keep: Seq<bool>) -> int
    decreases keep.len(),
{
    if keep.len() == 0 {
        0
    } else {
        count_true(keep.drop_last()) + if keep.last() {
            1int
        } else {
            0int
        }
    }
}

/// Law: a fan-out pass retains exactly the accepting endpoints, so the
/// retained registry's length equals the number of endpoints that accepted
/// delivery — the registry shrinks by exactly the subscribers found gone.
pub proof fn lemma_selected_len<A>(s: Seq<A>, keep: Seq<bool>)
    requires
        s.len() == keep.len(),
    ensures
        selected(s, keep).len() == count_true(keep),
    decreases s.len(),
{
    if s.len() > 0 {
        lemma_selected_len(s.drop_last(), keep.drop_last());
    }
}

/// Law: when every endpoint accepts delivery, the fan-out pass leaves the
/// registry exactly as it was — sending to live subscribers prunes nothing.
pub proof fn lemma_selected_all<A>(s: Seq<A>)
    ensures
        selected(s, Seq::new(s.len(), |i: int| true)) =~= s,
    decreases s.len(),
{
    let keep = Seq::new(s.len(), |i: int| true);
    if s.len() > 0 {
        lemma_selected_all::<A>(s.drop_last());
        assert(keep.drop_last() =~= Seq::new(s.drop_last().len(), |i: int| true));
    }
}

/// Law: when no endpoint accepts delivery — every subscriber's receiver is
/// gone — the fan-out pass empties the registry in that same pass.
pub proof fn lemma_selected_none<A>(s: Seq<A>)
    ensures
        selected(s, Seq::new(s.len(), |i: int| false)) =~= Seq::<A>::empty(),
    decreases s.len(),
{
    let keep = Seq::new(s.len(), |i: int| false);
    if s.len() > 0 {
        lemma_selected_none::<A>(s.drop_last());
        assert(keep.drop_last() =~= Seq::new(s.drop_last().len(), |i: int| false));
    }
}

/// One fan-out pass: hand a clone of `value` to every endpoint of `senders`,
/// in registry order, and return exactly the endpoints that accepted it, in
/// the same order. An endpoint rejects the value exactly when its paired
/// receiver is gone, so the endpoints left out are the pruned ones, and the
/// number delivered equals the length of the result.
pub fn fan_out<T: Clone>(senders: Vec<UnboundedSender<T>>, value: &T) -> (kept: Vec<
    UnboundedSender<T>,
>)
    ensures
        kept@.len() <= senders@.len(),
        exists|accepted: Seq<bool>|
            accepted.len() == senders@.len() && kept@ == selected(senders@, accepted),
{
    let ghost orig: Seq<UnboundedSender<T>> = senders@;
    let mut rest = senders;
    let mut rev: Vec<UnboundedSender<T>> = Vec::new();
    while rest.len() > 0
        invariant
            rest@.len() + rev@.len() == orig.len(),
            forall|i: int| 0 <= i < rest@.len() ==> rest@[i] == orig[i],
            forall|i: int| 0 <= i < rev@.len() ==> rev@[i] == orig[orig.len() - 1 - i],
        decreases rest@.len(),
    {
        let s = rest.pop().unwrap();
        rev.push(s);
    }
    let mut kept: Vec<UnboundedSender<T>> = Vec::new();
    let ghost mut accepted: Seq<bool> = Seq::empty();
    while rev.len() > 0
        invariant
            rev@.len() <= orig.len(),
            forall|i: int| 0 <= i < rev@.len() ==> rev@[i] == orig[orig.len() - 1 - i],
            accepted.len() == orig.len() - rev@.len(),
            kept@ == selected(orig.take(accepted.len() as int), accepted),
            kept@.len() <= accepted.len(),
        decreases rev@.len(),
    {
        let ghost j: int = orig.len() - rev@.len();
        let s = rev.pop().unwrap();
        proof {
            assert(s == orig[j]);
        }
        let ok = channel::deliver(&s, value.clone());
        if ok {
            kept.push(s);
        }
        proof {
            let taken = orig.take(j + 1);
            assert(taken.drop_last() =~= orig.take(j));
            assert(accepted.push(ok).drop_last() =~= accepted);
            assert(taken.last() == orig[j]);
            accepted = accepted.push(ok);
        }
    }
    proof {
        assert(orig.take(accepted.len() as int) =~= orig);
    }
    kept
}

} // verus!
