//! Trusted declarations for the `futures` unbounded mpsc channel, which gives
//! each subscriber its private queue.
//!
//! Whether a delivery succeeds depends on whether the paired receiver is
//! still alive — state outside this process's verified view — so `deliver`
//! promises nothing about its result; the verified fan-out pass holds for
//! every pattern of outcomes.

use vstd::prelude::*;
use futures::channel::mpsc::UnboundedReceiver;
use futures::channel::mpsc::UnboundedSender;

verus! {

#[verifier::external_type_specification]
#[verifier::external_body]
#[verifier::reject_recursive_types(T)]
pub struct ExUnboundedSender<T>(UnboundedSender<T>);

#[verifier::external_type_specification]
#[verifier::external_body]
#[verifier::reject_recursive_types(T)]
pub struct ExUnboundedReceiver<T>(UnboundedReceiver<T>);

/// Relies on `futures::channel::mpsc::unbounded`: creates a fresh unbounded
/// channel and returns its two halves; the sender holds every value handed to
/// it until the receiver pulls it.
#[verifier::external_body]
pub(crate) fn channel_pair<T>() -> (UnboundedSender<T>, UnboundedReceiver<T>) {
    futures::channel::mpsc::unbounded()
}

/// Relies on `UnboundedSender::unbounded_send`: enqueues the value and returns
/// `Ok` while the channel is open; it fails exactly when the channel is
/// disconnected, that is, when the paired receiver was dropped or closed. The
/// outcome depends on the receiver's state, so nothing is promised of it.
#[verifier::external_body]
pub(crate) fn deliver<T>(chan: &UnboundedSender<T>, value: T) -> bool {
    chan.unbounded_send(value).is_ok()
}

} // verus!
