//! The message queues between an owner and its worker: std's mpsc channels,
//! declared to the verifier and reached through small wrappers.

use vstd::prelude::*;
use std::sync::atomic::AtomicBool;
use std::sync::mpsc::{Receiver, Sender};
use std::sync::Arc;

verus! {

/// Declares std::sync::mpsc::Sender, the sending end of a queue; its
/// contents stay opaque.
#[verifier::external_type_specification]
#[verifier::external_body]
#[verifier::reject_recursive_types(T)]
pub struct ExSender<T>(Sender<T>);

/// Declares std::sync::mpsc::Receiver, the receiving end of a queue; its
/// contents stay opaque.
#[verifier::external_type_specification]
#[verifier::external_body]
#[verifier::reject_recursive_types(T)]
pub struct ExReceiver<T>(Receiver<T>);

/// Relies on std::sync::mpsc::channel: a new sender and receiver joined to each other.
#[verifier::external_body]
pub(crate) fn channel_pair<T>() -> (Sender<T>, Receiver<T>) {
    std::sync::mpsc::channel()
}

/// Relies on Sender::send: the value is queued, or handed back as an error
/// when the receiving end is gone; `true` says it was queued.
#[verifier::external_body]
pub(crate) fn channel_send<T>(tx: &Sender<T>, value: T) -> bool {
    tx.send(value).is_ok()
}

/// Relies on Receiver::try_recv: the next queued value if one is waiting,
/// without blocking.
#[verifier::external_body]
pub(crate) fn channel_try_recv<T>(rx: &Receiver<T>) -> Option<T> {
    rx.try_recv().ok()
}

/// Relies on Arc::clone: a second handle on the same flag.
#[verifier::external_body]
pub(crate) fn share_flag(flag: &Arc<AtomicBool>) -> Arc<AtomicBool> {
    Arc::clone(flag)
}

} // verus!
