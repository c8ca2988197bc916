//! Bounded sample channels between the capture contexts and the mixing
//! loop.
//!
//! Each capture source owns one bounded multi-producer channel of
//! fixed-point mono samples. The producer side runs inside a hardware
//! callback and must never block: a full channel drops the newest sample.
//! The consumer side is the mixing loop's non-blocking read with a
//! hold-last-value fallback. The channel itself is crossbeam's; what a
//! concurrent peer does to it between two calls cannot be pinned down, so
//! the contracts here state only what holds of every outcome, and the
//! mixing logic is verified for every value a read can return.

use crate::mixer::held_sample;
use vstd::prelude::*;

verus! {

#[verifier::external_type_specification]
#[verifier::external_body]
#[verifier::reject_recursive_types(T)]
/// The sending half of a crossbeam channel, opaque to the verifier.
pub struct ExSender<T>(crossbeam_channel::Sender<T>);

#[verifier::external_type_specification]
#[verifier::external_body]
#[verifier::reject_recursive_types(T)]
/// The receiving half of a crossbeam channel, opaque to the verifier.
pub struct ExReceiver<T>(crossbeam_channel::Receiver<T>);

/// Relies on crossbeam_channel::bounded: a channel that holds at most
/// `capacity` queued messages.
#[verifier::external_body]
pub(crate) fn new_sample_channel(capacity: usize) -> (r: (
    crossbeam_channel::Sender<i32>,
    crossbeam_channel::Receiver<i32>,
))
{
    crossbeam_channel::bounded(capacity)
}

/// Relies on crossbeam_channel::Sender::try_send: delivers the sample
/// unless the channel is full or disconnected, and never blocks; a refused
/// sample is dropped. Whether the channel is full depends on the consumer
/// on the other thread, so nothing is promised of the outcome.
#[verifier::external_body]
pub(crate) fn channel_try_send(tx: &crossbeam_channel::Sender<i32>, sample: i32) -> (accepted:
    bool)
{
    tx.try_send(sample).is_ok()
}

/// Relies on crossbeam_channel::Receiver::try_recv: takes the oldest
/// queued sample without blocking, or nothing when the channel is empty or
/// disconnected. What is queued depends on the producers on other threads,
/// so nothing is promised of the outcome.
#[verifier::external_body]
pub(crate) fn channel_try_recv(rx: &crossbeam_channel::Receiver<i32>) -> (r: Option<i32>)
{
    match rx.try_recv() {
        Ok(sample) => Some(sample),
        Err(_) => None,
    }
}

/// Delivers a batch of mono samples into a capture channel, one
/// non-blocking send per sample, in order: when the channel is full the
/// newest sample is dropped rather than the producer stalled, since the
/// producer may be a real-time audio callback. Returns how many samples
/// the channel accepted.
pub fn push_samples(tx: &crossbeam_channel::Sender<i32>, samples: &Vec<i32>) -> (accepted: usize)
    ensures
        accepted <= samples@.len(),
{
    let mut accepted: usize = 0;
    let mut i: usize = 0;
    while i < samples.len()
        invariant
            0 <= i <= samples@.len(),
            accepted <= i,
        decreases samples@.len() - i,
    {
        if channel_try_send(tx, samples[i]) {
            accepted = accepted + 1;
        }
        i = i + 1;
    }
    accepted
}

/// The mixing loop's non-blocking read: the channel's oldest queued sample
/// if one is there, else the last value this channel delivered
/// (hold-last-value, never artificial silence). Returns the raw read and
/// the held value.
pub fn poll_sample(rx: &crossbeam_channel::Receiver<i32>, last: i32) -> (r: (Option<i32>, i32))
    ensures
        r.1 == held_sample(last, r.0),
{
    let got = channel_try_recv(rx);
    match got {
        Some(sample) => (Some(sample), sample),
        None => (None, last),
    }
}

} // verus!
