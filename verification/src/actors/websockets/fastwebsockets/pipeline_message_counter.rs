use std::sync::atomic::{AtomicU64, Ordering};
use std::sync::Arc;
use vstd::prelude::*;

verus! {

/// Hands out another pointer to the allocation that `shared` points to.
///
/// Calls `Arc::clone`, which (as its documentation says) makes a new pointer
/// to the same allocation; the contract claims that the pointed-to value is the
/// same one.
#[verifier::external_body]
fn share_counter(shared: &Arc<AtomicU64>) -> (copy: Arc<AtomicU64>)
    ensures
        copy == *shared,
{
    Arc::clone(shared)
}

/// The number of strong pointers to the allocation behind `shared`.
///
/// Calls `Arc::strong_count`. Other threads may clone or drop pointers at any
/// time, so nothing is stated of the number that comes back.
#[verifier::external_body]
fn strong_pointers(shared: &Arc<AtomicU64>) -> usize {
    Arc::strong_count(shared)
}

/// Whether a counter reading says that messages are in the pipeline.
pub fn count_has_messages(count: u64) -> (has: bool)
    ensures
        has == (count > 0),
{
    count > 0
}

/// Whether a strong-pointer count says that the other end of an
/// incrementor/decrementor pair is still alive.
pub fn pointers_are_shared(strong_count: usize) -> (shared: bool)
    ensures
        shared == (strong_count > 1),
{
    strong_count > 1
}

/// The counting end of a shared pipeline message counter.
#[derive(Clone)]
pub struct Incrementor {
    count: Arc<AtomicU64>,
}

impl Incrementor {
    /// The shared counter this incrementor adds to.
    pub closed spec fn counter(&self) -> AtomicU64 {
        *self.count
    }

    pub fn new(count: Arc<AtomicU64>) -> (this: Self)
        ensures
            this.counter() == *count,
    {
        Self { count }
    }

    /// Adds one to the shared counter (wrapping at `u64::MAX`).
    pub fn inc(&self) {
        self.count.fetch_add(1, Ordering::SeqCst);
    }

    /// Reads the shared counter. Other threads change it concurrently, so the
    /// value is whatever the counter held at the moment of the read.
    pub fn count(&self) -> u64 {
        self.count.load(Ordering::Acquire)
    }

    /// Whether the counter, as read now, is above zero.
    pub fn has_messages(&self) -> bool {
        let count = self.count();
        count_has_messages(count)
    }

    /// Whether another handle to the same counter is still alive, as counted now.
    pub fn is_relevant(&self) -> bool {
        let strong_count = strong_pointers(&self.count);
        pointers_are_shared(strong_count)
    }
}

/// The discounting end of a shared pipeline message counter.
#[derive(Clone)]
pub struct Decrementor {
    count: Arc<AtomicU64>,
}

impl Decrementor {
    /// The shared counter this decrementor subtracts from.
    pub closed spec fn counter(&self) -> AtomicU64 {
        *self.count
    }

    pub fn new(count: Arc<AtomicU64>) -> (this: Self)
        ensures
            this.counter() == *count,
    {
        Self { count }
    }

    /// Subtracts one from the shared counter (wrapping at zero).
    pub fn dec(&self) {
        self.count.fetch_sub(1, Ordering::SeqCst);
    }

    /// Reads the shared counter. Other threads change it concurrently, so the
    /// value is whatever the counter held at the moment of the read.
    pub fn count(&self) -> u64 {
        self.count.load(Ordering::Acquire)
    }

    /// Whether the counter, as read now, is above zero.
    pub fn has_messages(&self) -> bool {
        let count = self.count();
        count_has_messages(count)
    }

    /// Whether another handle to the same counter is still alive, as counted now.
    pub fn is_relevant(&self) -> bool {
        let strong_count = strong_pointers(&self.count);
        pointers_are_shared(strong_count)
    }
}

/// A fresh counter, starting at zero, with its two ends.
pub fn inc_dec() -> (ends: (Incrementor, Decrementor))
    ensures
        ends.0.counter() == ends.1.counter(),
{
    let count = Arc::new(AtomicU64::new(0));
    (Incrementor::new(share_counter(&count)), Decrementor::new(count))
}

} // verus!
