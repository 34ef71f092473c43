//! A controllable time source for tests.

use std::sync::atomic::{AtomicU64, Ordering};
use std::sync::Arc;
use std::time::Duration;
use vstd::prelude::*;

use crate::duration::{nanos_u64, truncated_nanos};

verus! {

/// Type which can be converted into a nanosecond representation.
///
/// This allows users of [`Mock`] to increment/decrement the time both with raw integer values
/// and the more convenient [`Duration`] type.
pub trait IntoNanoseconds {
    fn into_nanos(self) -> u64;
}

impl IntoNanoseconds for u64 {
    /// An integer already counts nanoseconds.
    fn into_nanos(self) -> (r: u64)
        ensures
            r == self,
    {
        self
    }
}

impl IntoNanoseconds for Duration {
    /// The duration's nanoseconds, cut to their low 64 bits.
    fn into_nanos(self) -> (r: u64)
        ensures
            r == truncated_nanos(self),
    {
        nanos_u64(self)
    }
}

/// Controllable time source for use in tests.
///
/// The mocked time is a shared atomic counter of nanoseconds that starts at zero; every clone
/// of a `Mock` (and the clock that it was made for) sees the same counter.  Increments and
/// decrements wrap around at 64 bits.
#[derive(Debug, Clone)]
pub struct Mock {
    offset: Arc<AtomicU64>,
}

impl Mock {
    /// A mock whose time starts at zero.
    pub(crate) fn new() -> (m: Mock) {
        Mock { offset: Arc::new(AtomicU64::new(0)) }
    }

    /// Increments the time by the given amount.
    pub fn increment<N: IntoNanoseconds>(&self, amount: N) {
        let n = amount.into_nanos();
        self.offset.fetch_add(n, Ordering::Release);
    }

    /// Decrements the time by the given amount.
    pub fn decrement<N: IntoNanoseconds>(&self, amount: N) {
        let n = amount.into_nanos();
        self.offset.fetch_sub(n, Ordering::Release);
    }

    /// The current mocked time.
    pub fn now(&self) -> u64 {
        self.offset.load(Ordering::Acquire)
    }

    /// The current mocked time, read at the start of a measured section.
    pub fn start(&self) -> u64 {
        self.now()
    }

    /// The current mocked time, read at the end of a measured section.
    pub fn end(&self) -> u64 {
        self.now()
    }
}

} // verus!
