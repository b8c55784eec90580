//! Byte counters of a connection, shared between the task that moves the
//! bytes and the task that measures.

use std::sync::atomic::{AtomicU64, Ordering};
use std::sync::Arc;

use vstd::prelude::*;

verus! {

/// The bytes that a read has added to a buffer that held `filled_before`
/// bytes before it and `filled_after` bytes after it.
pub open spec fn bytes_read(filled_before: usize, filled_after: usize) -> u64 {
    if filled_after >= filled_before {
        (filled_after - filled_before) as u64
    } else {
        0
    }
}

/// A utility for measuring the number of bytes being passed through a
/// stream. A clone is another handle to the same two counters. The counters
/// only ever grow; transfer is measured as the difference of two readings.
#[derive(Clone)]
pub struct IoUsageTracker {
    received: Arc<AtomicU64>,
    written: Arc<AtomicU64>,
}

impl IoUsageTracker {
    /// Create a new usage tracker with both counters at zero.
    pub fn new() -> Self {
        IoUsageTracker {
            received: Arc::new(AtomicU64::new(0)),
            written: Arc::new(AtomicU64::new(0)),
        }
    }

    /// Get the current received usage count.
    pub fn get_received_count(&self) -> u64 {
        self.received.load(Ordering::SeqCst)
    }

    /// Get the current written usage count.
    pub fn get_written_count(&self) -> u64 {
        self.written.load(Ordering::SeqCst)
    }

    /// Counts what a successful read has added to its buffer, and says how
    /// many bytes that was.
    pub fn record_read(&self, filled_before: usize, filled_after: usize) -> (counted: u64)
        ensures
            counted == bytes_read(filled_before, filled_after),
    {
        let counted: u64 = if filled_after >= filled_before {
            (filled_after - filled_before) as u64
        } else {
            0
        };
        self.add_received(counted);
        counted
    }

    /// Counts the bytes that a successful write has taken, and says how many
    /// that was.
    pub fn record_written(&self, written: usize) -> (counted: u64)
        ensures
            counted == written,
    {
        let counted: u64 = written as u64;
        self.add_written(counted);
        counted
    }

    /// Count `bytes` more bytes as received.
    pub fn add_received(&self, bytes: u64) {
        let _ = self.received.fetch_add(bytes, Ordering::SeqCst);
    }

    /// Count `bytes` more bytes as written.
    pub fn add_written(&self, bytes: u64) {
        let _ = self.written.fetch_add(bytes, Ordering::SeqCst);
    }
}

} // verus!
