//! Diagnostic counters a FIFO can carry: how many reads and writes were
//! traced, and which directions the trace watches.

use vstd::prelude::*;

verus! {

/// Trace bookkeeping for one FIFO.
pub struct DebugState {
    pub identifier: String,
    pub trace_reads: bool,
    pub trace_writes: bool,
    pub read_count: u64,
    pub write_count: u64,
}

impl DebugState {
    pub fn new(identifier: String, trace_reads: bool, trace_writes: bool) -> (r: DebugState)
        ensures
            r.identifier == identifier,
            r.trace_reads == trace_reads,
            r.trace_writes == trace_writes,
            r.read_count == 0u64,
            r.write_count == 0u64,
    {
        DebugState { identifier, trace_reads, trace_writes, read_count: 0, write_count: 0 }
    }

    /// Counts one traced read; reports whether the read should be logged.
    pub fn record_read(&mut self) -> (r: bool)
        requires
            old(self).read_count < 0xFFFF_FFFF_FFFF_FFFF,
        ensures
            final(self).read_count == old(self).read_count + 1,
            final(self).write_count == old(self).write_count,
            final(self).trace_reads == old(self).trace_reads,
            final(self).trace_writes == old(self).trace_writes,
            final(self).identifier == old(self).identifier,
            r == old(self).trace_reads,
    {
        self.read_count = self.read_count + 1;
        self.trace_reads
    }

    /// Counts one traced write; reports whether the write should be
    /// logged.
    pub fn record_write(&mut self) -> (r: bool)
        requires
            old(self).write_count < 0xFFFF_FFFF_FFFF_FFFF,
        ensures
            final(self).write_count == old(self).write_count + 1,
            final(self).read_count == old(self).read_count,
            final(self).trace_reads == old(self).trace_reads,
            final(self).trace_writes == old(self).trace_writes,
            final(self).identifier == old(self).identifier,
            r == old(self).trace_writes,
    {
        self.write_count = self.write_count + 1;
        self.trace_writes
    }
}


/// Watches one guest address for polling loops: repeated accesses without
/// progress suggest the CPU is spinning on a peripheral register.
pub struct SpinLoopDetector {
    pub address: u32,
    pub count: u32,
    pub threshold: u32,
}

impl SpinLoopDetector {
    pub fn new(address: u32, threshold: u32) -> (r: SpinLoopDetector)
        requires
            threshold >= 1,
        ensures
            r.address == address,
            r.count == 0u32,
            r.threshold == threshold,
    {
        SpinLoopDetector { address, count: 0, threshold }
    }
}

/// Counts a read of the watched address; reports (and rearms) when the
/// access count reaches the threshold.
pub fn trace_memory_spin_loop_detection_read(
    detector: &mut SpinLoopDetector,
    address: u32,
) -> (hit: bool)
    requires
        old(detector).count < old(detector).threshold,
    ensures
        final(detector).address == old(detector).address,
        final(detector).threshold == old(detector).threshold,
        address != old(detector).address ==> !hit && final(detector).count == old(detector).count,
        address == old(detector).address && old(detector).count + 1 < old(detector).threshold
            ==> !hit && final(detector).count == old(detector).count + 1,
        address == old(detector).address && old(detector).count + 1 == old(detector).threshold
            ==> hit && final(detector).count == 0u32,
        final(detector).count < final(detector).threshold,
{
    if address != detector.address {
        return false;
    }
    detector.count = detector.count + 1;
    if detector.count == detector.threshold {
        detector.count = 0;
        true
    } else {
        false
    }
}

/// Counts a write of the watched address; same accounting as for reads.
pub fn trace_memory_spin_loop_detection_write(
    detector: &mut SpinLoopDetector,
    address: u32,
) -> (hit: bool)
    requires
        old(detector).count < old(detector).threshold,
    ensures
        final(detector).address == old(detector).address,
        final(detector).threshold == old(detector).threshold,
        address != old(detector).address ==> !hit && final(detector).count == old(detector).count,
        address == old(detector).address && old(detector).count + 1 < old(detector).threshold
            ==> !hit && final(detector).count == old(detector).count + 1,
        address == old(detector).address && old(detector).count + 1 == old(detector).threshold
            ==> hit && final(detector).count == 0u32,
        final(detector).count < final(detector).threshold,
{
    if address != detector.address {
        return false;
    }
    detector.count = detector.count + 1;
    if detector.count == detector.threshold {
        detector.count = 0;
        true
    } else {
        false
    }
}

/// Flips a diagnostic switch and reports its new position.
pub fn toggle_debug_option(option: &mut bool) -> (r: bool)
    ensures
        *final(option) == !*old(option),
        r == *final(option),
{
    *option = !*option;
    *option
}

} // verus!
