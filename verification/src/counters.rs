//! Frame-rate and GPU-wait reporting counters. They accumulate elapsed time
//! in microseconds and decide when a report is due; formatting and printing
//! the report is the caller's. Clock readings come in as plain microsecond
//! values from a monotonic clock.

use vstd::prelude::*;

verus! {

/// How often (in microseconds) a frame-rate report is due.
pub const FPS_PRINT_INTERVAL_MICROS: u64 = 2_000_000;

/// How often (in microseconds) a GPU-wait report is due.
pub const GPU_PRINT_INTERVAL_MICROS: u64 = 5_000_000;

/// Sum of a sequence of microsecond samples.
pub open spec fn spec_seq_sum(s: Seq<u64>) -> int
    decreases s.len(),
{
    if s.len() == 0 {
        0
    } else {
        spec_seq_sum(s.drop_last()) + s.last()
    }
}

/// A sequence sum is bounded by its length times the largest sample value.
proof fn lemma_seq_sum_bound(s: Seq<u64>)
    ensures
        0 <= spec_seq_sum(s) <= s.len() * u64::MAX,
    decreases s.len(),
{
    if s.len() > 0 {
        lemma_seq_sum_bound(s.drop_last());
        assert((s.len() - 1) * u64::MAX + u64::MAX == s.len() * u64::MAX) by (nonlinear_arith);
    }
}

/// Decides when a frame-rate report is due: elapsed frame times accumulate,
/// and once they exceed the print interval the current frame time is handed
/// back for reporting and one interval is consumed.
pub struct FPSCounter {
    last_print_elapsed_micros: u64,
}

impl FPSCounter {
    /// Accumulated time since the last report.
    pub closed spec fn spec_elapsed(self) -> u64 {
        self.last_print_elapsed_micros
    }

    pub fn new() -> (r: Self)
        ensures
            r.spec_elapsed() == 0,
    {
        Self { last_print_elapsed_micros: 0 }
    }

    /// Accumulates one frame's duration. Returns that duration exactly when a
    /// report is due (the accumulator exceeded the interval, which is then
    /// consumed); accumulation saturates at the top of the domain.
    pub fn try_print(&mut self, time_passed_micros: u64) -> (r: Option<u64>)
        ensures
            ({
                let acc = if old(self).spec_elapsed() + time_passed_micros <= u64::MAX {
                    old(self).spec_elapsed() + time_passed_micros
                } else {
                    u64::MAX as int
                };
                if acc > FPS_PRINT_INTERVAL_MICROS {
                    &&& r == Some(time_passed_micros)
                    &&& final (self).spec_elapsed() == acc - FPS_PRINT_INTERVAL_MICROS
                } else {
                    &&& r is None
                    &&& final (self).spec_elapsed() == acc
                }
            }),
    {
        if self.last_print_elapsed_micros <= u64::MAX - time_passed_micros {
            self.last_print_elapsed_micros = self.last_print_elapsed_micros + time_passed_micros;
        } else {
            self.last_print_elapsed_micros = u64::MAX;
        }
        if self.last_print_elapsed_micros > FPS_PRINT_INTERVAL_MICROS {
            self.last_print_elapsed_micros = self.last_print_elapsed_micros
                - FPS_PRINT_INTERVAL_MICROS;
            Some(time_passed_micros)
        } else {
            None
        }
    }
}

/// Decides when a GPU-wait report is due: per-frame fence-wait latencies are
/// collected, and once the elapsed wall time exceeds the print interval their
/// average is handed back for reporting, the collection is cleared and one
/// interval is consumed.
pub struct GPULattency {
    prev_frame_micros: u64,
    last_print_elapsed_micros: u64,
    latencies: Vec<u64>,
}

impl GPULattency {
    /// The clock reading of the previous frame.
    pub closed spec fn spec_prev_frame(self) -> u64 {
        self.prev_frame_micros
    }

    /// Accumulated wall time since the last report.
    pub closed spec fn spec_elapsed(self) -> u64 {
        self.last_print_elapsed_micros
    }

    /// The latency samples collected since the last report.
    pub closed spec fn spec_latencies(self) -> Seq<u64> {
        self.latencies@
    }

    /// Starts counting from the given clock reading.
    pub fn new(now_micros: u64) -> (r: Self)
        ensures
            r.spec_prev_frame() == now_micros,
            r.spec_elapsed() == 0,
            r.spec_latencies() == Seq::<u64>::empty(),
    {
        Self { prev_frame_micros: now_micros, last_print_elapsed_micros: 0, latencies: Vec::new() }
    }

    /// Records one frame's fence-wait latency at clock reading `now_micros`
    /// (from the same monotonic clock as before). Returns the average of the
    /// collected latencies exactly when a report is due; the collection is
    /// then cleared and one interval consumed. Accumulation saturates at the
    /// top of the domain.
    pub fn try_print(&mut self, cur_frame_latency_micros: u64, now_micros: u64) -> (r: Option<
        u128,
    >)
        requires
            now_micros >= old(self).spec_prev_frame(),
        ensures
            final (self).spec_prev_frame() == now_micros,
            ({
                let samples = old(self).spec_latencies().push(cur_frame_latency_micros);
                let acc = if old(self).spec_elapsed() + now_micros - old(
                    self,
                ).spec_prev_frame() <= u64::MAX {
                    old(self).spec_elapsed() + now_micros - old(self).spec_prev_frame()
                } else {
                    u64::MAX as int
                };
                if acc > GPU_PRINT_INTERVAL_MICROS {
                    &&& r == Some((spec_seq_sum(samples) / (samples.len() as int)) as u128)
                    &&& final (self).spec_elapsed() == acc - GPU_PRINT_INTERVAL_MICROS
                    &&& final (self).spec_latencies() == Seq::<u64>::empty()
                } else {
                    &&& r is None
                    &&& final (self).spec_elapsed() == acc
                    &&& final (self).spec_latencies() == samples
                }
            }),
    {
        self.latencies.push(cur_frame_latency_micros);

        let elapsed = now_micros - self.prev_frame_micros;
        if self.last_print_elapsed_micros <= u64::MAX - elapsed {
            self.last_print_elapsed_micros = self.last_print_elapsed_micros + elapsed;
        } else {
            self.last_print_elapsed_micros = u64::MAX;
        }
        self.prev_frame_micros = now_micros;

        if self.last_print_elapsed_micros > GPU_PRINT_INTERVAL_MICROS {
            let ghost samples = self.latencies@;
            let mut sum: u128 = 0;
            let mut i: usize = 0;
            proof {
                lemma_seq_sum_bound(samples);
            }
            while i < self.latencies.len()
                invariant
                    i <= samples.len(),
                    self.latencies@ == samples,
                    sum == spec_seq_sum(samples.take(i as int)),
                    sum <= (i as int) * u64::MAX,
                decreases samples.len() - i,
            {
                proof {
                    lemma_seq_sum_bound(samples.take(i as int));
                    assert(samples.take(i + 1).drop_last() =~= samples.take(i as int));
                    assert(samples.take(i + 1).last() == samples[i as int]);
                    assert((i as int) * u64::MAX + u64::MAX == (i + 1) * u64::MAX)
                        by (nonlinear_arith);
                }
                sum = sum + self.latencies[i] as u128;
                i = i + 1;
            }
            proof {
                assert(samples.take(samples.len() as int) =~= samples);
            }
            let count = self.latencies.len() as u128;
            let average = sum / count;
            self.latencies.clear();
            self.last_print_elapsed_micros = self.last_print_elapsed_micros
                - GPU_PRINT_INTERVAL_MICROS;
            Some(average)
        } else {
            None
        }
    }
}

} // verus!
