//! Execution metrics: counters the run loop and devices bump, with
//! snapshots and deltas for reporting.

use vstd::prelude::*;

verus! {

/// A counter bump with wrap-around, matching a 64-bit fetch-add.
pub open spec fn spec_bump(x: u64) -> u64 {
    if x == u64::MAX {
        0u64
    } else {
        (x + 1) as u64
    }
}

/// A counter increase by `n` with wrap-around.
pub open spec fn spec_bump_by(x: u64, n: u64) -> u64 {
    if x + n > u64::MAX {
        (x + n - 0x1_0000_0000_0000_0000) as u64
    } else {
        (x + n) as u64
    }
}

/// Saturating difference of two counters.
pub open spec fn spec_sat_sub(a: u64, b: u64) -> u64 {
    if a >= b {
        (a - b) as u64
    } else {
        0u64
    }
}

fn bump(x: u64) -> (r: u64)
    ensures
        r == spec_bump(x),
{
    if x == u64::MAX {
        0
    } else {
        x + 1
    }
}

fn bump_by(x: u64, n: u64) -> (r: u64)
    ensures
        r == spec_bump_by(x, n),
{
    x.wrapping_add(n)
}

fn sat_sub(a: u64, b: u64) -> (r: u64)
    ensures
        r == spec_sat_sub(a, b),
{
    if a >= b {
        a - b
    } else {
        0
    }
}

/// Counters describing a VM's execution so far.  Times are carried
/// in microseconds.
pub struct VmMetrics {
    pub enabled: bool,
    pub vcpu_runs: u64,
    pub vcpu_exits: u64,
    pub total_instructions: u64,
    pub io_exits: u64,
    pub mmio_exits: u64,
    pub hlt_exits: u64,
    pub interrupt_exits: u64,
    pub exception_exits: u64,
    pub errors: u64,
    pub hardware_failures: u64,
    pub timeout_events: u64,
    pub memory_reads: u64,
    pub memory_writes: u64,
    pub memory_faults: u64,
    pub total_cycles: u64,
    pub idle_cycles: u64,
    pub total_runtime_us: u64,
    pub vcpu_active_time_us: u64,
}

/// A metrics instance with every counter at zero.
pub open spec fn spec_zeroed_metrics(enabled: bool) -> VmMetrics {
    VmMetrics {
        enabled,
        vcpu_runs: 0,
        vcpu_exits: 0,
        total_instructions: 0,
        io_exits: 0,
        mmio_exits: 0,
        hlt_exits: 0,
        interrupt_exits: 0,
        exception_exits: 0,
        errors: 0,
        hardware_failures: 0,
        timeout_events: 0,
        memory_reads: 0,
        memory_writes: 0,
        memory_faults: 0,
        total_cycles: 0,
        idle_cycles: 0,
        total_runtime_us: 0,
        vcpu_active_time_us: 0,
    }
}

impl VmMetrics {
    /// A fresh, enabled metrics instance.
    pub fn new() -> (r: Self)
        ensures
            r == spec_zeroed_metrics(true),
    {
        VmMetrics {
            enabled: true,
            vcpu_runs: 0,
            vcpu_exits: 0,
            total_instructions: 0,
            io_exits: 0,
            mmio_exits: 0,
            hlt_exits: 0,
            interrupt_exits: 0,
            exception_exits: 0,
            errors: 0,
            hardware_failures: 0,
            timeout_events: 0,
            memory_reads: 0,
            memory_writes: 0,
            memory_faults: 0,
            total_cycles: 0,
            idle_cycles: 0,
            total_runtime_us: 0,
            vcpu_active_time_us: 0,
        }
    }

    /// A metrics instance that records nothing.
    pub fn disabled() -> (r: Self)
        ensures
            r == spec_zeroed_metrics(false),
    {
        let mut m = VmMetrics::new();
        m.enabled = false;
        m
    }

    /// Whether recording is active.
    pub fn is_enabled(&self) -> (r: bool)
        ensures
            r == self.enabled,
    {
        self.enabled
    }

    /// Turns recording on.
    pub fn enable(&mut self)
        ensures
            *final(self) == (VmMetrics { enabled: true, ..*old(self) }),
    {
        self.enabled = true;
    }

    /// Turns recording off.
    pub fn disable(&mut self)
        ensures
            *final(self) == (VmMetrics { enabled: false, ..*old(self) }),
    {
        self.enabled = false;
    }

    /// Records one invocation of the vCPU run primitive.
    pub fn record_vcpu_run(&mut self)
        ensures
            old(self).enabled ==> *final(self) == (VmMetrics {
                vcpu_runs: spec_bump(old(self).vcpu_runs),
                ..*old(self)
            }),
            !old(self).enabled ==> *final(self) == *old(self),
    {
        if self.enabled {
            self.vcpu_runs = bump(self.vcpu_runs);
        }
    }

    /// Records one vCPU exit.
    pub fn record_vcpu_exit(&mut self)
        ensures
            old(self).enabled ==> *final(self) == (VmMetrics {
                vcpu_exits: spec_bump(old(self).vcpu_exits),
                ..*old(self)
            }),
            !old(self).enabled ==> *final(self) == *old(self),
    {
        if self.enabled {
            self.vcpu_exits = bump(self.vcpu_exits);
        }
    }

    /// Records `count` executed guest instructions.
    pub fn record_instructions(&mut self, count: u64)
        ensures
            old(self).enabled ==> *final(self) == (VmMetrics {
                total_instructions: spec_bump_by(old(self).total_instructions, count),
                ..*old(self)
            }),
            !old(self).enabled ==> *final(self) == *old(self),
    {
        if self.enabled {
            self.total_instructions = bump_by(self.total_instructions, count);
        }
    }

    /// Records a port I/O exit (which is also a vCPU exit).
    pub fn record_io_exit(&mut self)
        ensures
            old(self).enabled ==> *final(self) == (VmMetrics {
                io_exits: spec_bump(old(self).io_exits),
                vcpu_exits: spec_bump(old(self).vcpu_exits),
                ..*old(self)
            }),
            !old(self).enabled ==> *final(self) == *old(self),
    {
        if self.enabled {
            self.io_exits = bump(self.io_exits);
            self.vcpu_exits = bump(self.vcpu_exits);
        }
    }

    /// Records an MMIO exit (which is also a vCPU exit).
    pub fn record_mmio_exit(&mut self)
        ensures
            old(self).enabled ==> *final(self) == (VmMetrics {
                mmio_exits: spec_bump(old(self).mmio_exits),
                vcpu_exits: spec_bump(old(self).vcpu_exits),
                ..*old(self)
            }),
            !old(self).enabled ==> *final(self) == *old(self),
    {
        if self.enabled {
            self.mmio_exits = bump(self.mmio_exits);
            self.vcpu_exits = bump(self.vcpu_exits);
        }
    }

    /// Records a HLT exit (which is also a vCPU exit).
    pub fn record_hlt_exit(&mut self)
        ensures
            old(self).enabled ==> *final(self) == (VmMetrics {
                hlt_exits: spec_bump(old(self).hlt_exits),
                vcpu_exits: spec_bump(old(self).vcpu_exits),
                ..*old(self)
            }),
            !old(self).enabled ==> *final(self) == *old(self),
    {
        if self.enabled {
            self.hlt_exits = bump(self.hlt_exits);
            self.vcpu_exits = bump(self.vcpu_exits);
        }
    }

    /// Records an interrupt exit (which is also a vCPU exit).
    pub fn record_interrupt_exit(&mut self)
        ensures
            old(self).enabled ==> *final(self) == (VmMetrics {
                interrupt_exits: spec_bump(old(self).interrupt_exits),
                vcpu_exits: spec_bump(old(self).vcpu_exits),
                ..*old(self)
            }),
            !old(self).enabled ==> *final(self) == *old(self),
    {
        if self.enabled {
            self.interrupt_exits = bump(self.interrupt_exits);
            self.vcpu_exits = bump(self.vcpu_exits);
        }
    }

    /// Records an exception exit (which is also a vCPU exit).
    pub fn record_exception_exit(&mut self)
        ensures
            old(self).enabled ==> *final(self) == (VmMetrics {
                exception_exits: spec_bump(old(self).exception_exits),
                vcpu_exits: spec_bump(old(self).vcpu_exits),
                ..*old(self)
            }),
            !old(self).enabled ==> *final(self) == *old(self),
    {
        if self.enabled {
            self.exception_exits = bump(self.exception_exits);
            self.vcpu_exits = bump(self.vcpu_exits);
        }
    }

    /// Records a generic error.
    pub fn record_error(&mut self)
        ensures
            old(self).enabled ==> *final(self) == (VmMetrics {
                errors: spec_bump(old(self).errors),
                ..*old(self)
            }),
            !old(self).enabled ==> *final(self) == *old(self),
    {
        if self.enabled {
            self.errors = bump(self.errors);
        }
    }

    /// Records a hardware virtualization failure (which also counts
    /// as an error).
    pub fn record_hardware_failure(&mut self)
        ensures
            old(self).enabled ==> *final(self) == (VmMetrics {
                hardware_failures: spec_bump(old(self).hardware_failures),
                errors: spec_bump(old(self).errors),
                ..*old(self)
            }),
            !old(self).enabled ==> *final(self) == *old(self),
    {
        if self.enabled {
            self.hardware_failures = bump(self.hardware_failures);
            self.errors = bump(self.errors);
        }
    }

    /// Records a timeout event.
    pub fn record_timeout(&mut self)
        ensures
            old(self).enabled ==> *final(self) == (VmMetrics {
                timeout_events: spec_bump(old(self).timeout_events),
                ..*old(self)
            }),
            !old(self).enabled ==> *final(self) == *old(self),
    {
        if self.enabled {
            self.timeout_events = bump(self.timeout_events);
        }
    }

    /// Records a guest memory read.
    pub fn record_memory_read(&mut self)
        ensures
            old(self).enabled ==> *final(self) == (VmMetrics {
                memory_reads: spec_bump(old(self).memory_reads),
                ..*old(self)
            }),
            !old(self).enabled ==> *final(self) == *old(self),
    {
        if self.enabled {
            self.memory_reads = bump(self.memory_reads);
        }
    }

    /// Records a guest memory write.
    pub fn record_memory_write(&mut self)
        ensures
            old(self).enabled ==> *final(self) == (VmMetrics {
                memory_writes: spec_bump(old(self).memory_writes),
                ..*old(self)
            }),
            !old(self).enabled ==> *final(self) == *old(self),
    {
        if self.enabled {
            self.memory_writes = bump(self.memory_writes);
        }
    }

    /// Records a guest memory fault.
    pub fn record_memory_fault(&mut self)
        ensures
            old(self).enabled ==> *final(self) == (VmMetrics {
                memory_faults: spec_bump(old(self).memory_faults),
                ..*old(self)
            }),
            !old(self).enabled ==> *final(self) == *old(self),
    {
        if self.enabled {
            self.memory_faults = bump(self.memory_faults);
        }
    }

    /// Records `cycles` CPU cycles.
    pub fn record_cycles(&mut self, cycles: u64)
        ensures
            old(self).enabled ==> *final(self) == (VmMetrics {
                total_cycles: spec_bump_by(old(self).total_cycles, cycles),
                ..*old(self)
            }),
            !old(self).enabled ==> *final(self) == *old(self),
    {
        if self.enabled {
            self.total_cycles = bump_by(self.total_cycles, cycles);
        }
    }

    /// Records `cycles` idle CPU cycles.
    pub fn record_idle_cycles(&mut self, cycles: u64)
        ensures
            old(self).enabled ==> *final(self) == (VmMetrics {
                idle_cycles: spec_bump_by(old(self).idle_cycles, cycles),
                ..*old(self)
            }),
            !old(self).enabled ==> *final(self) == *old(self),
    {
        if self.enabled {
            self.idle_cycles = bump_by(self.idle_cycles, cycles);
        }
    }

    /// Records `us` microseconds of wall-clock runtime.
    pub fn record_runtime(&mut self, us: u64)
        ensures
            old(self).enabled ==> *final(self) == (VmMetrics {
                total_runtime_us: spec_bump_by(old(self).total_runtime_us, us),
                ..*old(self)
            }),
            !old(self).enabled ==> *final(self) == *old(self),
    {
        if self.enabled {
            self.total_runtime_us = bump_by(self.total_runtime_us, us);
        }
    }

    /// Records `us` microseconds of vCPU active time.
    pub fn record_vcpu_active_time(&mut self, us: u64)
        ensures
            old(self).enabled ==> *final(self) == (VmMetrics {
                vcpu_active_time_us: spec_bump_by(old(self).vcpu_active_time_us, us),
                ..*old(self)
            }),
            !old(self).enabled ==> *final(self) == *old(self),
    {
        if self.enabled {
            self.vcpu_active_time_us = bump_by(self.vcpu_active_time_us, us);
        }
    }

    /// The number of vCPU runs recorded.
    pub fn vcpu_runs(&self) -> (r: u64)
        ensures
            r == self.vcpu_runs,
    {
        self.vcpu_runs
    }

    /// The number of vCPU exits recorded.
    pub fn vcpu_exits(&self) -> (r: u64)
        ensures
            r == self.vcpu_exits,
    {
        self.vcpu_exits
    }

    /// The number of guest instructions recorded.
    pub fn total_instructions(&self) -> (r: u64)
        ensures
            r == self.total_instructions,
    {
        self.total_instructions
    }

    /// The number of port I/O exits recorded.
    pub fn io_exits(&self) -> (r: u64)
        ensures
            r == self.io_exits,
    {
        self.io_exits
    }

    /// The number of MMIO exits recorded.
    pub fn mmio_exits(&self) -> (r: u64)
        ensures
            r == self.mmio_exits,
    {
        self.mmio_exits
    }

    /// The number of HLT exits recorded.
    pub fn hlt_exits(&self) -> (r: u64)
        ensures
            r == self.hlt_exits,
    {
        self.hlt_exits
    }

    /// The number of interrupt exits recorded.
    pub fn interrupt_exits(&self) -> (r: u64)
        ensures
            r == self.interrupt_exits,
    {
        self.interrupt_exits
    }

    /// The number of exception exits recorded.
    pub fn exception_exits(&self) -> (r: u64)
        ensures
            r == self.exception_exits,
    {
        self.exception_exits
    }

    /// The number of errors recorded.
    pub fn errors(&self) -> (r: u64)
        ensures
            r == self.errors,
    {
        self.errors
    }

    /// The number of hardware failures recorded.
    pub fn hardware_failures(&self) -> (r: u64)
        ensures
            r == self.hardware_failures,
    {
        self.hardware_failures
    }

    /// The number of timeout events recorded.
    pub fn timeout_events(&self) -> (r: u64)
        ensures
            r == self.timeout_events,
    {
        self.timeout_events
    }

    /// The number of guest memory reads recorded.
    pub fn memory_reads(&self) -> (r: u64)
        ensures
            r == self.memory_reads,
    {
        self.memory_reads
    }

    /// The number of guest memory writes recorded.
    pub fn memory_writes(&self) -> (r: u64)
        ensures
            r == self.memory_writes,
    {
        self.memory_writes
    }

    /// The number of guest memory faults recorded.
    pub fn memory_faults(&self) -> (r: u64)
        ensures
            r == self.memory_faults,
    {
        self.memory_faults
    }

    /// The number of CPU cycles recorded.
    pub fn total_cycles(&self) -> (r: u64)
        ensures
            r == self.total_cycles,
    {
        self.total_cycles
    }

    /// The number of idle CPU cycles recorded.
    pub fn idle_cycles(&self) -> (r: u64)
        ensures
            r == self.idle_cycles,
    {
        self.idle_cycles
    }

    /// Total recorded runtime, in microseconds.
    pub fn total_runtime(&self) -> (r: u64)
        ensures
            r == self.total_runtime_us,
    {
        self.total_runtime_us
    }

    /// Total recorded vCPU active time, in microseconds.
    pub fn vcpu_active_time(&self) -> (r: u64)
        ensures
            r == self.vcpu_active_time_us,
    {
        self.vcpu_active_time_us
    }

    /// Zeroes every counter; a disabled instance is left untouched.
    pub fn reset(&mut self)
        ensures
            old(self).enabled ==> *final(self) == spec_zeroed_metrics(true),
            !old(self).enabled ==> *final(self) == *old(self),
    {
        if !self.enabled {
            return ;
        }
        self.vcpu_runs = 0;
        self.vcpu_exits = 0;
        self.total_instructions = 0;
        self.io_exits = 0;
        self.mmio_exits = 0;
        self.hlt_exits = 0;
        self.interrupt_exits = 0;
        self.exception_exits = 0;
        self.errors = 0;
        self.hardware_failures = 0;
        self.timeout_events = 0;
        self.memory_reads = 0;
        self.memory_writes = 0;
        self.memory_faults = 0;
        self.total_cycles = 0;
        self.idle_cycles = 0;
        self.total_runtime_us = 0;
        self.vcpu_active_time_us = 0;
    }

    /// Captures the headline counters at this moment.
    pub fn snapshot(&self) -> (r: MetricsSnapshot)
        ensures
            r.vcpu_runs == self.vcpu_runs,
            r.vcpu_exits == self.vcpu_exits,
            r.io_exits == self.io_exits,
            r.errors == self.errors,
            r.total_runtime_us == self.total_runtime_us,
    {
        MetricsSnapshot {
            vcpu_runs: self.vcpu_runs,
            vcpu_exits: self.vcpu_exits,
            io_exits: self.io_exits,
            errors: self.errors,
            total_runtime_us: self.total_runtime_us,
        }
    }
}

impl Default for VmMetrics {
    fn default() -> (r: Self)
        ensures
            r == spec_zeroed_metrics(true),
    {
        VmMetrics::new()
    }
}

/// The headline counters at one moment.
#[derive(Clone, Copy, Debug)]
pub struct MetricsSnapshot {
    pub vcpu_runs: u64,
    pub vcpu_exits: u64,
    pub io_exits: u64,
    pub errors: u64,
    pub total_runtime_us: u64,
}

impl MetricsSnapshot {
    /// The counter growth from `other` to this snapshot, saturating
    /// at zero when a counter went backwards.
    pub fn delta(&self, other: &MetricsSnapshot) -> (r: MetricsDelta)
        ensures
            r.vcpu_runs == spec_sat_sub(self.vcpu_runs, other.vcpu_runs),
            r.vcpu_exits == spec_sat_sub(self.vcpu_exits, other.vcpu_exits),
            r.io_exits == spec_sat_sub(self.io_exits, other.io_exits),
            r.errors == spec_sat_sub(self.errors, other.errors),
    {
        MetricsDelta {
            vcpu_runs: sat_sub(self.vcpu_runs, other.vcpu_runs),
            vcpu_exits: sat_sub(self.vcpu_exits, other.vcpu_exits),
            io_exits: sat_sub(self.io_exits, other.io_exits),
            errors: sat_sub(self.errors, other.errors),
        }
    }
}

/// Counter growth between two snapshots.
#[derive(Clone, Copy, Debug)]
pub struct MetricsDelta {
    pub vcpu_runs: u64,
    pub vcpu_exits: u64,
    pub io_exits: u64,
    pub errors: u64,
}

} // verus!
