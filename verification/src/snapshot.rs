//! The metrics snapshot: an immutable value object holding one capture of
//! host metrics, and the percentage arithmetic over its raw counters.
//!
//! Percentages are always recomputed here from `used` and `total` counters,
//! never trusted pre-computed. A zero total yields zero percent rather than
//! a division error. CPU readings arrive already converted to micro-percent
//! (millionths of a percent) by the sampling edge.

use vstd::prelude::*;

verus! {

/// One CPU core: its label and current usage in micro-percent.
#[derive(Clone, Debug, PartialEq, Eq)]
pub struct CpuCore {
    pub label: String,
    pub usage_micro: u64,
}

/// Memory counters, in bytes.
#[derive(Clone, Copy, Debug, PartialEq, Eq, Structural)]
pub struct MemoryStats {
    pub total_bytes: u64,
    pub used_bytes: u64,
    pub available_bytes: u64,
    pub free_bytes: u64,
}

/// Swap counters, in bytes.
#[derive(Clone, Copy, Debug, PartialEq, Eq, Structural)]
pub struct SwapStats {
    pub total_bytes: u64,
    pub used_bytes: u64,
    pub free_bytes: u64,
}

/// One disk: identity strings and capacity counters in bytes.
#[derive(Clone, Debug, PartialEq, Eq)]
pub struct DiskInfo {
    pub name: String,
    pub mount_point: String,
    pub filesystem: String,
    pub kind: String,
    pub total_bytes: u64,
    pub available_bytes: u64,
}

/// Host metadata.
#[derive(Clone, Debug, PartialEq, Eq)]
pub struct HostInfo {
    pub hostname: String,
    pub os_name: String,
    pub os_version: String,
    pub cpu_arch: String,
    pub uptime_seconds: u64,
}

/// One process: identity, memory, CPU usage in micro-percent, uptime, and
/// the effective user/group id pair where the OS reports one.
#[derive(Debug, PartialEq, Eq)]
pub struct ProcessInfo {
    pub pid: u32,
    pub name: String,
    pub memory_bytes: u64,
    pub cpu_micro: u64,
    pub run_time_seconds: u64,
    pub ids: Option<(u32, u32)>,
}

/// Mathematical model of a process: the same fields with the name as a
/// character sequence.
#[verifier::ext_equal]
pub struct ProcessView {
    pub pid: u32,
    pub name: Seq<char>,
    pub memory_bytes: u64,
    pub cpu_micro: u64,
    pub run_time_seconds: u64,
    pub ids: Option<(u32, u32)>,
}

impl View for ProcessInfo {
    type V = ProcessView;

    open spec fn view(&self) -> ProcessView {
        ProcessView {
            pid: self.pid,
            name: self.name@,
            memory_bytes: self.memory_bytes,
            cpu_micro: self.cpu_micro,
            run_time_seconds: self.run_time_seconds,
            ids: self.ids,
        }
    }
}

/// The models of a sequence of processes.
pub open spec fn process_views(s: Seq<ProcessInfo>) -> Seq<ProcessView> {
    s.map_values(|p: ProcessInfo| p@)
}

impl Clone for ProcessInfo {
    /// Cloning preserves the process model.
    fn clone(&self) -> (res: Self)
        ensures
            res@ == self@,
    {
        let res = ProcessInfo {
            pid: self.pid,
            name: self.name.clone(),
            memory_bytes: self.memory_bytes,
            cpu_micro: self.cpu_micro,
            run_time_seconds: self.run_time_seconds,
            ids: self.ids,
        };
        proof {
            assert(res@ =~= self@);
        }
        res
    }
}

/// A point-in-time capture of all metrics, read-only for one render pass.
#[derive(Clone, Debug, PartialEq, Eq)]
pub struct MetricsSnapshot {
    pub global_cpu_micro: u64,
    pub cores: Vec<CpuCore>,
    pub memory: MemoryStats,
    pub swap: SwapStats,
    pub disks: Vec<DiskInfo>,
    pub host: HostInfo,
    pub processes: Vec<ProcessInfo>,
}

/// `used/total` as micro-percent, rounded to the nearest unit (ties up),
/// clamped to `u64`; zero when `total` is zero.
pub open spec fn spec_percent_micro(used: u64, total: u64) -> u64 {
    if total == 0 {
        0
    } else {
        let v = (used * 100_000_000 + total / 2) / (total as int);
        if v > u64::MAX {
            u64::MAX
        } else {
            v as u64
        }
    }
}

/// Recompute a usage percentage from raw counters as micro-percent.
/// A zero total reports zero percent; there is no division by zero.
pub fn percent_micro(used: u64, total: u64) -> (micro: u64)
    ensures
        micro == spec_percent_micro(used, total),
        total == 0 ==> micro == 0,
{
    if total == 0 {
        0
    } else {
        proof {
            assert((used as int) * 100_000_000 <= (u64::MAX as int) * 100_000_000)
                by (nonlinear_arith)
                requires
                    used <= u64::MAX,
            ;
        }
        let num: u128 = (used as u128) * 100_000_000 + (total as u128) / 2;
        let v: u128 = num / (total as u128);
        if v > u64::MAX as u128 {
            u64::MAX
        } else {
            v as u64
        }
    }
}

/// Bytes in use on a disk: capacity minus available space, clamped at zero
/// where the OS reports more available than total.
pub open spec fn spec_disk_used(total: u64, available: u64) -> u64 {
    if available <= total {
        (total - available) as u64
    } else {
        0
    }
}

/// Used bytes of a disk from its capacity counters; never underflows.
pub fn disk_used(total: u64, available: u64) -> (used: u64)
    ensures
        used == spec_disk_used(total, available),
{
    if available <= total {
        total - available
    } else {
        0
    }
}

} // verus!
