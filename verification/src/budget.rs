//! Read-only inspection of the host's CPU and memory budget counters.
//!
//! The inspector is a pure projection: every query reads the counters fresh
//! from the host, nothing is cached.  Percentages are reported exactly, in
//! basis points (hundredths of a percent), so that the computation stays in
//! integer arithmetic; rendering as a decimal number is left to the front end.

use vstd::prelude::*;

verus! {

#[verifier::external_type_specification]
#[verifier::external_body]
pub struct ExHost(soroban_env_host::Host);

#[verifier::external_type_specification]
#[verifier::external_body]
pub struct ExBudget(soroban_env_host::budget::Budget);

/// Relies on `Host::budget_cloned`: hands out a clone of the host's own
/// budget object, through which the counters below are read.
#[verifier::external_body]
fn host_budget(host: &soroban_env_host::Host) -> soroban_env_host::budget::Budget {
    host.budget_cloned()
}

/// Relies on `Budget::get_cpu_insns_consumed`: the net count of CPU
/// instructions charged so far; `None` when the budget is inaccessible.
#[verifier::external_body]
fn budget_cpu_consumed(budget: &soroban_env_host::budget::Budget) -> Option<u64> {
    match budget.get_cpu_insns_consumed() {
        Ok(v) => Some(v),
        Err(_) => None,
    }
}

/// Relies on `Budget::get_cpu_insns_remaining`: the configured CPU limit
/// minus the net count, saturated at zero; `None` when inaccessible.
#[verifier::external_body]
fn budget_cpu_remaining(budget: &soroban_env_host::budget::Budget) -> Option<u64> {
    match budget.get_cpu_insns_remaining() {
        Ok(v) => Some(v),
        Err(_) => None,
    }
}

/// Relies on `Budget::get_mem_bytes_consumed`: the peak count of memory
/// bytes charged so far; `None` when the budget is inaccessible.
#[verifier::external_body]
fn budget_mem_consumed(budget: &soroban_env_host::budget::Budget) -> Option<u64> {
    match budget.get_mem_bytes_consumed() {
        Ok(v) => Some(v),
        Err(_) => None,
    }
}

/// Relies on `Budget::get_mem_bytes_remaining`: the configured memory limit
/// minus the net count, saturated at zero; `None` when inaccessible.
#[verifier::external_body]
fn budget_mem_remaining(budget: &soroban_env_host::budget::Budget) -> Option<u64> {
    match budget.get_mem_bytes_remaining() {
        Ok(v) => Some(v),
        Err(_) => None,
    }
}

/// Immutable snapshot of the host's budget counters at one point in time.
pub struct BudgetInfo {
    pub cpu_instructions: u64,
    pub cpu_limit: u64,
    pub memory_bytes: u64,
    pub memory_limit: u64,
}

/// Consumption as a fraction of the limit, in basis points (1/100 of a
/// percent), rounded towards zero.  A limit of zero means "no limit was
/// configured", and the consumption is reported as zero rather than as a
/// division by zero.
pub open spec fn percentage_bps(consumed: u64, limit: u64) -> int {
    if limit == 0 {
        0
    } else {
        (consumed * 10000) / (limit as int)
    }
}

/// Whether consumption is strictly above 80% of the limit (the display
/// layer's warning threshold).  With no configured limit nothing is ever
/// above the threshold.
pub open spec fn over_warning_threshold(consumed: u64, limit: u64) -> bool {
    limit != 0 && consumed * 5 > limit * 4
}

impl BudgetInfo {
    /// Builds a snapshot from the four counters as read off the host.
    pub fn from_counters(cpu_instructions: u64, cpu_limit: u64, memory_bytes: u64, memory_limit: u64) -> (r:
        BudgetInfo)
        ensures
            r.cpu_instructions == cpu_instructions,
            r.cpu_limit == cpu_limit,
            r.memory_bytes == memory_bytes,
            r.memory_limit == memory_limit,
    {
        BudgetInfo { cpu_instructions, cpu_limit, memory_bytes, memory_limit }
    }

    /// CPU consumption as a fraction of the CPU limit, in basis points.
    pub fn cpu_percentage_bps(&self) -> (r: u128)
        ensures
            r == percentage_bps(self.cpu_instructions, self.cpu_limit),
    {
        if self.cpu_limit == 0 {
            0
        } else {
            (self.cpu_instructions as u128) * 10000 / (self.cpu_limit as u128)
        }
    }

    /// Memory consumption as a fraction of the memory limit, in basis points.
    pub fn memory_percentage_bps(&self) -> (r: u128)
        ensures
            r == percentage_bps(self.memory_bytes, self.memory_limit),
    {
        if self.memory_limit == 0 {
            0
        } else {
            (self.memory_bytes as u128) * 10000 / (self.memory_limit as u128)
        }
    }

    /// True when CPU consumption is strictly above 80% of its limit.
    pub fn high_cpu(&self) -> (r: bool)
        ensures
            r == over_warning_threshold(self.cpu_instructions, self.cpu_limit),
    {
        self.cpu_limit != 0 && (self.cpu_instructions as u128) * 5 > (self.cpu_limit as u128) * 4
    }

    /// True when memory consumption is strictly above 80% of its limit.
    pub fn high_memory(&self) -> (r: bool)
        ensures
            r == over_warning_threshold(self.memory_bytes, self.memory_limit),
    {
        self.memory_limit != 0 && (self.memory_bytes as u128) * 5 > (self.memory_limit as u128) * 4
    }
}

/// Addition capped at the largest `u64`, used to rebuild a limit from a
/// consumed counter and the remaining headroom the host reports.
fn saturating_sum(a: u64, b: u64) -> (r: u64)
    ensures
        r == if a + b <= u64::MAX { a + b } else { u64::MAX as int },
{
    if a > u64::MAX - b {
        u64::MAX
    } else {
        a + b
    }
}

/// Reads the budget counters from the host; pure inspection, no side effect
/// on the host.
pub struct BudgetInspector;

impl BudgetInspector {
    /// Queries the host's budget and assembles a fresh snapshot.  The host
    /// reports consumed counters and remaining headroom; each limit is
    /// rebuilt as consumed plus remaining (capped at the largest `u64`).
    /// A counter the host cannot hand out is reported as zero.  For memory
    /// the host reports peak consumption but headroom against the net, so
    /// after a refund the rebuilt memory limit can read high by the
    /// refunded amount.
    ///
    /// The values themselves depend on the host's state at the moment of
    /// the call; what the snapshot means for a given set of counters is
    /// stated on [`BudgetInfo`]'s own methods.  Whatever the host reports,
    /// each rebuilt limit is at least the consumed counter, so a
    /// percentage never reads above one hundred.
    pub fn get_cpu_usage(host: &soroban_env_host::Host) -> (r: BudgetInfo)
        ensures
            r.cpu_instructions <= r.cpu_limit,
            r.memory_bytes <= r.memory_limit,
    {
        let budget = host_budget(host);
        let cpu = budget_cpu_consumed(&budget).unwrap_or(0);
        let cpu_remaining = budget_cpu_remaining(&budget).unwrap_or(0);
        let mem = budget_mem_consumed(&budget).unwrap_or(0);
        let mem_remaining = budget_mem_remaining(&budget).unwrap_or(0);
        BudgetInfo {
            cpu_instructions: cpu,
            cpu_limit: saturating_sum(cpu, cpu_remaining),
            memory_bytes: mem,
            memory_limit: saturating_sum(mem, mem_remaining),
        }
    }
}

} // verus!
