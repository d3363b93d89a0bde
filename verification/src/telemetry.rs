use vstd::prelude::*;

verus! {

/// Point-in-time memory counters of one process, as the OS reports them.
///
/// A snapshot has no identity and no lifecycle beyond the query that
/// produced it. The fields mirror the OS's process-memory-counters
/// record, without its leading size field.
#[derive(Clone, Copy, Debug, PartialEq, Eq, Structural)]
pub struct ProcessMemoryCounters {
    /// Number of page faults.
    pub page_fault_count: u32,
    /// Peak working-set size, in bytes.
    pub peak_working_set_size: u64,
    /// Current working-set size, in bytes.
    pub working_set_size: u64,
    /// Peak paged-pool usage, in bytes.
    pub quota_peak_paged_pool_usage: u64,
    /// Current paged-pool usage, in bytes.
    pub quota_paged_pool_usage: u64,
    /// Peak non-paged-pool usage, in bytes.
    pub quota_peak_non_paged_pool_usage: u64,
    /// Current non-paged-pool usage, in bytes.
    pub quota_non_paged_pool_usage: u64,
    /// Commit charge, in bytes.
    pub pagefile_usage: u64,
    /// Peak commit charge, in bytes.
    pub peak_pagefile_usage: u64,
}

/// Decide the outcome of the OS call that reads a process's memory
/// counters: on a zero return code the OS refused (an invalid handle, or
/// access denied) and the raw OS error code is the whole story — distinct
/// from the job errors, since this boundary has nothing to do with jobs.
pub fn memory_info_outcome(return_code: i32, os_error: u32, counters: ProcessMemoryCounters) -> (r:
    Result<ProcessMemoryCounters, u32>)
    ensures
        return_code == 0 ==> r == Err::<ProcessMemoryCounters, u32>(os_error),
        return_code != 0 ==> r == Ok::<ProcessMemoryCounters, u32>(counters),
{
    if return_code == 0 {
        Err(os_error)
    } else {
        Ok(counters)
    }
}

/// Decide the outcome of the OS call that reads a process's affinity
/// mask and the system's: on success the pair is returned as
/// (process mask, system mask); on a zero return code the raw OS error
/// code is returned, as for the memory counters.
pub fn affinity_mask_outcome(return_code: i32, os_error: u32, process_mask: u64, system_mask: u64)
    -> (r: Result<(u64, u64), u32>)
    ensures
        return_code == 0 ==> r == Err::<(u64, u64), u32>(os_error),
        return_code != 0 ==> r == Ok::<(u64, u64), u32>((process_mask, system_mask)),
{
    if return_code == 0 {
        Err(os_error)
    } else {
        Ok((process_mask, system_mask))
    }
}

} // verus!
