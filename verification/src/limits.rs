use vstd::prelude::*;

verus! {

// Enable bits of the limit-flags field, with the exact values the OS
// assigns them in its headers. A limit field is honored by the OS only
// while its enable bit is set in `limit_flags`.
/// Enable bit for the minimum/maximum working-set limit.
pub const JOB_OBJECT_LIMIT_WORKINGSET: u32 = 0x0000_0001;

/// Enable bit for the processor-affinity limit.
pub const JOB_OBJECT_LIMIT_AFFINITY: u32 = 0x0000_0010;

/// Enable bit for the priority-class limit.
pub const JOB_OBJECT_LIMIT_PRIORITY_CLASS: u32 = 0x0000_0020;

/// Enable bit for the scheduling-class limit.
pub const JOB_OBJECT_LIMIT_SCHEDULING_CLASS: u32 = 0x0000_0080;

/// Enable bit for terminating every member process when the last handle
/// to the job closes.
pub const JOB_OBJECT_LIMIT_KILL_ON_JOB_CLOSE: u32 = 0x0000_2000;

/// The six OS priority tiers a job can impose on its member processes.
///
/// The numeric value of each tier is the OS-assigned constant; it must
/// match the OS headers exactly, and [`PriorityClass::as_u32`] states each
/// value explicitly.
#[derive(Clone, Copy, Debug, PartialEq, Eq, Structural)]
pub enum PriorityClass {
    Normal,
    Idle,
    High,
    Realtime,
    BelowNormal,
    AboveNormal,
}

impl PriorityClass {
    /// The OS constant for this priority tier.
    pub open spec fn spec_as_u32(self) -> u32 {
        match self {
            PriorityClass::Normal => 0x0000_0020,
            PriorityClass::Idle => 0x0000_0040,
            PriorityClass::High => 0x0000_0080,
            PriorityClass::Realtime => 0x0000_0100,
            PriorityClass::BelowNormal => 0x0000_4000,
            PriorityClass::AboveNormal => 0x0000_8000,
        }
    }

    /// Return the OS constant for this priority tier.
    pub fn as_u32(self) -> (value: u32)
        ensures
            value == self.spec_as_u32(),
    {
        match self {
            PriorityClass::Normal => 0x0000_0020,
            PriorityClass::Idle => 0x0000_0040,
            PriorityClass::High => 0x0000_0080,
            PriorityClass::Realtime => 0x0000_0100,
            PriorityClass::BelowNormal => 0x0000_4000,
            PriorityClass::AboveNormal => 0x0000_8000,
        }
    }
}

/// Basic and extended limit information for a job object, as plain fields.
///
/// The fields mirror, in order, the OS's fixed 144-byte extended limit
/// record: the basic limit record, the I/O counters, and the job-wide
/// memory fields. The two `reserved_*` fields hold the padding bytes of
/// the OS layout; they carry no meaning, but keeping them lets a record
/// pass through a query/mutate/apply cycle byte for byte, so that no
/// undocumented or reserved OS state is ever clobbered.
///
/// A field's value is honored by the OS only while the matching enable bit
/// is set in `limit_flags`. The builder methods below keep that invariant:
/// each one sets a limit field together with its enable bit, so a record
/// built here never carries a silently ignored limit.
#[derive(Clone, Copy, Debug, PartialEq, Eq, Structural)]
pub struct ExtendedLimitInfo {
    /// Per-process user-mode CPU time limit (opaque pass-through).
    pub per_process_user_time_limit: u64,
    /// Per-job user-mode CPU time limit (opaque pass-through).
    pub per_job_user_time_limit: u64,
    /// The enable bits gating every other limit field.
    pub limit_flags: u32,
    /// Reserved OS layout bytes between the flags and the working-set
    /// fields; preserved, never interpreted.
    pub reserved_after_limit_flags: u32,
    /// Minimum working-set size, in bytes, for member processes.
    pub minimum_working_set_size: u64,
    /// Maximum working-set size, in bytes, for member processes.
    pub maximum_working_set_size: u64,
    /// Cap on the number of simultaneously active member processes
    /// (opaque pass-through).
    pub active_process_limit: u32,
    /// Reserved OS layout bytes between the active-process cap and the
    /// affinity mask; preserved, never interpreted.
    pub reserved_after_active_process_limit: u32,
    /// Processor-affinity bitmask for member processes.
    pub affinity: u64,
    /// Priority class for member processes, as the OS constant.
    pub priority_class: u32,
    /// Scheduling class for member processes, 0 (least favorable) to 9.
    pub scheduling_class: u32,
    /// Count of read operations performed by the job (opaque pass-through).
    pub io_read_operation_count: u64,
    /// Count of write operations performed by the job (opaque pass-through).
    pub io_write_operation_count: u64,
    /// Count of other operations performed by the job (opaque pass-through).
    pub io_other_operation_count: u64,
    /// Bytes read by the job (opaque pass-through).
    pub io_read_transfer_count: u64,
    /// Bytes written by the job (opaque pass-through).
    pub io_write_transfer_count: u64,
    /// Bytes transferred by other operations of the job (opaque pass-through).
    pub io_other_transfer_count: u64,
    /// Per-process committed-memory limit, in bytes (opaque pass-through).
    pub process_memory_limit: u64,
    /// Job-wide committed-memory limit, in bytes (opaque pass-through).
    pub job_memory_limit: u64,
    /// Peak memory used by any member process (opaque pass-through).
    pub peak_process_memory_used: u64,
    /// Peak job-wide memory use (opaque pass-through).
    pub peak_job_memory_used: u64,
}

impl ExtendedLimitInfo {
    /// The zeroed record: every limit disabled, every field zero.
    pub open spec fn spec_empty() -> ExtendedLimitInfo {
        ExtendedLimitInfo {
            per_process_user_time_limit: 0,
            per_job_user_time_limit: 0,
            limit_flags: 0,
            reserved_after_limit_flags: 0,
            minimum_working_set_size: 0,
            maximum_working_set_size: 0,
            active_process_limit: 0,
            reserved_after_active_process_limit: 0,
            affinity: 0,
            priority_class: 0,
            scheduling_class: 0,
            io_read_operation_count: 0,
            io_write_operation_count: 0,
            io_other_operation_count: 0,
            io_read_transfer_count: 0,
            io_write_transfer_count: 0,
            io_other_transfer_count: 0,
            process_memory_limit: 0,
            job_memory_limit: 0,
            peak_process_memory_used: 0,
            peak_job_memory_used: 0,
        }
    }

    /// Return an empty record, with no limit active.
    pub fn new() -> (info: Self)
        ensures
            info == Self::spec_empty(),
    {
        ExtendedLimitInfo {
            per_process_user_time_limit: 0,
            per_job_user_time_limit: 0,
            limit_flags: 0,
            reserved_after_limit_flags: 0,
            minimum_working_set_size: 0,
            maximum_working_set_size: 0,
            active_process_limit: 0,
            reserved_after_active_process_limit: 0,
            affinity: 0,
            priority_class: 0,
            scheduling_class: 0,
            io_read_operation_count: 0,
            io_write_operation_count: 0,
            io_other_operation_count: 0,
            io_read_transfer_count: 0,
            io_write_transfer_count: 0,
            io_other_transfer_count: 0,
            process_memory_limit: 0,
            job_memory_limit: 0,
            peak_process_memory_used: 0,
            peak_job_memory_used: 0,
        }
    }

    /// Cause all processes associated with the job to use the same
    /// minimum and maximum working-set sizes, in bytes.
    ///
    /// No local check relates `min` and `max`: the OS is the arbiter of
    /// valid combinations and rejects an invalid pair at apply time.
    pub fn limit_working_memory(&mut self, min: usize, max: usize) -> (r: &mut Self)
        ensures
            *r == (ExtendedLimitInfo {
                minimum_working_set_size: min as u64,
                maximum_working_set_size: max as u64,
                limit_flags: old(self).limit_flags | JOB_OBJECT_LIMIT_WORKINGSET,
                ..*old(self)
            }),
            (*r).limit_flags & JOB_OBJECT_LIMIT_WORKINGSET == JOB_OBJECT_LIMIT_WORKINGSET,
            *final(self) == *final(r),
    {
        self.minimum_working_set_size = min as u64;
        self.maximum_working_set_size = max as u64;
        proof {
            lemma_or_sets_bits(self.limit_flags, JOB_OBJECT_LIMIT_WORKINGSET);
        }
        self.limit_flags = self.limit_flags | JOB_OBJECT_LIMIT_WORKINGSET;
        self
    }

    /// Cause all processes associated with the job to terminate when the
    /// last handle to the job is closed.
    ///
    /// If the calling process is itself a member and the handle owned here
    /// is the last one, releasing it terminates the calling process: a
    /// destructive effect a caller opts into by enabling this limit.
    pub fn limit_kill_on_job_close(&mut self) -> (r: &mut Self)
        ensures
            *r == (ExtendedLimitInfo {
                limit_flags: old(self).limit_flags | JOB_OBJECT_LIMIT_KILL_ON_JOB_CLOSE,
                ..*old(self)
            }),
            (*r).limit_flags & JOB_OBJECT_LIMIT_KILL_ON_JOB_CLOSE
                == JOB_OBJECT_LIMIT_KILL_ON_JOB_CLOSE,
            *final(self) == *final(r),
    {
        proof {
            lemma_or_sets_bits(self.limit_flags, JOB_OBJECT_LIMIT_KILL_ON_JOB_CLOSE);
        }
        self.limit_flags = self.limit_flags | JOB_OBJECT_LIMIT_KILL_ON_JOB_CLOSE;
        self
    }

    /// Cause all processes associated with the job to use the same
    /// priority class.
    ///
    /// Elevating beyond the default tiers can still fail at apply time for
    /// want of an OS privilege; no privilege is checked here.
    pub fn limit_priority_class(&mut self, priority_class: PriorityClass) -> (r: &mut Self)
        ensures
            *r == (ExtendedLimitInfo {
                priority_class: priority_class.spec_as_u32(),
                limit_flags: old(self).limit_flags | JOB_OBJECT_LIMIT_PRIORITY_CLASS,
                ..*old(self)
            }),
            (*r).limit_flags & JOB_OBJECT_LIMIT_PRIORITY_CLASS
                == JOB_OBJECT_LIMIT_PRIORITY_CLASS,
            *final(self) == *final(r),
    {
        self.priority_class = priority_class.as_u32();
        proof {
            lemma_or_sets_bits(self.limit_flags, JOB_OBJECT_LIMIT_PRIORITY_CLASS);
        }
        self.limit_flags = self.limit_flags | JOB_OBJECT_LIMIT_PRIORITY_CLASS;
        self
    }

    /// Cause all processes in the job to use the same scheduling class,
    /// 0 (least favorable) to 9 (most favorable).
    ///
    /// Values above the platform's default ceiling need an OS privilege and
    /// are rejected, if at all, only at apply time; no value is checked here.
    pub fn limit_scheduling_class(&mut self, scheduling_class: u8) -> (r: &mut Self)
        ensures
            *r == (ExtendedLimitInfo {
                scheduling_class: scheduling_class as u32,
                limit_flags: old(self).limit_flags | JOB_OBJECT_LIMIT_SCHEDULING_CLASS,
                ..*old(self)
            }),
            (*r).limit_flags & JOB_OBJECT_LIMIT_SCHEDULING_CLASS
                == JOB_OBJECT_LIMIT_SCHEDULING_CLASS,
            *final(self) == *final(r),
    {
        self.scheduling_class = scheduling_class as u32;
        proof {
            lemma_or_sets_bits(self.limit_flags, JOB_OBJECT_LIMIT_SCHEDULING_CLASS);
        }
        self.limit_flags = self.limit_flags | JOB_OBJECT_LIMIT_SCHEDULING_CLASS;
        self
    }

    /// Cause all processes associated with the job to use the same
    /// processor affinity.
    pub fn limit_affinity(&mut self, affinity: usize) -> (r: &mut Self)
        ensures
            *r == (ExtendedLimitInfo {
                affinity: affinity as u64,
                limit_flags: old(self).limit_flags | JOB_OBJECT_LIMIT_AFFINITY,
                ..*old(self)
            }),
            (*r).limit_flags & JOB_OBJECT_LIMIT_AFFINITY == JOB_OBJECT_LIMIT_AFFINITY,
            *final(self) == *final(r),
    {
        self.affinity = affinity as u64;
        proof {
            lemma_or_sets_bits(self.limit_flags, JOB_OBJECT_LIMIT_AFFINITY);
        }
        self.limit_flags = self.limit_flags | JOB_OBJECT_LIMIT_AFFINITY;
        self
    }

    /// Clear every limit: the enable flags become zero, so the OS ignores
    /// every limit field, whose now-irrelevant values stay untouched.
    pub fn clear_limits(&mut self) -> (r: &mut Self)
        ensures
            *r == (ExtendedLimitInfo { limit_flags: 0, ..*old(self) }),
            *final(self) == *final(r),
    {
        self.limit_flags = 0;
        self
    }
}

impl Default for ExtendedLimitInfo {
    /// The default record is the empty one: no limit active.
    fn default() -> (info: Self)
        ensures
            info == Self::spec_empty(),
    {
        Self::new()
    }
}

/// Bitwise fact behind the `enable bit is set` clauses above: or-ing a
/// mask into a word sets every bit of the mask.
proof fn lemma_or_sets_bits(x: u32, mask: u32)
    ensures
        (x | mask) & mask == mask,
{
    assert((x | mask) & mask == mask) by (bit_vector);
}

} // verus!
