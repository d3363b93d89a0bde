//! A safe, verified core for Windows job objects.
//!
//! Job objects group processes so that resource limits — working-set size,
//! priority class, scheduling class, processor affinity, lifetime — can be
//! enforced on the group as a whole. This crate holds the part of that
//! abstraction with real invariants and proves them: the limit record and
//! its builder, the byte-exact codec for the record the OS exchanges, the
//! handle-ownership discipline, and the interpretation of each OS call's
//! outcome. The OS calls themselves are an opaque boundary: a separate,
//! unverified shim makes them and hands their raw outcomes (return codes,
//! error codes, byte buffers) to the functions here.

mod codec;
mod error;
mod job;
mod lifecycle;
mod limits;
mod query;
mod telemetry;

pub use codec::{
    basic_record_from_bytes, basic_record_to_bytes, lemma_basic_bytes_then_record_roundtrip,
    lemma_basic_record_bytes_is_prefix, lemma_bytes_then_record_roundtrip,
    lemma_cleared_record_stays_cleared, lemma_record_then_bytes_roundtrip, record_from_bytes,
    record_to_bytes, spec_basic_record_bytes, spec_record_bytes, spec_record_from_basic_bytes,
    spec_record_from_bytes, BASIC_RECORD_BYTE_LEN, RECORD_BYTE_LEN,
};
pub use error::JobError;
pub use job::Job;
pub use lifecycle::{
    lemma_detached_handle_never_released, lemma_released_at_most_once, lifecycle_step,
    spec_lifecycle_step, spec_release_count, HandleEvent, HandleState, ReleaseAction,
};
pub use limits::{
    ExtendedLimitInfo, PriorityClass, JOB_OBJECT_LIMIT_AFFINITY,
    JOB_OBJECT_LIMIT_KILL_ON_JOB_CLOSE, JOB_OBJECT_LIMIT_PRIORITY_CLASS,
    JOB_OBJECT_LIMIT_SCHEDULING_CLASS, JOB_OBJECT_LIMIT_WORKINGSET,
};
pub use query::process_id_list_outcome;
pub use telemetry::{affinity_mask_outcome, memory_info_outcome, ProcessMemoryCounters};
