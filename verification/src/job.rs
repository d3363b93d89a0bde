use vstd::prelude::*;

use crate::codec::{basic_record_from_bytes, record_from_bytes, spec_record_from_basic_bytes, spec_record_from_bytes, BASIC_RECORD_BYTE_LEN, RECORD_BYTE_LEN};
use crate::error::JobError;
use crate::limits::ExtendedLimitInfo;

verus! {

/// Exclusive owner of one OS job-object handle.
///
/// A `Job` stands for one open OS resource: the raw handle it carries is
/// never the null handle, and exactly one `Job` holds a given handle.
/// [`Job::into_handle`] is the only way to take the handle out, and it
/// consumes the `Job`, so nothing can release the resource through this
/// type afterwards.
///
/// The OS calls themselves — create, apply, query, assign, close — happen
/// in an unverified shim outside this crate. The shim hands each call's
/// raw outcome (the return code, the OS error code, and any buffer the OS
/// filled) to the `*_outcome` functions here, which decide, exactly as the
/// return code dictates, whether the operation succeeded or which
/// [`JobError`] it raised.
pub struct Job {
    handle: u64,
}

impl Job {
    /// The raw OS handle this job owns.
    pub closed spec fn spec_handle(&self) -> u64 {
        self.handle
    }

    /// An owned handle is never the null handle.
    #[verifier::type_invariant]
    spec fn wf(&self) -> bool {
        self.handle != 0
    }

    /// Decide the outcome of the OS call that creates an anonymous job
    /// object: a null handle means the OS refused, and the error code says
    /// why; any other handle becomes an owned `Job`.
    pub fn create_outcome(raw_handle: u64, os_error: u32) -> (r: Result<Job, JobError>)
        ensures
            raw_handle != 0 ==> (r matches Ok(j) && j.spec_handle() == raw_handle),
            raw_handle == 0 ==> r == Err::<Job, JobError>(JobError::CreateFailed(os_error)),
    {
        if raw_handle == 0 {
            Err(JobError::CreateFailed(os_error))
        } else {
            Ok(Job { handle: raw_handle })
        }
    }

    /// Return the underlying handle, which stays owned by this `Job`:
    /// the borrower must not close it, and it becomes invalid once the
    /// `Job` is released.
    pub fn handle(&self) -> (h: u64)
        ensures
            h == self.spec_handle(),
            h != 0,
    {
        proof {
            use_type_invariant(self);
        }
        self.handle
    }

    /// Return the underlying handle, consuming the `Job`: detachment.
    /// Nothing in this crate will close the handle afterwards — the caller
    /// assumes that responsibility, and no double release can happen,
    /// because no `Job` owning the handle exists any more.
    pub fn into_handle(self) -> (h: u64)
        ensures
            h == self.spec_handle(),
            h != 0,
    {
        proof {
            use_type_invariant(&self);
        }
        let Job { handle } = self;
        handle
    }

    /// Decide the outcome of the OS call that applies limit information to
    /// a job: a zero return code means the OS refused the record, and the
    /// error code says why (an invalid field combination, or a missing
    /// privilege for an elevated priority or scheduling class).
    pub fn set_info_outcome(return_code: i32, os_error: u32) -> (r: Result<(), JobError>)
        ensures
            return_code == 0 ==> r == Err::<(), JobError>(JobError::SetInfoFailed(os_error)),
            return_code != 0 ==> r == Ok::<(), JobError>(()),
    {
        if return_code == 0 {
            Err(JobError::SetInfoFailed(os_error))
        } else {
            Ok(())
        }
    }

    /// Decide the outcome of the OS call that queries a job's extended
    /// limit information. On success the OS has filled the 144-byte image,
    /// and the record it denotes is returned; on a zero return code the OS
    /// refused (an invalid or stale handle), and the error code says why.
    pub fn query_info_outcome(return_code: i32, os_error: u32, raw: &Vec<u8>) -> (r: Result<
        ExtendedLimitInfo,
        JobError,
    >)
        requires
            raw@.len() == RECORD_BYTE_LEN,
        ensures
            return_code == 0 ==> r == Err::<ExtendedLimitInfo, JobError>(
                JobError::GetInfoFailed(os_error),
            ),
            return_code != 0 ==> r == Ok::<ExtendedLimitInfo, JobError>(
                spec_record_from_bytes(raw@),
            ),
    {
        if return_code == 0 {
            Err(JobError::GetInfoFailed(os_error))
        } else {
            Ok(record_from_bytes(raw))
        }
    }

    /// Decide the outcome of the OS call that queries a job's basic limit
    /// information only. On success the OS has filled the 64-byte basic
    /// image; the record it denotes carries the basic fields and nothing
    /// in the extended ones. A zero return code means the OS refused, and
    /// the error code says why.
    pub fn query_basic_info_outcome(return_code: i32, os_error: u32, raw: &Vec<u8>) -> (r: Result<
        ExtendedLimitInfo,
        JobError,
    >)
        requires
            raw@.len() == BASIC_RECORD_BYTE_LEN,
        ensures
            return_code == 0 ==> r == Err::<ExtendedLimitInfo, JobError>(
                JobError::GetInfoFailed(os_error),
            ),
            return_code != 0 ==> r == Ok::<ExtendedLimitInfo, JobError>(
                spec_record_from_basic_bytes(raw@),
            ),
    {
        if return_code == 0 {
            Err(JobError::GetInfoFailed(os_error))
        } else {
            Ok(basic_record_from_bytes(raw))
        }
    }

    /// Decide the outcome of the OS call that assigns a process to a job:
    /// a zero return code means the OS refused (a nesting conflict, a
    /// missing privilege, a dead process, an invalid handle), and the
    /// error code says why.
    pub fn assign_outcome(return_code: i32, os_error: u32) -> (r: Result<(), JobError>)
        ensures
            return_code == 0 ==> r == Err::<(), JobError>(JobError::AssignFailed(os_error)),
            return_code != 0 ==> r == Ok::<(), JobError>(()),
    {
        if return_code == 0 {
            Err(JobError::AssignFailed(os_error))
        } else {
            Ok(())
        }
    }
}

} // verus!
