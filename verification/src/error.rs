use vstd::prelude::*;

verus! {

/// An operation on a job object failed at the OS boundary.
///
/// Every failure is reported by the OS call that caused it; the variant says
/// which operation was refused and carries the OS error code observed right
/// after the call. Nothing is retried and nothing is swallowed: each caller
/// sees exactly one of these for exactly one failed call.
#[derive(Clone, Copy, Debug, PartialEq, Eq, Structural)]
#[non_exhaustive]
pub enum JobError {
    /// The OS refused to create the job object.
    CreateFailed(u32),
    /// The OS refused to add a process to the job.
    AssignFailed(u32),
    /// The OS refused to apply limit information to the job.
    SetInfoFailed(u32),
    /// The OS refused to return limit or membership information for the job.
    GetInfoFailed(u32),
}

impl JobError {
    /// The OS error code the failed call reported.
    pub open spec fn spec_os_error(self) -> u32 {
        match self {
            JobError::CreateFailed(code) => code,
            JobError::AssignFailed(code) => code,
            JobError::SetInfoFailed(code) => code,
            JobError::GetInfoFailed(code) => code,
        }
    }

    /// Return the OS error code carried by this error.
    pub fn os_error(&self) -> (code: u32)
        ensures
            code == self.spec_os_error(),
    {
        match self {
            JobError::CreateFailed(code) => *code,
            JobError::AssignFailed(code) => *code,
            JobError::SetInfoFailed(code) => *code,
            JobError::GetInfoFailed(code) => *code,
        }
    }

    /// A short description of which operation failed.
    pub fn describe(&self) -> (msg: &'static str)
        ensures
            self is CreateFailed ==> msg@ == "Failed to create job"@,
            self is AssignFailed ==> msg@ == "Failed to assign job"@,
            self is SetInfoFailed ==> msg@ == "Failed to set info for job"@,
            self is GetInfoFailed ==> msg@ == "Failed to get info for job"@,
    {
        match self {
            JobError::CreateFailed(_) => "Failed to create job",
            JobError::AssignFailed(_) => "Failed to assign job",
            JobError::SetInfoFailed(_) => "Failed to set info for job",
            JobError::GetInfoFailed(_) => "Failed to get info for job",
        }
    }
}

} // verus!
