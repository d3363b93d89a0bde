use win32job::{
    affinity_mask_outcome, lifecycle_step, memory_info_outcome, process_id_list_outcome,
    record_to_bytes, ExtendedLimitInfo, HandleEvent, HandleState, Job, JobError, PriorityClass,
    ProcessMemoryCounters, ReleaseAction,
};

#[test]
fn create_outcome_owns_nonnull_handle() {
    let job = Job::create_outcome(0x1234, 0).unwrap();
    assert_eq!(job.handle(), 0x1234);
}

#[test]
fn create_outcome_null_handle_is_create_failed() {
    let r = Job::create_outcome(0, 5);
    match r {
        Err(e) => assert_eq!(e, JobError::CreateFailed(5)),
        Ok(_) => panic!("a null handle must not become a job"),
    }
}

#[test]
fn into_handle_detaches_the_raw_handle() {
    let job = Job::create_outcome(0x77, 0).unwrap();
    let raw = job.into_handle();
    // The job was consumed; the raw handle is the caller's to keep using.
    assert_eq!(raw, 0x77);
}

#[test]
fn set_info_outcome_maps_return_code() {
    assert_eq!(Job::set_info_outcome(1, 0), Ok(()));
    assert_eq!(Job::set_info_outcome(0, 87), Err(JobError::SetInfoFailed(87)));
}

#[test]
fn assign_outcome_maps_return_code() {
    assert_eq!(Job::assign_outcome(1, 0), Ok(()));
    assert_eq!(Job::assign_outcome(0, 6), Err(JobError::AssignFailed(6)));
}

#[test]
fn query_info_outcome_decodes_the_image() {
    let mut info = ExtendedLimitInfo::new();
    info.limit_priority_class(PriorityClass::AboveNormal);
    let bytes = record_to_bytes(&info);
    let queried = Job::query_info_outcome(1, 0, &bytes).unwrap();
    assert_eq!(queried, info);
}

#[test]
fn query_info_outcome_failure_is_get_info_failed() {
    let bytes = vec![0u8; 144];
    let r = Job::query_info_outcome(0, 1400, &bytes);
    assert_eq!(r, Err(JobError::GetInfoFailed(1400)));
}

#[test]
fn os_error_code_is_kept() {
    assert_eq!(JobError::CreateFailed(5).os_error(), 5);
    assert_eq!(JobError::AssignFailed(6).os_error(), 6);
    assert_eq!(JobError::SetInfoFailed(7).os_error(), 7);
    assert_eq!(JobError::GetInfoFailed(8).os_error(), 8);
}

#[test]
fn errors_describe_their_operation() {
    assert_eq!(JobError::CreateFailed(5).describe(), "Failed to create job");
    assert_eq!(JobError::AssignFailed(5).describe(), "Failed to assign job");
    assert_eq!(JobError::SetInfoFailed(5).describe(), "Failed to set info for job");
    assert_eq!(JobError::GetInfoFailed(5).describe(), "Failed to get info for job");
}

#[test]
fn empty_membership_gives_empty_list() {
    let buffer = vec![0u64; 1024];
    let pids = process_id_list_outcome(1, 0, 0, &buffer).unwrap();
    assert_eq!(pids, Vec::<u64>::new());
}

#[test]
fn one_member_gives_its_process_id() {
    let mut buffer = vec![0u64; 1024];
    buffer[0] = 4242;
    let pids = process_id_list_outcome(1, 0, 1, &buffer).unwrap();
    assert_eq!(pids, vec![4242]);
}

#[test]
fn member_list_keeps_the_reported_order_and_count() {
    let buffer = vec![11, 22, 33, 44, 55];
    let pids = process_id_list_outcome(1, 0, 3, &buffer).unwrap();
    assert_eq!(pids, vec![11, 22, 33]);
}

#[test]
fn member_list_failure_is_get_info_failed() {
    let buffer = vec![0u64; 1024];
    let r = process_id_list_outcome(0, 234, 0, &buffer);
    match r {
        Err(e) => assert_eq!(e, JobError::GetInfoFailed(234)),
        Ok(_) => panic!("a zero return code must not yield a list"),
    }
}

#[test]
fn scope_end_of_an_owned_handle_releases_it() {
    let (state, action) = lifecycle_step(HandleState::Open, HandleEvent::ScopeEnd);
    assert_eq!(state, HandleState::Closed);
    assert_eq!(action, ReleaseAction::Release);
}

#[test]
fn detach_then_scope_end_releases_nothing() {
    let (state, action) = lifecycle_step(HandleState::Open, HandleEvent::Detach);
    assert_eq!(state, HandleState::Detached);
    assert_eq!(action, ReleaseAction::Keep);
    let (state, action) = lifecycle_step(state, HandleEvent::ScopeEnd);
    assert_eq!(state, HandleState::Detached);
    assert_eq!(action, ReleaseAction::Keep);
}

#[test]
fn closed_handle_is_never_released_again() {
    let (state, action) = lifecycle_step(HandleState::Closed, HandleEvent::ScopeEnd);
    assert_eq!(state, HandleState::Closed);
    assert_eq!(action, ReleaseAction::Keep);
    let (state, action) = lifecycle_step(HandleState::Closed, HandleEvent::Detach);
    assert_eq!(state, HandleState::Closed);
    assert_eq!(action, ReleaseAction::Keep);
}

#[test]
fn memory_info_outcome_maps_return_code() {
    let counters = ProcessMemoryCounters {
        page_fault_count: 3,
        peak_working_set_size: 200,
        working_set_size: 100,
        quota_peak_paged_pool_usage: 0,
        quota_paged_pool_usage: 0,
        quota_peak_non_paged_pool_usage: 0,
        quota_non_paged_pool_usage: 0,
        pagefile_usage: 50,
        peak_pagefile_usage: 60,
    };
    assert_eq!(memory_info_outcome(1, 0, counters), Ok(counters));
    assert_eq!(memory_info_outcome(0, 998, counters), Err(998));
}

#[test]
fn affinity_mask_outcome_maps_return_code() {
    assert_eq!(affinity_mask_outcome(1, 0, 1, 0xFF), Ok((1, 0xFF)));
    assert_eq!(affinity_mask_outcome(0, 5, 0, 0), Err(5));
}

#[test]
fn query_basic_info_outcome_decodes_the_basic_image() {
    let mut info = ExtendedLimitInfo::new();
    info.limit_scheduling_class(5);
    let bytes = win32job::basic_record_to_bytes(&info);
    let queried = Job::query_basic_info_outcome(1, 0, &bytes).unwrap();
    assert_eq!(queried, info);
    let r = Job::query_basic_info_outcome(0, 31, &bytes);
    assert_eq!(r, Err(JobError::GetInfoFailed(31)));
}
