use vstd::assert_seqs_equal;
use vstd::bytes::*;
use vstd::prelude::*;
use vstd::slice::slice_subrange;

use crate::limits::ExtendedLimitInfo;

verus! {

/// Number of bytes in the OS's extended limit record, on the 64-bit
/// layout this crate targets.
pub const RECORD_BYTE_LEN: usize = 144;

/// Number of bytes in the OS's basic limit record: the leading part of
/// the extended record, up to and including the scheduling class.
pub const BASIC_RECORD_BYTE_LEN: usize = 64;

/// The exact byte image of a record: every field in layout order,
/// little-endian, the reserved padding bytes included.
///
/// This is the fixed-size binary record the OS exchanges. Because the
/// reserved bytes are carried as fields of [`ExtendedLimitInfo`], the
/// image holds all 144 bytes and nothing of the record is lost between
/// a query and the next apply.
pub open spec fn spec_record_bytes(r: ExtendedLimitInfo) -> Seq<u8> {
    spec_u64_to_le_bytes(r.per_process_user_time_limit)
        + spec_u64_to_le_bytes(r.per_job_user_time_limit)
        + spec_u32_to_le_bytes(r.limit_flags)
        + spec_u32_to_le_bytes(r.reserved_after_limit_flags)
        + spec_u64_to_le_bytes(r.minimum_working_set_size)
        + spec_u64_to_le_bytes(r.maximum_working_set_size)
        + spec_u32_to_le_bytes(r.active_process_limit)
        + spec_u32_to_le_bytes(r.reserved_after_active_process_limit)
        + spec_u64_to_le_bytes(r.affinity)
        + spec_u32_to_le_bytes(r.priority_class)
        + spec_u32_to_le_bytes(r.scheduling_class)
        + spec_u64_to_le_bytes(r.io_read_operation_count)
        + spec_u64_to_le_bytes(r.io_write_operation_count)
        + spec_u64_to_le_bytes(r.io_other_operation_count)
        + spec_u64_to_le_bytes(r.io_read_transfer_count)
        + spec_u64_to_le_bytes(r.io_write_transfer_count)
        + spec_u64_to_le_bytes(r.io_other_transfer_count)
        + spec_u64_to_le_bytes(r.process_memory_limit)
        + spec_u64_to_le_bytes(r.job_memory_limit)
        + spec_u64_to_le_bytes(r.peak_process_memory_used)
        + spec_u64_to_le_bytes(r.peak_job_memory_used)
}

/// The record a 144-byte OS image denotes: every field read from its
/// layout offset, little-endian, the reserved padding bytes kept.
pub open spec fn spec_record_from_bytes(b: Seq<u8>) -> ExtendedLimitInfo {
    ExtendedLimitInfo {
        per_process_user_time_limit: spec_u64_from_le_bytes(b.subrange(0, 8)),
        per_job_user_time_limit: spec_u64_from_le_bytes(b.subrange(8, 16)),
        limit_flags: spec_u32_from_le_bytes(b.subrange(16, 20)),
        reserved_after_limit_flags: spec_u32_from_le_bytes(b.subrange(20, 24)),
        minimum_working_set_size: spec_u64_from_le_bytes(b.subrange(24, 32)),
        maximum_working_set_size: spec_u64_from_le_bytes(b.subrange(32, 40)),
        active_process_limit: spec_u32_from_le_bytes(b.subrange(40, 44)),
        reserved_after_active_process_limit: spec_u32_from_le_bytes(b.subrange(44, 48)),
        affinity: spec_u64_from_le_bytes(b.subrange(48, 56)),
        priority_class: spec_u32_from_le_bytes(b.subrange(56, 60)),
        scheduling_class: spec_u32_from_le_bytes(b.subrange(60, 64)),
        io_read_operation_count: spec_u64_from_le_bytes(b.subrange(64, 72)),
        io_write_operation_count: spec_u64_from_le_bytes(b.subrange(72, 80)),
        io_other_operation_count: spec_u64_from_le_bytes(b.subrange(80, 88)),
        io_read_transfer_count: spec_u64_from_le_bytes(b.subrange(88, 96)),
        io_write_transfer_count: spec_u64_from_le_bytes(b.subrange(96, 104)),
        io_other_transfer_count: spec_u64_from_le_bytes(b.subrange(104, 112)),
        process_memory_limit: spec_u64_from_le_bytes(b.subrange(112, 120)),
        job_memory_limit: spec_u64_from_le_bytes(b.subrange(120, 128)),
        peak_process_memory_used: spec_u64_from_le_bytes(b.subrange(128, 136)),
        peak_job_memory_used: spec_u64_from_le_bytes(b.subrange(136, 144)),
    }
}

/// Serialize a record into the 144-byte image the OS takes.
pub fn record_to_bytes(info: &ExtendedLimitInfo) -> (out: Vec<u8>)
    ensures
        out@ == spec_record_bytes(*info),
        out@.len() == RECORD_BYTE_LEN,
{
    let mut out: Vec<u8> = Vec::new();
    let mut piece: Vec<u8> = u64_to_le_bytes(info.per_process_user_time_limit);
    out.append(&mut piece);
    let mut piece: Vec<u8> = u64_to_le_bytes(info.per_job_user_time_limit);
    out.append(&mut piece);
    let mut piece: Vec<u8> = u32_to_le_bytes(info.limit_flags);
    out.append(&mut piece);
    let mut piece: Vec<u8> = u32_to_le_bytes(info.reserved_after_limit_flags);
    out.append(&mut piece);
    let mut piece: Vec<u8> = u64_to_le_bytes(info.minimum_working_set_size);
    out.append(&mut piece);
    let mut piece: Vec<u8> = u64_to_le_bytes(info.maximum_working_set_size);
    out.append(&mut piece);
    let mut piece: Vec<u8> = u32_to_le_bytes(info.active_process_limit);
    out.append(&mut piece);
    let mut piece: Vec<u8> = u32_to_le_bytes(info.reserved_after_active_process_limit);
    out.append(&mut piece);
    let mut piece: Vec<u8> = u64_to_le_bytes(info.affinity);
    out.append(&mut piece);
    let mut piece: Vec<u8> = u32_to_le_bytes(info.priority_class);
    out.append(&mut piece);
    let mut piece: Vec<u8> = u32_to_le_bytes(info.scheduling_class);
    out.append(&mut piece);
    let mut piece: Vec<u8> = u64_to_le_bytes(info.io_read_operation_count);
    out.append(&mut piece);
    let mut piece: Vec<u8> = u64_to_le_bytes(info.io_write_operation_count);
    out.append(&mut piece);
    let mut piece: Vec<u8> = u64_to_le_bytes(info.io_other_operation_count);
    out.append(&mut piece);
    let mut piece: Vec<u8> = u64_to_le_bytes(info.io_read_transfer_count);
    out.append(&mut piece);
    let mut piece: Vec<u8> = u64_to_le_bytes(info.io_write_transfer_count);
    out.append(&mut piece);
    let mut piece: Vec<u8> = u64_to_le_bytes(info.io_other_transfer_count);
    out.append(&mut piece);
    let mut piece: Vec<u8> = u64_to_le_bytes(info.process_memory_limit);
    out.append(&mut piece);
    let mut piece: Vec<u8> = u64_to_le_bytes(info.job_memory_limit);
    out.append(&mut piece);
    let mut piece: Vec<u8> = u64_to_le_bytes(info.peak_process_memory_used);
    out.append(&mut piece);
    let mut piece: Vec<u8> = u64_to_le_bytes(info.peak_job_memory_used);
    out.append(&mut piece);
    proof {
        lemma_auto_spec_u32_to_from_le_bytes();
        lemma_auto_spec_u64_to_from_le_bytes();
    }
    out
}

/// Deserialize a 144-byte OS image into a record.
pub fn record_from_bytes(bytes: &Vec<u8>) -> (info: ExtendedLimitInfo)
    requires
        bytes@.len() == RECORD_BYTE_LEN,
    ensures
        info == spec_record_from_bytes(bytes@),
{
    let s: &[u8] = bytes.as_slice();
    ExtendedLimitInfo {
        per_process_user_time_limit: u64_from_le_bytes(slice_subrange(s, 0, 8)),
        per_job_user_time_limit: u64_from_le_bytes(slice_subrange(s, 8, 16)),
        limit_flags: u32_from_le_bytes(slice_subrange(s, 16, 20)),
        reserved_after_limit_flags: u32_from_le_bytes(slice_subrange(s, 20, 24)),
        minimum_working_set_size: u64_from_le_bytes(slice_subrange(s, 24, 32)),
        maximum_working_set_size: u64_from_le_bytes(slice_subrange(s, 32, 40)),
        active_process_limit: u32_from_le_bytes(slice_subrange(s, 40, 44)),
        reserved_after_active_process_limit: u32_from_le_bytes(slice_subrange(s, 44, 48)),
        affinity: u64_from_le_bytes(slice_subrange(s, 48, 56)),
        priority_class: u32_from_le_bytes(slice_subrange(s, 56, 60)),
        scheduling_class: u32_from_le_bytes(slice_subrange(s, 60, 64)),
        io_read_operation_count: u64_from_le_bytes(slice_subrange(s, 64, 72)),
        io_write_operation_count: u64_from_le_bytes(slice_subrange(s, 72, 80)),
        io_other_operation_count: u64_from_le_bytes(slice_subrange(s, 80, 88)),
        io_read_transfer_count: u64_from_le_bytes(slice_subrange(s, 88, 96)),
        io_write_transfer_count: u64_from_le_bytes(slice_subrange(s, 96, 104)),
        io_other_transfer_count: u64_from_le_bytes(slice_subrange(s, 104, 112)),
        process_memory_limit: u64_from_le_bytes(slice_subrange(s, 112, 120)),
        job_memory_limit: u64_from_le_bytes(slice_subrange(s, 120, 128)),
        peak_process_memory_used: u64_from_le_bytes(slice_subrange(s, 128, 136)),
        peak_job_memory_used: u64_from_le_bytes(slice_subrange(s, 136, 144)),
    }
}


/// The exact byte image of a record's basic part: the leading 64 bytes
/// of the extended image, which is what the OS exchanges for the
/// basic-only information class.
pub open spec fn spec_basic_record_bytes(r: ExtendedLimitInfo) -> Seq<u8> {
    spec_u64_to_le_bytes(r.per_process_user_time_limit)
        + spec_u64_to_le_bytes(r.per_job_user_time_limit)
        + spec_u32_to_le_bytes(r.limit_flags)
        + spec_u32_to_le_bytes(r.reserved_after_limit_flags)
        + spec_u64_to_le_bytes(r.minimum_working_set_size)
        + spec_u64_to_le_bytes(r.maximum_working_set_size)
        + spec_u32_to_le_bytes(r.active_process_limit)
        + spec_u32_to_le_bytes(r.reserved_after_active_process_limit)
        + spec_u64_to_le_bytes(r.affinity)
        + spec_u32_to_le_bytes(r.priority_class)
        + spec_u32_to_le_bytes(r.scheduling_class)
}

/// The record a 64-byte basic OS image denotes: the basic fields read
/// from their layout offsets, every extended field zero — a basic-only
/// query says nothing about them.
pub open spec fn spec_record_from_basic_bytes(b: Seq<u8>) -> ExtendedLimitInfo {
    ExtendedLimitInfo {
        per_process_user_time_limit: spec_u64_from_le_bytes(b.subrange(0, 8)),
        per_job_user_time_limit: spec_u64_from_le_bytes(b.subrange(8, 16)),
        limit_flags: spec_u32_from_le_bytes(b.subrange(16, 20)),
        reserved_after_limit_flags: spec_u32_from_le_bytes(b.subrange(20, 24)),
        minimum_working_set_size: spec_u64_from_le_bytes(b.subrange(24, 32)),
        maximum_working_set_size: spec_u64_from_le_bytes(b.subrange(32, 40)),
        active_process_limit: spec_u32_from_le_bytes(b.subrange(40, 44)),
        reserved_after_active_process_limit: spec_u32_from_le_bytes(b.subrange(44, 48)),
        affinity: spec_u64_from_le_bytes(b.subrange(48, 56)),
        priority_class: spec_u32_from_le_bytes(b.subrange(56, 60)),
        scheduling_class: spec_u32_from_le_bytes(b.subrange(60, 64)),
        io_read_operation_count: 0,
        io_write_operation_count: 0,
        io_other_operation_count: 0,
        io_read_transfer_count: 0,
        io_write_transfer_count: 0,
        io_other_transfer_count: 0,
        process_memory_limit: 0,
        job_memory_limit: 0,
        peak_process_memory_used: 0,
        peak_job_memory_used: 0,
    }
}

/// Serialize a record's basic part into the 64-byte image the OS takes
/// for the basic-only information class.
pub fn basic_record_to_bytes(info: &ExtendedLimitInfo) -> (out: Vec<u8>)
    ensures
        out@ == spec_basic_record_bytes(*info),
        out@.len() == BASIC_RECORD_BYTE_LEN,
{
    let mut out: Vec<u8> = Vec::new();
    let mut piece: Vec<u8> = u64_to_le_bytes(info.per_process_user_time_limit);
    out.append(&mut piece);
    let mut piece: Vec<u8> = u64_to_le_bytes(info.per_job_user_time_limit);
    out.append(&mut piece);
    let mut piece: Vec<u8> = u32_to_le_bytes(info.limit_flags);
    out.append(&mut piece);
    let mut piece: Vec<u8> = u32_to_le_bytes(info.reserved_after_limit_flags);
    out.append(&mut piece);
    let mut piece: Vec<u8> = u64_to_le_bytes(info.minimum_working_set_size);
    out.append(&mut piece);
    let mut piece: Vec<u8> = u64_to_le_bytes(info.maximum_working_set_size);
    out.append(&mut piece);
    let mut piece: Vec<u8> = u32_to_le_bytes(info.active_process_limit);
    out.append(&mut piece);
    let mut piece: Vec<u8> = u32_to_le_bytes(info.reserved_after_active_process_limit);
    out.append(&mut piece);
    let mut piece: Vec<u8> = u64_to_le_bytes(info.affinity);
    out.append(&mut piece);
    let mut piece: Vec<u8> = u32_to_le_bytes(info.priority_class);
    out.append(&mut piece);
    let mut piece: Vec<u8> = u32_to_le_bytes(info.scheduling_class);
    out.append(&mut piece);
    proof {
        lemma_auto_spec_u32_to_from_le_bytes();
        lemma_auto_spec_u64_to_from_le_bytes();
    }
    out
}

/// Deserialize a 64-byte basic OS image into a record whose extended
/// fields are zero.
pub fn basic_record_from_bytes(bytes: &Vec<u8>) -> (info: ExtendedLimitInfo)
    requires
        bytes@.len() == BASIC_RECORD_BYTE_LEN,
    ensures
        info == spec_record_from_basic_bytes(bytes@),
{
    let s: &[u8] = bytes.as_slice();
    ExtendedLimitInfo {
        per_process_user_time_limit: u64_from_le_bytes(slice_subrange(s, 0, 8)),
        per_job_user_time_limit: u64_from_le_bytes(slice_subrange(s, 8, 16)),
        limit_flags: u32_from_le_bytes(slice_subrange(s, 16, 20)),
        reserved_after_limit_flags: u32_from_le_bytes(slice_subrange(s, 20, 24)),
        minimum_working_set_size: u64_from_le_bytes(slice_subrange(s, 24, 32)),
        maximum_working_set_size: u64_from_le_bytes(slice_subrange(s, 32, 40)),
        active_process_limit: u32_from_le_bytes(slice_subrange(s, 40, 44)),
        reserved_after_active_process_limit: u32_from_le_bytes(slice_subrange(s, 44, 48)),
        affinity: u64_from_le_bytes(slice_subrange(s, 48, 56)),
        priority_class: u32_from_le_bytes(slice_subrange(s, 56, 60)),
        scheduling_class: u32_from_le_bytes(slice_subrange(s, 60, 64)),
        io_read_operation_count: 0,
        io_write_operation_count: 0,
        io_other_operation_count: 0,
        io_read_transfer_count: 0,
        io_write_transfer_count: 0,
        io_other_transfer_count: 0,
        process_memory_limit: 0,
        job_memory_limit: 0,
        peak_process_memory_used: 0,
        peak_job_memory_used: 0,
    }
}

/// Law: serializing a record and reading the image back yields the very
/// record, field for field. Together with
/// [`lemma_bytes_then_record_roundtrip`] this is the codec half of the
/// apply-after-query idempotence of the limit protocol: nothing of a
/// record is gained or lost by passing through the OS byte image.
pub proof fn lemma_record_then_bytes_roundtrip(r: ExtendedLimitInfo)
    ensures
        spec_record_from_bytes(spec_record_bytes(r)) == r,
{
    lemma_auto_spec_u32_to_from_le_bytes();
    lemma_auto_spec_u64_to_from_le_bytes();
    let b = spec_record_bytes(r);
    assert_seqs_equal!(b.subrange(0, 8) == spec_u64_to_le_bytes(r.per_process_user_time_limit));
    assert_seqs_equal!(b.subrange(8, 16) == spec_u64_to_le_bytes(r.per_job_user_time_limit));
    assert_seqs_equal!(b.subrange(16, 20) == spec_u32_to_le_bytes(r.limit_flags));
    assert_seqs_equal!(b.subrange(20, 24) == spec_u32_to_le_bytes(r.reserved_after_limit_flags));
    assert_seqs_equal!(b.subrange(24, 32) == spec_u64_to_le_bytes(r.minimum_working_set_size));
    assert_seqs_equal!(b.subrange(32, 40) == spec_u64_to_le_bytes(r.maximum_working_set_size));
    assert_seqs_equal!(b.subrange(40, 44) == spec_u32_to_le_bytes(r.active_process_limit));
    assert_seqs_equal!(
        b.subrange(44, 48) == spec_u32_to_le_bytes(r.reserved_after_active_process_limit)
    );
    assert_seqs_equal!(b.subrange(48, 56) == spec_u64_to_le_bytes(r.affinity));
    assert_seqs_equal!(b.subrange(56, 60) == spec_u32_to_le_bytes(r.priority_class));
    assert_seqs_equal!(b.subrange(60, 64) == spec_u32_to_le_bytes(r.scheduling_class));
    assert_seqs_equal!(b.subrange(64, 72) == spec_u64_to_le_bytes(r.io_read_operation_count));
    assert_seqs_equal!(b.subrange(72, 80) == spec_u64_to_le_bytes(r.io_write_operation_count));
    assert_seqs_equal!(b.subrange(80, 88) == spec_u64_to_le_bytes(r.io_other_operation_count));
    assert_seqs_equal!(b.subrange(88, 96) == spec_u64_to_le_bytes(r.io_read_transfer_count));
    assert_seqs_equal!(b.subrange(96, 104) == spec_u64_to_le_bytes(r.io_write_transfer_count));
    assert_seqs_equal!(b.subrange(104, 112) == spec_u64_to_le_bytes(r.io_other_transfer_count));
    assert_seqs_equal!(b.subrange(112, 120) == spec_u64_to_le_bytes(r.process_memory_limit));
    assert_seqs_equal!(b.subrange(120, 128) == spec_u64_to_le_bytes(r.job_memory_limit));
    assert_seqs_equal!(b.subrange(128, 136) == spec_u64_to_le_bytes(r.peak_process_memory_used));
    assert_seqs_equal!(b.subrange(136, 144) == spec_u64_to_le_bytes(r.peak_job_memory_used));
}

/// Law: reading any 144-byte image and serializing the record again
/// yields the image byte for byte. This is the half of apply-after-query
/// idempotence owed by this crate: what a query delivered is exactly what
/// the next apply hands back to the OS, reserved bytes included.
pub proof fn lemma_bytes_then_record_roundtrip(b: Seq<u8>)
    requires
        b.len() == RECORD_BYTE_LEN,
    ensures
        spec_record_bytes(spec_record_from_bytes(b)) == b,
{
    lemma_auto_spec_u32_to_from_le_bytes();
    lemma_auto_spec_u64_to_from_le_bytes();
    assert_seqs_equal!(spec_record_bytes(spec_record_from_bytes(b)) == b);
}

/// Law: a record whose limits were cleared still has zero flags after a
/// full pass through the OS byte image. So clearing and applying leaves
/// the stored record with no enabled limit, whatever was set before.
pub proof fn lemma_cleared_record_stays_cleared(r: ExtendedLimitInfo)
    requires
        r.limit_flags == 0,
    ensures
        spec_record_from_bytes(spec_record_bytes(r)).limit_flags == 0,
{
    lemma_record_then_bytes_roundtrip(r);
}

/// Law: the basic image is exactly the leading 64 bytes of the extended
/// image, so the two information classes agree on every field they share.
pub proof fn lemma_basic_record_bytes_is_prefix(r: ExtendedLimitInfo)
    ensures
        spec_basic_record_bytes(r) == spec_record_bytes(r).subrange(0, BASIC_RECORD_BYTE_LEN as int),
{
    lemma_auto_spec_u32_to_from_le_bytes();
    lemma_auto_spec_u64_to_from_le_bytes();
    assert_seqs_equal!(
        spec_basic_record_bytes(r)
            == spec_record_bytes(r).subrange(0, BASIC_RECORD_BYTE_LEN as int)
    );
}

/// Law: reading any 64-byte basic image and serializing the basic part
/// again yields the image byte for byte — the basic half of
/// apply-after-query idempotence.
pub proof fn lemma_basic_bytes_then_record_roundtrip(b: Seq<u8>)
    requires
        b.len() == BASIC_RECORD_BYTE_LEN,
    ensures
        spec_basic_record_bytes(spec_record_from_basic_bytes(b)) == b,
{
    lemma_auto_spec_u32_to_from_le_bytes();
    lemma_auto_spec_u64_to_from_le_bytes();
    assert_seqs_equal!(spec_basic_record_bytes(spec_record_from_basic_bytes(b)) == b);
}

} // verus!

