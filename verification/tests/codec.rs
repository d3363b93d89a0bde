use win32job::{
    basic_record_from_bytes, basic_record_to_bytes, record_from_bytes, record_to_bytes,
    ExtendedLimitInfo, PriorityClass, BASIC_RECORD_BYTE_LEN, RECORD_BYTE_LEN,
};

fn sample_record() -> ExtendedLimitInfo {
    let mut info = ExtendedLimitInfo::new();
    info.limit_working_memory(1024 * 1024, 4 * 1024 * 1024)
        .limit_priority_class(PriorityClass::BelowNormal)
        .limit_scheduling_class(3)
        .limit_affinity(0x5);
    info.per_process_user_time_limit = 0x0102_0304_0506_0708;
    info.active_process_limit = 42;
    info.io_read_operation_count = 7;
    info.process_memory_limit = 1 << 30;
    info.peak_job_memory_used = 123_456_789;
    info
}

#[test]
fn record_image_is_144_bytes() {
    assert_eq!(RECORD_BYTE_LEN, 144);
    let bytes = record_to_bytes(&ExtendedLimitInfo::new());
    assert_eq!(bytes.len(), 144);
}

#[test]
fn empty_record_encodes_to_zero_bytes() {
    let bytes = record_to_bytes(&ExtendedLimitInfo::new());
    assert!(bytes.iter().all(|b| *b == 0));
}

#[test]
fn record_to_bytes_then_back_is_identity() {
    let info = sample_record();
    let bytes = record_to_bytes(&info);
    let decoded = record_from_bytes(&bytes);
    assert_eq!(decoded, info);
}

#[test]
fn bytes_to_record_then_back_is_identity() {
    // An image with a distinct value in every byte, reserved bytes included.
    let bytes: Vec<u8> = (0..RECORD_BYTE_LEN).map(|i| (i * 37 % 256) as u8).collect();
    let decoded = record_from_bytes(&bytes);
    let encoded = record_to_bytes(&decoded);
    assert_eq!(encoded, bytes);
}

#[test]
fn fields_sit_at_their_layout_offsets() {
    let info = sample_record();
    let bytes = record_to_bytes(&info);
    // Per-process time limit, little-endian at offset 0.
    assert_eq!(
        &bytes[0..8],
        &[0x08, 0x07, 0x06, 0x05, 0x04, 0x03, 0x02, 0x01]
    );
    // Limit flags at offset 16: working set | affinity | priority class
    // | scheduling class = 0x1 | 0x10 | 0x20 | 0x80 = 0xB1.
    assert_eq!(&bytes[16..20], &[0xB1, 0x00, 0x00, 0x00]);
    // Working-set bounds at offsets 24 and 32.
    assert_eq!(u64::from_le_bytes(bytes[24..32].try_into().unwrap()), 1024 * 1024);
    assert_eq!(
        u64::from_le_bytes(bytes[32..40].try_into().unwrap()),
        4 * 1024 * 1024
    );
    // Active-process cap at offset 40, affinity at 48.
    assert_eq!(u32::from_le_bytes(bytes[40..44].try_into().unwrap()), 42);
    assert_eq!(u64::from_le_bytes(bytes[48..56].try_into().unwrap()), 0x5);
    // Priority and scheduling class at offsets 56 and 60.
    assert_eq!(u32::from_le_bytes(bytes[56..60].try_into().unwrap()), 0x4000);
    assert_eq!(u32::from_le_bytes(bytes[60..64].try_into().unwrap()), 3);
    // First I/O counter at offset 64, process memory limit at 112,
    // peak job memory at 136.
    assert_eq!(u64::from_le_bytes(bytes[64..72].try_into().unwrap()), 7);
    assert_eq!(u64::from_le_bytes(bytes[112..120].try_into().unwrap()), 1 << 30);
    assert_eq!(
        u64::from_le_bytes(bytes[136..144].try_into().unwrap()),
        123_456_789
    );
}

#[test]
fn reserved_bytes_survive_a_decode_encode_cycle() {
    let mut bytes = vec![0u8; RECORD_BYTE_LEN];
    // Nonzero padding bytes at offsets 20..24 and 44..48.
    bytes[20] = 0xAA;
    bytes[23] = 0xBB;
    bytes[44] = 0xCC;
    bytes[47] = 0xDD;
    let decoded = record_from_bytes(&bytes);
    let encoded = record_to_bytes(&decoded);
    assert_eq!(encoded, bytes);
}

#[test]
fn cleared_record_round_trips_with_zero_flags() {
    let mut info = sample_record();
    info.limit_kill_on_job_close();
    info.clear_limits();
    let decoded = record_from_bytes(&record_to_bytes(&info));
    assert_eq!(decoded.limit_flags, 0);
    // The now-ignored field values are still there, untouched.
    assert_eq!(decoded.minimum_working_set_size, 1024 * 1024);
    assert_eq!(decoded.priority_class, 0x4000);
}

#[test]
fn saturated_record_encodes_to_all_ones() {
    let bytes: Vec<u8> = vec![0xFF; RECORD_BYTE_LEN];
    let decoded = record_from_bytes(&bytes);
    assert_eq!(decoded.limit_flags, u32::MAX);
    assert_eq!(decoded.maximum_working_set_size, u64::MAX);
    assert_eq!(decoded.peak_job_memory_used, u64::MAX);
    assert_eq!(record_to_bytes(&decoded), bytes);
}

#[test]
fn basic_image_is_the_prefix_of_the_extended_image() {
    assert_eq!(BASIC_RECORD_BYTE_LEN, 64);
    let info = sample_record();
    let basic = basic_record_to_bytes(&info);
    let full = record_to_bytes(&info);
    assert_eq!(basic.len(), 64);
    assert_eq!(basic[..], full[..64]);
}

#[test]
fn basic_bytes_to_record_then_back_is_identity() {
    let bytes: Vec<u8> = (0..BASIC_RECORD_BYTE_LEN).map(|i| (i * 11 % 256) as u8).collect();
    let decoded = basic_record_from_bytes(&bytes);
    assert_eq!(basic_record_to_bytes(&decoded), bytes);
}

#[test]
fn basic_decode_leaves_extended_fields_zero() {
    let info = sample_record();
    let decoded = basic_record_from_bytes(&basic_record_to_bytes(&info));
    assert_eq!(decoded.limit_flags, info.limit_flags);
    assert_eq!(decoded.minimum_working_set_size, info.minimum_working_set_size);
    assert_eq!(decoded.scheduling_class, info.scheduling_class);
    assert_eq!(decoded.io_read_operation_count, 0);
    assert_eq!(decoded.process_memory_limit, 0);
    assert_eq!(decoded.peak_job_memory_used, 0);
}
