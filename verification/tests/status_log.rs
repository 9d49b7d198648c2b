use cyclonedds::{Sample, SampleInfo};
use cyclonedds::log::{log_entry_from_record, log_message_from_bytes, LogCategory};
use cyclonedds::{
    SampleRejectedReason, SampleRejectedStatus, STATUS_ALL, STATUS_DATA_AVAILABLE,
    STATUS_DATA_ON_READERS, STATUS_INCONSISTENT_TOPIC, STATUS_SUBSCRIPTION_MATCHED,
};

#[test]
fn status_bits_are_distinct_and_all_covers_them() {
    assert_eq!(STATUS_INCONSISTENT_TOPIC, 1);
    assert_eq!(STATUS_DATA_AVAILABLE, 1 << 8);
    assert_eq!(STATUS_SUBSCRIPTION_MATCHED, 1 << 12);
    assert_eq!(STATUS_ALL, 0x1fff);
    assert_eq!(STATUS_DATA_AVAILABLE & STATUS_DATA_ON_READERS, 0);
}

#[test]
fn rejected_reason_decodes_known_and_unknown_codes() {
    assert_eq!(SampleRejectedReason::from(0u32), SampleRejectedReason::NotRejected);
    assert_eq!(SampleRejectedReason::from(1u32), SampleRejectedReason::RejectedByInstancesLimit);
    assert_eq!(SampleRejectedReason::from(2u32), SampleRejectedReason::RejectedBySamplesLimit);
    assert_eq!(
        SampleRejectedReason::from(3u32),
        SampleRejectedReason::RejectedBySamplesPerInstanceLimit
    );
    assert_eq!(SampleRejectedReason::from(9u32), SampleRejectedReason::Unknown(9));
    let s = SampleRejectedStatus::from_raw(5, -1, 2, 77);
    assert_eq!(s.total_count, 5);
    assert_eq!(s.total_count_change, -1);
    assert_eq!(s.last_reason, SampleRejectedReason::RejectedBySamplesLimit);
    assert_eq!(s.last_instance_handle, 77);
}

#[test]
fn log_categories_combine_with_bitor() {
    let mut c = LogCategory::fatal() | LogCategory::error();
    assert_eq!(c, LogCategory(3));
    c |= LogCategory::trace();
    assert_eq!(c, LogCategory(35));
    assert_eq!(LogCategory::all(), LogCategory(0x3f));
    assert_eq!(LogCategory::none(), LogCategory(0));
}

#[test]
fn log_message_stops_at_first_nul() {
    assert_eq!(log_message_from_bytes(b"hello\0junk"), "hello");
    assert_eq!(log_message_from_bytes(b"no terminator"), "no terminator");
    assert_eq!(log_message_from_bytes(b""), "");
    assert_eq!(log_message_from_bytes(b"\0"), "");
    assert_eq!(log_message_from_bytes(&[0x66, 0xff, 0x00]), "f\u{fffd}");
}

#[test]
fn log_entry_maps_sentinels_to_none() {
    let e = log_entry_from_record(b"msg\0", 4, Some("a.c".to_string()), 0, None, u32::MAX);
    assert_eq!(e.message, "msg");
    assert_eq!(e.category, LogCategory::warning());
    assert_eq!(e.file.as_deref(), Some("a.c"));
    assert_eq!(e.line, None);
    assert_eq!(e.function, None);
    assert_eq!(e.domain_id, None);
    let e = log_entry_from_record(b"x", 8, None, 12, Some("f".to_string()), 3);
    assert_eq!(e.line, Some(12));
    assert_eq!(e.domain_id, Some(3));
    assert_eq!(e.function.as_deref(), Some("f"));
}

#[test]
fn entity_status_defaults_to_nothing_reported() {
    let s = cyclonedds::EntityStatus::default();
    assert!(s.inconsistent_topic.is_none());
    assert!(s.sample_rejected.is_none());
    assert!(s.subscription_matched.is_none());
}

#[test]
fn sample_getters_report_the_metadata() {
    let info = SampleInfo {
        sample_state: 1,
        view_state: 2,
        instance_state: 4,
        valid_data: true,
        source_timestamp: -9,
        instance_handle: 11,
        publication_handle: 12,
        disposed_generation_count: 3,
        no_writers_generation_count: 5,
        sample_rank: 6,
        generation_rank: 7,
        absolute_generation_rank: 8,
    };
    let s = Sample { data: "d", info };
    assert!(s.is_valid());
    assert_eq!(s.source_timestamp(), -9);
    assert_eq!(s.instance_handle(), 11);
    assert_eq!(s.sample_state(), 1);
    assert_eq!(s.view_state(), 2);
    assert_eq!(s.instance_state(), 4);
    assert_eq!(s.publication_handle(), 12);
    assert_eq!(s.disposed_generation_count(), 3);
    assert_eq!(s.no_writers_generation_count(), 5);
    assert_eq!(s.sample_rank(), 6);
    assert_eq!(s.generation_rank(), 7);
    assert_eq!(s.absolute_generation_rank(), 8);
    assert_eq!(s.data, "d");
}
