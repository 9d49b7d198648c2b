use cyclonedds::entity_text::{first_name_read, name_from_buffer, second_name_read, NameReadStep};
use cyclonedds::log::{sinks_for_tag, LogSink};
use cyclonedds::topic::check_descriptor_names;
use cyclonedds::{DdsError, KeyDescriptor};

fn key(name: &str) -> KeyDescriptor {
    KeyDescriptor { name: name.to_string(), ops_path: vec![0] }
}

#[test]
fn descriptor_names_are_checked_in_order() {
    assert!(check_descriptor_names("T", "topic", &vec![key("id")]).is_ok());
    let msg = |r: Result<(), DdsError>| match r {
        Err(DdsError::BadParameter(m)) => m,
        other => panic!("unexpected {other:?}"),
    };
    assert_eq!(msg(check_descriptor_names("T\0", "t\0", &vec![])), "type name contains null");
    assert_eq!(msg(check_descriptor_names("T", "t\0", &vec![key("k\0")])), "topic name contains null");
    assert_eq!(msg(check_descriptor_names("T", "t", &vec![key("a"), key("k\0")])), "key name contains null");
}

#[test]
fn sinks_follow_the_registration_tag() {
    assert_eq!(sinks_for_tag(Some(LogSink::Log)), vec![LogSink::Log]);
    assert_eq!(sinks_for_tag(Some(LogSink::Trace)), vec![LogSink::Trace]);
    assert_eq!(sinks_for_tag(None), vec![LogSink::Log, LogSink::Trace]);
}

#[test]
fn entity_text_reads_retry_once_with_the_needed_size() {
    assert!(matches!(first_name_read(5, 256), NameReadStep::Take(5)));
    assert!(matches!(first_name_read(300, 256), NameReadStep::Retry(301)));
    assert!(matches!(first_name_read(256, 256), NameReadStep::Retry(257)));
    assert!(matches!(first_name_read(-3, 256), NameReadStep::Failed(DdsError::BadParameter(_))));
    assert_eq!(second_name_read(300, 300, 301).unwrap(), 300);
    assert_eq!(second_name_read(9, 300, 10).unwrap(), 10);
    assert!(matches!(second_name_read(-10, 300, 301), Err(DdsError::Timeout)));
    assert_eq!(name_from_buffer(b"topic\0\0\0", 5), "topic");
    assert_eq!(name_from_buffer(&[0x61, 0xff], 2), "a\u{fffd}");
}
