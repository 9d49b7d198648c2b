use cyclonedds::request_reply::{first_reply, reply_topic_name, request_topic_name, CorrelationCounter};
use cyclonedds::sequence::{DdsBoundedSequence, DdsSequence};
use cyclonedds::serde_sample::{serde_sample_ops, SerdeSample, SerdeSampleNative};
use cyclonedds::{
    DdsError, Durability, History, QosBuilder, Reliability, SecurityConfig, OP_ADR, OP_RTS,
    SUBTYPE_1BY, TYPE_SEQ,
};

fn props(b: &QosBuilder) -> Vec<(String, String, bool)> {
    b.properties.clone()
}

#[test]
fn security_properties_are_added_in_order() {
    let qos = SecurityConfig::new()
        .identity_ca("certs/identity_ca.pem")
        .governance("governance.xml")
        .apply_to(QosBuilder::new().reliable());
    let p = props(&qos);
    assert_eq!(p.len(), 5);
    assert_eq!(p[0], ("dds.sec.auth.plugin".into(), "dds.sec.auth.builtin.PKI-DH".into(), false));
    assert_eq!(
        p[1],
        (
            "dds.sec.access.plugin".into(),
            "dds.sec.access.builtin.Access-Permissions".into(),
            false
        )
    );
    assert_eq!(
        p[2],
        ("dds.sec.crypto.plugin".into(), "dds.sec.crypto.builtin.AES-GCM-GMAC".into(), false)
    );
    assert_eq!(
        p[3],
        ("dds.sec.auth.identity_ca".into(), "file:certs/identity_ca.pem".into(), false)
    );
    assert_eq!(p[4], ("dds.sec.access.governance".into(), "file:governance.xml".into(), false));
    assert_eq!(qos.reliability, Some((Reliability::Reliable, 1_000_000_000)));
}

#[test]
fn security_plugins_can_be_overridden() {
    let qos = QosBuilder::new().security(SecurityConfig::new().auth_plugin("custom"));
    assert_eq!(props(&qos)[0].1, "custom");
    assert_eq!(props(&qos).len(), 3);
}

#[test]
fn qos_builder_records_each_setting() {
    let b = QosBuilder::new()
        .best_effort()
        .transient_local()
        .keep_last(7)
        .deadline(5)
        .partition("p1")
        .property_propagate("k", "v", true)
        .binary_property("bin", vec![1, 2]);
    assert_eq!(b.reliability, Some((Reliability::BestEffort, 0)));
    assert_eq!(b.durability, Some(Durability::TransientLocal));
    assert_eq!(b.history, Some(History::KeepLast(7)));
    assert_eq!(b.deadline, Some(5));
    assert_eq!(b.partition.as_deref(), Some("p1"));
    assert_eq!(b.properties, vec![("k".to_string(), "v".to_string(), true)]);
    assert_eq!(b.binary_properties, vec![("bin".to_string(), vec![1u8, 2], false)]);
    assert_eq!(QosBuilder::new().keep_all().history, Some(History::KeepAll));
}

#[test]
fn sequences_hold_their_elements() {
    let s = DdsSequence::from_slice(&[1u32, 2, 3]).unwrap();
    assert_eq!(s.len(), 3);
    assert!(!s.is_empty());
    assert_eq!(s.to_vec(), vec![1, 2, 3]);
    assert_eq!(s.iter().copied().collect::<Vec<_>>(), vec![1, 2, 3]);
    assert!(DdsSequence::<u8>::new().is_empty());
    assert_eq!(s.clone(), s);
}

#[test]
fn bounded_sequences_refuse_too_many_elements() {
    let ok = DdsBoundedSequence::<u8, 2>::from_slice(&[1, 2]).unwrap();
    assert_eq!(ok.as_slice(), &[1, 2]);
    match DdsBoundedSequence::<u8, 2>::from_slice(&[1, 2, 3]) {
        Err(DdsError::BadParameter(m)) => {
            assert_eq!(m, "bounded DDS sequence capacity exceeded: len=3 bound=2")
        }
        other => panic!("unexpected {other:?}"),
    }
}

#[test]
fn serde_samples_carry_their_payload() {
    let s: SerdeSample<u32> = SerdeSample::from_payload(vec![9, 8, 7]);
    assert_eq!(s.as_bytes(), &[9, 8, 7]);
    let native: SerdeSampleNative = s.to_native();
    assert_eq!(native.payload.to_vec(), vec![9, 8, 7]);
    let back: SerdeSample<u32> = SerdeSample::from_native(&native);
    assert_eq!(back, s);
    assert_eq!(serde_sample_ops(), vec![OP_ADR | TYPE_SEQ | SUBTYPE_1BY, 0, OP_RTS]);
}

#[test]
fn requests_and_replies_are_paired_by_id() {
    assert_eq!(request_topic_name("Calc"), "CalcRequest");
    assert_eq!(reply_topic_name("Calc"), "CalcReply");
    let mut c = CorrelationCounter::new();
    assert_eq!(c.take(), 1);
    assert_eq!(c.take(), 2);
    assert_eq!(first_reply(&[5, 2, 2], 2), Some(1));
    assert_eq!(first_reply(&[5, 3], 2), None);
}

#[test]
fn cdr_encoding_default_is_xcdr1() {
    assert_eq!(cyclonedds::CdrEncoding::default(), cyclonedds::CdrEncoding::Xcdr1);
    assert_eq!(cyclonedds::CdrEncoding::Xcdr1.as_xcdr_version(), 1);
    assert_eq!(cyclonedds::CdrEncoding::Xcdr2.as_xcdr_version(), 2);
}
