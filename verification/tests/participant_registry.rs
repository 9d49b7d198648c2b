use cyclonedds::participant_pool::ParticipantRegistry;
use cyclonedds::DdsError;

#[test]
fn insert_get_and_replace() {
    let mut r: ParticipantRegistry<&str> = ParticipantRegistry::new();
    r.insert(0, "p0", 10);
    r.insert(1, "p1", 10);
    assert_eq!(r.get(0), Some(&"p0"));
    assert_eq!(r.get(2), None);
    r.insert(0, "p0b", 20);
    assert_eq!(r.get(0), Some(&"p0b"));
    assert_eq!(r.domains(), vec![0, 1]);
}

#[test]
fn remove_and_unknown_heartbeat() {
    let mut r: ParticipantRegistry<u8> = ParticipantRegistry::new();
    r.insert(5, 1, 0);
    assert_eq!(r.remove(5), Some(1));
    assert_eq!(r.remove(5), None);
    match r.heartbeat(5, 1) {
        Err(DdsError::BadParameter(m)) => assert_eq!(m, "domain not in pool"),
        other => panic!("unexpected {other:?}"),
    }
}

#[test]
fn purge_removes_exactly_the_stale() {
    let mut r: ParticipantRegistry<u8> = ParticipantRegistry::new();
    r.insert(0, 0, 100);
    r.insert(1, 1, 50);
    r.insert(2, 2, 0);
    r.heartbeat(2, 95).unwrap();
    let stale = r.purge_stale(100, 10);
    assert_eq!(stale, vec![1]);
    assert_eq!(r.domains(), vec![0, 2]);
    // A heartbeat "from the future" counts as no time elapsed.
    r.insert(3, 3, 500);
    assert_eq!(r.purge_stale(100, 0), vec![2]);
    assert_eq!(r.domains(), vec![0, 3]);
}
