use sshx_core::{Sid, Uid};

#[test]
fn sid_round_trip_raw_value() {
    for raw in [0u32, 1, 2, 12345, u32::MAX - 1, u32::MAX] {
        let sid = Sid(raw);
        assert_eq!(sid.0, raw);
        assert_eq!(Sid(sid.0), sid);
    }
}

#[test]
fn uid_round_trip_raw_value() {
    for raw in [0u32, 1, 2, 12345, u32::MAX - 1, u32::MAX] {
        let uid = Uid(raw);
        assert_eq!(uid.0, raw);
        assert_eq!(Uid(uid.0), uid);
    }
}

#[test]
fn identifier_equality_follows_raw_value() {
    assert_eq!(Sid(7), Sid(7));
    assert_ne!(Sid(7), Sid(8));
    assert_eq!(Uid(7), Uid(7));
    assert_ne!(Uid(7), Uid(8));
}

#[test]
fn identifier_ordering_follows_raw_value() {
    assert!(Sid(1) < Sid(2));
    assert!(Sid(2) > Sid(1));
    assert!(Sid(3) <= Sid(3));
    assert!(Uid(0) < Uid(u32::MAX));
    let mut sids = vec![Sid(3), Sid(1), Sid(2)];
    sids.sort();
    assert_eq!(sids, vec![Sid(1), Sid(2), Sid(3)]);
}

#[test]
fn display_is_decimal() {
    assert_eq!(Sid(0).display_string(), "0");
    assert_eq!(Sid(1).display_string(), "1");
    assert_eq!(Sid(42).display_string(), "42");
    assert_eq!(Sid(1000).display_string(), "1000");
    assert_eq!(Sid(u32::MAX).display_string(), "4294967295");
    assert_eq!(Uid(0).display_string(), "0");
    assert_eq!(Uid(90210).display_string(), "90210");
}

#[test]
fn identifiers_usable_as_hash_keys() {
    let mut seen = std::collections::HashSet::new();
    assert!(seen.insert(Sid(1)));
    assert!(seen.insert(Sid(2)));
    assert!(!seen.insert(Sid(1)));
}
