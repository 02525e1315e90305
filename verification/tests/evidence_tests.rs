use cwe::evidence::{Timestamp, WipeEvidence};

fn opened() -> WipeEvidence {
    WipeEvidence::new_at(
        "cert-1".to_string(),
        Timestamp { secs: -5, nanos: 7 },
        "abc",
        "/dev/sdé",
        "overwrite",
        "purge",
    )
}

#[test]
fn new_at_opens_certificate() {
    let ev = opened();
    assert_eq!(ev.version, "1.0");
    assert_eq!(ev.certificate_id, "cert-1");
    assert_eq!(ev.device_id, "abc");
    assert_eq!(ev.device_path, "/dev/sdé");
    assert_eq!(ev.method, "overwrite");
    assert_eq!(ev.nist_level, "purge");
    assert_eq!(ev.timestamp_start, Timestamp { secs: -5, nanos: 7 });
    assert_eq!(ev.timestamp_end, None);
    assert_eq!(ev.pre_hash, None);
    assert_eq!(ev.post_hash, None);
    assert!(ev.logs.is_empty());
    assert!(!ev.is_finished());
}

#[test]
fn new_gives_fresh_identifier_and_current_time() {
    let a = WipeEvidence::new("abc", "/dev/sda", "overwrite", "purge");
    let b = WipeEvidence::new("abc", "/dev/sda", "overwrite", "purge");
    assert_ne!(a.certificate_id, b.certificate_id);
    for ev in [&a, &b] {
        let id: Vec<char> = ev.certificate_id.chars().collect();
        assert_eq!(id.len(), 36);
        for (i, c) in id.iter().enumerate() {
            if i == 8 || i == 13 || i == 18 || i == 23 {
                assert_eq!(*c, '-');
            } else {
                assert!(c.is_ascii_digit() || ('a'..='f').contains(c));
            }
        }
        assert_eq!(id[14], '4');
        assert_eq!(ev.version, "1.0");
        assert_eq!(ev.device_id, "abc");
        assert_eq!(ev.device_path, "/dev/sda");
        assert_eq!(ev.method, "overwrite");
        assert_eq!(ev.nist_level, "purge");
        assert_eq!(ev.timestamp_end, None);
        assert_eq!(ev.pre_hash, None);
        assert_eq!(ev.post_hash, None);
        assert!(ev.logs.is_empty());
        assert!(ev.timestamp_start.secs > 1_600_000_000);
        assert!(ev.timestamp_start.nanos < 1_000_000_000);
    }
    assert!(a.timestamp_start.secs <= b.timestamp_start.secs);
}

#[test]
fn finish_sets_completion_exactly_once() {
    let mut ev = opened();
    assert!(ev.finish_at(Timestamp { secs: 10, nanos: 1 }));
    assert!(ev.is_finished());
    assert_eq!(ev.timestamp_end, Some(Timestamp { secs: 10, nanos: 1 }));
    assert!(!ev.finish_at(Timestamp { secs: 20, nanos: 2 }));
    assert_eq!(ev.timestamp_end, Some(Timestamp { secs: 10, nanos: 1 }));
    ev.finish();
    assert_eq!(ev.timestamp_end, Some(Timestamp { secs: 10, nanos: 1 }));
}

#[test]
fn finish_stamps_the_current_time() {
    let mut ev = WipeEvidence::new("abc", "/dev/sda", "overwrite", "purge");
    assert_eq!(ev.timestamp_end, None);
    ev.finish();
    let end = ev.timestamp_end.unwrap();
    assert!(end.secs >= ev.timestamp_start.secs);
    assert!(end.nanos < 1_000_000_000);
    ev.finish();
    assert_eq!(ev.timestamp_end, Some(end));
}

#[test]
fn log_lines_are_kept_in_order() {
    let mut ev = opened();
    assert!(ev.append_log("first"));
    assert!(ev.append_log("second"));
    assert!(ev.append_log(""));
    assert!(ev.append_log("first"));
    ev.finish_at(Timestamp { secs: 10, nanos: 0 });
    assert_eq!(ev.logs, vec!["first", "second", "", "first"]);
}

#[test]
fn closed_certificate_takes_no_more_lines() {
    let mut ev = opened();
    ev.append_log("before");
    ev.finish_at(Timestamp { secs: 10, nanos: 0 });
    assert!(!ev.append_log("after"));
    assert_eq!(ev.logs, vec!["before"]);
    assert_eq!(ev.timestamp_end, Some(Timestamp { secs: 10, nanos: 0 }));
}

#[test]
fn append_and_finish_leave_other_fields() {
    let mut ev = opened();
    ev.append_log("line");
    ev.finish_at(Timestamp { secs: 10, nanos: 0 });
    assert_eq!(ev.version, "1.0");
    assert_eq!(ev.certificate_id, "cert-1");
    assert_eq!(ev.device_id, "abc");
    assert_eq!(ev.device_path, "/dev/sdé");
    assert_eq!(ev.method, "overwrite");
    assert_eq!(ev.nist_level, "purge");
    assert_eq!(ev.timestamp_start, Timestamp { secs: -5, nanos: 7 });
    assert_eq!(ev.pre_hash, None);
    assert_eq!(ev.post_hash, None);
}

#[test]
fn canonical_bytes_exact() {
    let mut ev = opened();
    ev.post_hash = Some("h".to_string());
    ev.append_log("one");
    ev.append_log("");
    ev.finish_at(Timestamp { secs: 10, nanos: 999_999_999 });
    let expected: Vec<u8> = vec![
        87, 69, 86, 1, 3, 0, 0, 0, 0, 0, 0, 0, 49, 46, 48, 6, 0, 0, 0, 0, 0, 0, 0, 99, 101, 114,
        116, 45, 49, 3, 0, 0, 0, 0, 0, 0, 0, 97, 98, 99, 9, 0, 0, 0, 0, 0, 0, 0, 47, 100, 101,
        118, 47, 115, 100, 195, 169, 9, 0, 0, 0, 0, 0, 0, 0, 111, 118, 101, 114, 119, 114, 105,
        116, 101, 5, 0, 0, 0, 0, 0, 0, 0, 112, 117, 114, 103, 101, 251, 255, 255, 255, 255, 255,
        255, 127, 7, 0, 0, 0, 1, 10, 0, 0, 0, 0, 0, 0, 128, 255, 201, 154, 59, 0, 1, 1, 0, 0, 0,
        0, 0, 0, 0, 104, 2, 0, 0, 0, 0, 0, 0, 0, 3, 0, 0, 0, 0, 0, 0, 0, 111, 110, 101, 0, 0, 0,
        0, 0, 0, 0, 0,
    ];
    assert_eq!(ev.canonical_bytes(), expected);
}

#[test]
fn canonical_bytes_of_open_certificate() {
    let ev = WipeEvidence::new_at("".to_string(), Timestamp { secs: 0, nanos: 0 }, "", "", "", "");
    let mut expected: Vec<u8> = vec![87, 69, 86, 1, 3, 0, 0, 0, 0, 0, 0, 0, 49, 46, 48];
    for _ in 0..5 {
        expected.extend_from_slice(&[0u8; 8]);
    }
    expected.extend_from_slice(&[0, 0, 0, 0, 0, 0, 0, 128, 0, 0, 0, 0]);
    expected.extend_from_slice(&[0, 0, 0]);
    expected.extend_from_slice(&[0u8; 8]);
    assert_eq!(ev.canonical_bytes(), expected);
}

#[test]
fn canonical_bytes_time_extremes() {
    let mut ev =
        WipeEvidence::new_at("".to_string(), Timestamp { secs: i64::MIN, nanos: u32::MAX }, "", "", "", "");
    let bytes = ev.canonical_bytes();
    assert_eq!(&bytes[55..67], &[0, 0, 0, 0, 0, 0, 0, 0, 255, 255, 255, 255]);
    ev.timestamp_start = Timestamp { secs: i64::MAX, nanos: 0 };
    let bytes = ev.canonical_bytes();
    assert_eq!(&bytes[55..67], &[255, 255, 255, 255, 255, 255, 255, 255, 0, 0, 0, 0]);
    ev.timestamp_start = Timestamp { secs: -1, nanos: 0 };
    let bytes = ev.canonical_bytes();
    assert_eq!(&bytes[55..67], &[255, 255, 255, 255, 255, 255, 255, 127, 0, 0, 0, 0]);
}

#[test]
fn canonical_bytes_depend_on_content_alone() {
    let a = opened();
    let b = opened();
    assert_eq!(a.canonical_bytes(), b.canonical_bytes());
    let mut c = opened();
    c.append_log("x");
    assert_ne!(a.canonical_bytes(), c.canonical_bytes());
    let mut d = opened();
    d.pre_hash = Some(String::new());
    assert_ne!(a.canonical_bytes(), d.canonical_bytes());
    let mut one = opened();
    one.append_log("ab");
    let mut two = opened();
    two.append_log("a");
    two.append_log("b");
    assert_ne!(one.canonical_bytes(), two.canonical_bytes());
}

#[test]
fn canonical_bytes_do_not_change_the_certificate() {
    let mut ev = opened();
    ev.append_log("line");
    let before = ev.clone();
    let _ = ev.canonical_bytes();
    assert_eq!(ev.logs, before.logs);
    assert_eq!(ev.timestamp_end, before.timestamp_end);
    assert_eq!(ev.certificate_id, before.certificate_id);
}
