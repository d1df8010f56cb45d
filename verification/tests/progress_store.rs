use rotator::progress::{decode_record, encode_record, is_plain, plain_char, ProgressRecord};

fn record(index: u64, mawari: &str, nexus: &str) -> ProgressRecord {
    ProgressRecord {
        current_account_index: index,
        current_mawari_name: String::from(mawari),
        current_nexus_name: String::from(nexus),
    }
}

#[test]
fn initial_record_starts_at_zero_with_empty_names() {
    let r = ProgressRecord::initial();
    assert_eq!(r.current_account_index, 0);
    assert_eq!(r.current_mawari_name, "");
    assert_eq!(r.current_nexus_name, "");
}

#[test]
fn encoding_is_the_documented_layout() {
    let r = ProgressRecord::initial();
    assert_eq!(
        encode_record(&r),
        "{\"current_account_index\":0,\"current_mawari_name\":\"\",\"current_nexus_name\":\"\"}"
    );
    let r2 = record(12, "mawari-abc", "nexus-def");
    assert_eq!(
        encode_record(&r2),
        "{\"current_account_index\":12,\"current_mawari_name\":\"mawari-abc\",\"current_nexus_name\":\"nexus-def\"}"
    );
}

#[test]
fn persist_then_reload_yields_identical_record() {
    let r = record(7, "literate-spork-abc123", "upgraded-couscous-xyz789");
    let text = encode_record(&r);
    let back = decode_record(text.as_str()).expect("a persisted record must reload");
    assert_eq!(back.current_account_index, 7);
    assert_eq!(back.current_mawari_name, "literate-spork-abc123");
    assert_eq!(back.current_nexus_name, "upgraded-couscous-xyz789");
}

#[test]
fn round_trip_of_initial_record() {
    let text = encode_record(&ProgressRecord::initial());
    let back = decode_record(text.as_str()).unwrap();
    assert_eq!(back.current_account_index, 0);
    assert_eq!(back.current_mawari_name, "");
    assert_eq!(back.current_nexus_name, "");
}

#[test]
fn round_trip_of_largest_index() {
    let r = record(u64::MAX, "a", "b");
    let back = decode_record(encode_record(&r).as_str()).unwrap();
    assert_eq!(back.current_account_index, u64::MAX);
}

#[test]
fn malformed_texts_are_rejected() {
    assert!(decode_record("").is_none());
    assert!(decode_record("{}").is_none());
    assert!(decode_record("not json at all").is_none());
    // A missing closing brace.
    assert!(decode_record(
        "{\"current_account_index\":0,\"current_mawari_name\":\"\",\"current_nexus_name\":\"\""
    )
    .is_none());
    // Trailing garbage.
    assert!(decode_record(
        "{\"current_account_index\":0,\"current_mawari_name\":\"\",\"current_nexus_name\":\"\"} "
    )
    .is_none());
    // An index with a leading zero is not what the encoder writes.
    assert!(decode_record(
        "{\"current_account_index\":007,\"current_mawari_name\":\"\",\"current_nexus_name\":\"\"}"
    )
    .is_none());
    // An index beyond what the record can hold.
    assert!(decode_record(
        "{\"current_account_index\":99999999999999999999999,\"current_mawari_name\":\"x\",\"current_nexus_name\":\"y\"}"
    )
    .is_none());
    // An escape in a name is not plain.
    assert!(decode_record(
        "{\"current_account_index\":0,\"current_mawari_name\":\"a\\b\",\"current_nexus_name\":\"\"}"
    )
    .is_none());
}

#[test]
fn plainness_of_characters_and_names() {
    assert!(plain_char('a'));
    assert!(plain_char(' '));
    assert!(plain_char('~'));
    assert!(!plain_char('"'));
    assert!(!plain_char('\\'));
    assert!(!plain_char('\n'));
    assert!(is_plain("upgraded-couscous-97x4q"));
    assert!(!is_plain("a\"b"));
    assert!(!is_plain("tab\there"));
}
