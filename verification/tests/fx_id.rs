use becky::fx_id::FxId;

fn uuid_bits(text: &str) -> u128 {
    match uuid::Uuid::parse_str(text) {
        Ok(uuid) => uuid.as_u128(),
        Err(err) => panic!("test UUID should parse: {err}"),
    }
}

fn parsed(text: &str) -> FxId {
    match text.parse::<FxId>() {
        Ok(id) => id,
        Err(err) => match err {},
    }
}

#[test]
fn new_uuid_v4_creates_uuid_v4_id() {
    let FxId::UuidV4(bits) = FxId::new_uuid_v4() else {
        panic!("expected UUID-backed FxId");
    };

    assert_eq!(uuid::Uuid::from_u128(bits).get_version_num(), 4);
}

#[test]
fn parses_uuid_strings_as_uuid_ids() {
    let bits = uuid_bits("67e55044-10b1-426f-9247-bb680e5fe0c8");
    assert_eq!(parsed("67e55044-10b1-426f-9247-bb680e5fe0c8"), FxId::UuidV4(bits));
}

#[test]
fn parses_u64_strings_as_numeric_ids() {
    assert_eq!(parsed("18446744073709551615"), FxId::U64(u64::MAX));
}

#[test]
fn preserves_non_uuid_non_numeric_strings() {
    assert_eq!(parsed("worker-01"), FxId::String("worker-01".to_string()));
}

#[test]
fn display_round_trips_variant_representations() {
    let cases = [
        FxId::UuidV4(uuid_bits("67e55044-10b1-426f-9247-bb680e5fe0c8")),
        FxId::String("worker-01".to_string()),
        FxId::U64(42),
    ];

    for id in cases {
        assert_eq!(parsed(&id.to_string()), id);
    }
}

#[test]
fn uuid_ids_are_written_in_lower_case_with_hyphens() {
    let id = FxId::parse("67E55044-10B1-426F-9247-BB680E5FE0C8");
    assert_eq!(id.to_string(), "67e55044-10b1-426f-9247-bb680e5fe0c8");
    assert_eq!(id, FxId::parse("67e5504410b1426f9247bb680e5fe0c8"));
}

#[test]
fn numbers_beyond_u64_stay_text() {
    assert_eq!(
        FxId::parse("18446744073709551616"),
        FxId::String("18446744073709551616".to_string())
    );
    assert_eq!(FxId::parse("+7"), FxId::U64(7));
    assert_eq!(FxId::parse(""), FxId::String(String::new()));
}

#[test]
fn a_uuid_wins_over_the_text_it_was_read_from() {
    assert_eq!(FxId::from_uuid_or_text(Some(7), "9"), FxId::UuidV4(7));
    assert_eq!(FxId::from_uuid_or_text(None, "9"), FxId::U64(9));
    assert_eq!(FxId::from_uuid_or_text(None, "nine"), FxId::String("nine".to_string()));
}
