use corkbot::dates::Date;
use corkbot::records::{
    is_canonical_uuid_str, parse_record_id, LuckymonHistory, NewLuckymonHistory,
};

#[test]
fn record_id_reads_the_hex_digits() {
    assert_eq!(
        parse_record_id("67e55044-10b1-426f-9247-bb680e5fe0c8"),
        Some(0x67e5504410b1426f9247bb680e5fe0c8u128)
    );
    assert_eq!(
        parse_record_id("00000000-0000-0000-0000-000000000000"),
        Some(0)
    );
    assert_eq!(
        parse_record_id("FFFFFFFF-FFFF-FFFF-FFFF-FFFFFFFFFFFF"),
        Some(u128::MAX)
    );
}

#[test]
fn record_id_rejects_other_shapes() {
    assert_eq!(parse_record_id(""), None);
    assert_eq!(parse_record_id("67e5504410b1426f9247bb680e5fe0c8"), None);
    assert_eq!(
        parse_record_id("{67e55044-10b1-426f-9247-bb680e5fe0c8}"),
        None
    );
    assert_eq!(
        parse_record_id("67e55044-10b1-426f-9247-bb680e5fe0cg"),
        None
    );
    assert_eq!(parse_record_id("67e55044_10b1_426f_9247_bb680e5fe0c8"), None);
}

#[test]
fn canonical_uuid_shape() {
    assert!(is_canonical_uuid_str("67e55044-10b1-426f-9247-bb680e5fe0c8"));
    assert!(!is_canonical_uuid_str("67e55044-10b1-426f-9247-bb680e5fe0c"));
    assert!(!is_canonical_uuid_str("67e55044-10b1-426f-9247-bb680e5fe0c88"));
}

#[test]
fn history_from_wire_form() {
    let h = LuckymonHistory::try_new(
        "67e55044-10b1-426f-9247-bb680e5fe0c8",
        42,
        "2024-01-01",
        150,
        false,
        String::from("mew"),
        false,
    )
    .unwrap();
    assert_eq!(h.id, 0x67e5504410b1426f9247bb680e5fe0c8u128);
    assert_eq!(h.user_id, 42);
    assert_eq!(h.date_obtained, Date { year: 2024, month: 1, day: 1 });
    assert_eq!(h.pokemon_id, 150);
    assert!(!h.shiny);
    assert_eq!(h.pokemon_name, "mew");
    assert!(!h.traded);
}

#[test]
fn history_rejects_bad_wire_form() {
    assert!(LuckymonHistory::try_new(
        "not-a-uuid",
        42,
        "2024-01-01",
        150,
        false,
        String::from("mew"),
        false,
    )
    .is_none());
    assert!(LuckymonHistory::try_new(
        "67e55044-10b1-426f-9247-bb680e5fe0c8",
        42,
        "2024-02-30",
        150,
        false,
        String::from("mew"),
        false,
    )
    .is_none());
}

#[test]
fn history_new_matches_try_new() {
    let a = LuckymonHistory::new(
        "67e55044-10b1-426f-9247-bb680e5fe0c8",
        7,
        "2023-06-05",
        25,
        true,
        String::from("pikachu"),
        false,
    );
    let b = LuckymonHistory::try_new(
        "67e55044-10b1-426f-9247-bb680e5fe0c8",
        7,
        "2023-06-05",
        25,
        true,
        String::from("pikachu"),
        false,
    )
    .unwrap();
    assert_eq!(a, b);
}

#[test]
fn creation_request_carries_the_fields() {
    let n = NewLuckymonHistory::new(
        9,
        Date { year: 2024, month: 3, day: 8 },
        133,
        true,
        &String::from("eevee"),
        false,
    );
    assert_eq!(n.user_id, 9);
    assert_eq!(n.date_obtained, Date { year: 2024, month: 3, day: 8 });
    assert_eq!(n.pokemon_id, 133);
    assert!(n.shiny);
    assert_eq!(n.pokemon_name, "eevee");
    assert!(!n.traded);
}
