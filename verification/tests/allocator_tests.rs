use corkbot::allocator::{AllocatorConfig, AllocatorConfigError, ITEM_SPACE_SIZE, RARITY_DENOMINATOR};
use corkbot::dates::Date;

#[test]
fn config_rejects_zero_item_space() {
    assert_eq!(
        AllocatorConfig::new(0, 400),
        Err(AllocatorConfigError::ZeroItemSpace)
    );
}

#[test]
fn config_rejects_zero_rarity_denominator() {
    assert_eq!(
        AllocatorConfig::new(905, 0),
        Err(AllocatorConfigError::ZeroRarityDenominator)
    );
}

#[test]
fn config_accepts_defaults() {
    let cfg = AllocatorConfig::new(ITEM_SPACE_SIZE, RARITY_DENOMINATOR).unwrap();
    assert_eq!(cfg.item_space_size, 1010);
    assert_eq!(cfg.rarity_denominator, 400);
}

#[test]
fn allocate_deterministic_over_repeated_calls() {
    let cfg = AllocatorConfig::new(905, 400).unwrap();
    let date = Date { year: 2024, month: 1, day: 1 };
    let first = cfg.allocate(1111, date);
    for _ in 0..1000 {
        assert_eq!(cfg.allocate(1111, date), first);
    }
    assert!(1 <= first.0 && first.0 <= 905);
}

#[test]
fn allocate_stays_in_item_space() {
    let cfg = AllocatorConfig::new(1010, 400).unwrap();
    for uid in 0..200i64 {
        let (item, _) = cfg.allocate(uid, Date { year: 2023, month: 7, day: 15 });
        assert!(1 <= item && item <= 1010);
    }
}

#[test]
fn allocate_depends_on_user_and_day() {
    let cfg = AllocatorConfig::new(905, 400).unwrap();
    let d1 = Date { year: 2024, month: 1, day: 1 };
    let d2 = Date { year: 2024, month: 1, day: 2 };
    // Not a property of the contract, but the mixing should not collapse
    // neighbouring inputs to one value across a whole range of users.
    let mut differs_by_user = false;
    let mut differs_by_day = false;
    for uid in 0..50i64 {
        if cfg.allocate(uid, d1) != cfg.allocate(uid + 1, d1) {
            differs_by_user = true;
        }
        if cfg.allocate(uid, d1) != cfg.allocate(uid, d2) {
            differs_by_day = true;
        }
    }
    assert!(differs_by_user);
    assert!(differs_by_day);
}
