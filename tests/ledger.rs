use inventory_manager::ledger::{apply_movement, TransactionType};

#[test]
fn movement_kinds_parse_and_print() {
    assert_eq!(TransactionType::from_str("Addition"), Some(TransactionType::Addition));
    assert_eq!(TransactionType::from_str("REMOVAL"), Some(TransactionType::Removal));
    assert_eq!(TransactionType::from_str("adjustment"), Some(TransactionType::Adjustment));
    assert_eq!(TransactionType::from_str("transfer"), None);
    assert_eq!(TransactionType::from_lowercase("Removal"), None);
    assert_eq!(TransactionType::Removal.to_string(), "removal");
    assert_eq!(TransactionType::Addition.to_string(), "addition");
    assert_eq!(TransactionType::Adjustment.to_string(), "adjustment");
}

#[test]
fn removal_then_adjustment_from_fifty() {
    let after_removal = apply_movement(50, TransactionType::Removal, 20);
    assert_eq!(after_removal, Some(30));
    let after_adjustment = apply_movement(30, TransactionType::Adjustment, 5);
    assert_eq!(after_adjustment, Some(5));
}

#[test]
fn two_additions_of_ten_from_zero() {
    let first = apply_movement(0, TransactionType::Addition, 10).unwrap();
    let second = apply_movement(first, TransactionType::Addition, 10).unwrap();
    assert_eq!(second, 20);
}

#[test]
fn removal_may_go_negative() {
    assert_eq!(apply_movement(3, TransactionType::Removal, 5), Some(-2));
}

#[test]
fn replayed_history_matches_its_totals() {
    let history = [
        (TransactionType::Addition, 7),
        (TransactionType::Removal, 2),
        (TransactionType::Adjustment, 40),
        (TransactionType::Addition, 5),
        (TransactionType::Removal, 1),
    ];
    let mut level = 0;
    for (kind, q) in history {
        level = apply_movement(level, kind, q).unwrap();
    }
    assert_eq!(level, 40 + 5 - 1);
}

#[test]
fn out_of_range_level_is_refused() {
    assert_eq!(apply_movement(i32::MAX, TransactionType::Addition, 1), None);
    assert_eq!(apply_movement(i32::MIN, TransactionType::Removal, 1), None);
    assert_eq!(apply_movement(i32::MIN, TransactionType::Adjustment, 0), Some(0));
}
