use bill_manager::store::{Bill, Bills};

fn bill(name: &str, amount: f64) -> Bill {
    Bill { name: name.to_string(), amount: amount.to_bits() }
}

#[test]
fn round_trip_single_record() {
    let mut bills = Bills::new();
    bills.add(bill("rent", 1200.0));
    let all = bills.get_all();
    assert_eq!(all.len(), 1);
    assert_eq!(all[0].name, "rent");
    assert_eq!(all[0].amount, 1200.0f64.to_bits());
}

#[test]
fn adding_same_name_replaces_without_duplicate() {
    let mut bills = Bills::new();
    bills.add(bill("rent", 1200.0));
    bills.add(bill("rent", 50.0));
    let all = bills.get_all();
    assert_eq!(all.len(), 1);
    assert_eq!(all[0].name, "rent");
    assert_eq!(all[0].amount, 50.0f64.to_bits());
}

#[test]
fn distinct_names_are_kept_apart() {
    let mut bills = Bills::new();
    bills.add(bill("rent", 1200.0));
    bills.add(bill("water", 40.0));
    let mut all = bills.get_all();
    all.sort_by(|a, b| a.name.cmp(&b.name));
    assert_eq!(all.len(), 2);
    assert_eq!(all[0].name, "rent");
    assert_eq!(all[1].name, "water");
}

#[test]
fn remove_reports_true_once_then_false() {
    let mut bills = Bills::new();
    assert!(!bills.remove("rent"));
    bills.add(bill("rent", 1200.0));
    assert!(bills.remove("rent"));
    assert!(!bills.remove("rent"));
    assert!(bills.get_all().is_empty());
}

#[test]
fn update_on_missing_name_is_a_no_op() {
    let mut bills = Bills::new();
    assert!(!bills.update("ghost", 10.0f64.to_bits()));
    assert!(bills.get_all().is_empty());
}

#[test]
fn update_replaces_amount_in_place() {
    let mut bills = Bills::new();
    bills.add(bill("water", 40.0));
    assert!(bills.update("water", 75.0f64.to_bits()));
    let all = bills.get_all();
    assert_eq!(all.len(), 1);
    assert_eq!(all[0].name, "water");
    assert_eq!(all[0].amount, 75.0f64.to_bits());
}

#[test]
fn remove_leaves_other_records_alone() {
    let mut bills = Bills::new();
    bills.add(bill("rent", 1200.0));
    bills.add(bill("water", 40.0));
    assert!(bills.remove("rent"));
    let all = bills.get_all();
    assert_eq!(all.len(), 1);
    assert_eq!(all[0].name, "water");
    assert_eq!(all[0].amount, 40.0f64.to_bits());
}
