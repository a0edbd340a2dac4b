use splitwise_sync::model::TransactionRecord;
use splitwise_sync::reconcile::ReconcileError;
use splitwise_sync::reconcile::SelectError;
use splitwise_sync::reconcile::reconcile;
use splitwise_sync::reconcile::select_snapshots;

fn record(id: &str) -> TransactionRecord {
    TransactionRecord {
        id: id.to_owned(),
        date: "2023-09-01".to_owned(),
        description: format!("purchase {id}"),
        amount: "-10.00".to_owned(),
    }
}

fn ids(records: &[TransactionRecord]) -> Vec<String> {
    records.iter().map(|r| r.id.clone()).collect()
}

#[test]
fn reconcile_overlapping_snapshots() {
    let prev = vec![record("A"), record("B")];
    let cur = vec![record("B"), record("C"), record("D")];
    let new = reconcile(&prev, &cur).unwrap();
    assert_eq!(ids(&new), vec!["C".to_owned(), "D".to_owned()]);
}

#[test]
fn reconcile_empty_prev_keeps_everything() {
    let prev: Vec<TransactionRecord> = Vec::new();
    let cur = vec![record("A"), record("B")];
    let new = reconcile(&prev, &cur).unwrap();
    assert_eq!(ids(&new), vec!["A".to_owned(), "B".to_owned()]);
}

#[test]
fn reconcile_empty_cur_is_empty() {
    let prev = vec![record("A"), record("B")];
    let cur: Vec<TransactionRecord> = Vec::new();
    let new = reconcile(&prev, &cur).unwrap();
    assert!(new.is_empty());
}

#[test]
fn reconcile_keeps_cur_order() {
    let prev = vec![record("2")];
    let cur = vec![record("9"), record("2"), record("1"), record("5")];
    let new = reconcile(&prev, &cur).unwrap();
    assert_eq!(ids(&new), vec!["9".to_owned(), "1".to_owned(), "5".to_owned()]);
}

#[test]
fn reconcile_duplicate_key_fails() {
    let prev = vec![record("A"), record("A")];
    let cur = vec![record("B")];
    assert!(matches!(reconcile(&prev, &cur), Err(ReconcileError::DuplicateKey)));
    let prev2 = vec![record("A")];
    let cur2 = vec![record("B"), record("C"), record("B")];
    assert!(matches!(reconcile(&prev2, &cur2), Err(ReconcileError::DuplicateKey)));
}

#[test]
fn batch_diff_notifies_only_the_new_transaction() {
    let snapshot_a = vec![record("1"), record("2")];
    let snapshot_b = vec![record("1"), record("2"), record("3")];
    let new = reconcile(&snapshot_a, &snapshot_b).unwrap();
    assert_eq!(new.len(), 1);
    assert_eq!(new[0].id, "3");
    let n = splitwise_sync::render::build_notification(&new[0]);
    assert_eq!(n.accept_token, "accept:3");
    assert_eq!(n.ignore_token, "ignore:3");
}

#[test]
fn select_snapshots_picks_latest_two() {
    let names = vec![
        "transactions.1693000000.json".to_owned(),
        "transactions.1693517401.json".to_owned(),
        "transactions.1693100000.json".to_owned(),
    ];
    let (prev, cur) = select_snapshots(&names).unwrap();
    assert_eq!(cur, "transactions.1693517401.json");
    assert_eq!(prev, "transactions.1693100000.json");
}

#[test]
fn select_snapshots_needs_two_files() {
    let none: Vec<String> = Vec::new();
    assert_eq!(select_snapshots(&none), Err(SelectError::NoSnapshots));
    let one = vec!["transactions.1.json".to_owned()];
    assert_eq!(select_snapshots(&one), Err(SelectError::OnlyOneSnapshot));
}
