use splitwise_sync::codec::Action;
use splitwise_sync::model::TransactionRecord;
use splitwise_sync::render::render_message;
use splitwise_sync::workflow::Date;
use splitwise_sync::workflow::DecisionOutcome;
use splitwise_sync::workflow::Plan;
use splitwise_sync::workflow::WorkflowError;
use splitwise_sync::workflow::plan_decision;
use splitwise_sync::workflow::resolve;

fn rendered() -> String {
    render_message(&TransactionRecord {
        id: "tx-42".to_owned(),
        date: "2023-09-01".to_owned(),
        description: "Coffee beans".to_owned(),
        amount: "-12.34".to_owned(),
    })
}

#[test]
fn ignore_skips_the_ledger() {
    let plan = plan_decision(Action::Ignore, "tx-42", &rendered(), 4242).unwrap();
    assert!(matches!(plan, Plan::DeleteOnly));
}

#[test]
fn accept_builds_the_expense() {
    let plan = plan_decision(Action::Accept, "tx-42", &rendered(), 4242).unwrap();
    let expense = match plan {
        Plan::CommitAndDelete(e) => e,
        Plan::DeleteOnly => panic!("accept must commit"),
    };
    assert_eq!(expense.cost, "12.34");
    assert_eq!(expense.description, "Coffee beans");
    assert_eq!(expense.details, "mint:tx-42");
    assert_eq!(expense.date, Date { year: 2023, month: 9, day: 1 });
    assert_eq!(expense.group_id, 4242);
    assert_eq!(expense.currency_code, "USD");
    assert_eq!(expense.repeat_interval, "never");
    assert_eq!(expense.category_id, 0);
    assert!(expense.split_equally);
}

#[test]
fn accept_rejects_edited_message() {
    let r = plan_decision(Action::Accept, "tx-42", "someone edited this away", 4242);
    assert_eq!(
        match r {
            Err(e) => e,
            Ok(_) => panic!("must fail"),
        },
        WorkflowError::UnparseableMessage
    );
}

#[test]
fn accept_rejects_bad_date_field() {
    let text = "New transaction! Sync to Splitwise?\n- Date: yesterday\n- Amount: 1\n- Description: d";
    let r = plan_decision(Action::Accept, "tx-42", text, 4242);
    assert!(matches!(r, Err(WorkflowError::UnparseableMessage)));
}

#[test]
fn accepted_and_committed_is_deleted() {
    assert_eq!(resolve(Action::Accept, true), Ok(DecisionOutcome::CommittedAndDeleted));
}

#[test]
fn ledger_failure_keeps_message_pending() {
    assert_eq!(resolve(Action::Accept, false), Err(WorkflowError::LedgerRejected));
}

#[test]
fn ignored_is_deleted_without_commit() {
    assert_eq!(resolve(Action::Ignore, true), Ok(DecisionOutcome::DeletedOnly));
    assert_eq!(resolve(Action::Ignore, false), Ok(DecisionOutcome::DeletedOnly));
}
