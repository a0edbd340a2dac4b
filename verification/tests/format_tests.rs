use splitwise_sync::model::TransactionRecord;
use splitwise_sync::render::build_notification;
use splitwise_sync::render::extract_fields;
use splitwise_sync::render::render_message;
use splitwise_sync::workflow::Date;
use splitwise_sync::workflow::magnitude;
use splitwise_sync::workflow::parse_date;

fn sample() -> TransactionRecord {
    TransactionRecord {
        id: "tx-42".to_owned(),
        date: "2023-09-01".to_owned(),
        description: "Coffee beans".to_owned(),
        amount: "-12.34".to_owned(),
    }
}

#[test]
fn render_exact_text() {
    let expected = "New transaction! Sync to Splitwise?\n- Date: 2023-09-01\n- Amount: -12.34\n- Description: Coffee beans";
    assert_eq!(render_message(&sample()), expected);
}

#[test]
fn notification_carries_both_tokens() {
    let n = build_notification(&sample());
    assert_eq!(n.accept_token, "accept:tx-42");
    assert_eq!(n.ignore_token, "ignore:tx-42");
    assert_eq!(n.content, render_message(&sample()));
}

#[test]
fn extract_round_trips_rendered_text() {
    let rendered = render_message(&sample());
    let (date, amount, description) = extract_fields(&rendered).unwrap();
    assert_eq!(date, "2023-09-01");
    assert_eq!(amount, "-12.34");
    assert_eq!(description, "Coffee beans");
}

#[test]
fn extract_keeps_multiline_description() {
    let t = TransactionRecord {
        id: "t".to_owned(),
        date: "2024-02-29".to_owned(),
        description: "line one\nline two".to_owned(),
        amount: "7".to_owned(),
    };
    let rendered = render_message(&t);
    let (date, amount, description) = extract_fields(&rendered).unwrap();
    assert_eq!(date, "2024-02-29");
    assert_eq!(amount, "7");
    assert_eq!(description, "line one\nline two");
}

#[test]
fn extract_rejects_edited_text() {
    assert!(extract_fields("An edited message").is_none());
    assert!(extract_fields("New transaction! Sync to Splitwise?\n- Amount: 1\n- Date: 2023-01-01\n- Description: swapped").is_none());
    assert!(extract_fields("").is_none());
}

#[test]
fn magnitude_strips_sign() {
    assert_eq!(magnitude("-12.34"), "12.34");
    assert_eq!(magnitude("12.34"), "12.34");
    assert_eq!(magnitude("--7"), "7");
}

#[test]
fn parse_date_accepts_calendar_dates() {
    assert_eq!(
        parse_date("2023-09-01"),
        Some(Date { year: 2023, month: 9, day: 1 })
    );
    assert_eq!(
        parse_date("2024-02-29"),
        Some(Date { year: 2024, month: 2, day: 29 })
    );
    assert_eq!(
        parse_date("2000-02-29"),
        Some(Date { year: 2000, month: 2, day: 29 })
    );
}

#[test]
fn parse_date_rejects_bad_dates() {
    assert_eq!(parse_date("2023-02-29"), None);
    assert_eq!(parse_date("1900-02-29"), None);
    assert_eq!(parse_date("2023-13-01"), None);
    assert_eq!(parse_date("2023-00-10"), None);
    assert_eq!(parse_date("2023-04-31"), None);
    assert_eq!(parse_date("2023-9-1"), None);
    assert_eq!(parse_date("not a date"), None);
    assert_eq!(parse_date(""), None);
}
