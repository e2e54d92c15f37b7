use solana_ibc::delivery::{deliver_outcomes, DeliveryReport};

#[test]
fn delivery_gathers_in_message_order() {
    let outcomes: Vec<Result<(Vec<u32>, Vec<String>), &str>> = vec![
        Ok((vec![1, 2], vec!["a".to_string()])),
        Err("bad message"),
        Ok((vec![], vec!["b".to_string(), "c".to_string()])),
        Ok((vec![3], vec![])),
        Err("worse message"),
    ];
    let report = deliver_outcomes(outcomes);
    assert_eq!(report.events, vec![1, 2, 3]);
    assert_eq!(report.logs, vec!["a".to_string(), "b".to_string(), "c".to_string()]);
    assert_eq!(report.errors, vec!["bad message", "worse message"]);
}

#[test]
fn delivery_of_two_batches_is_delivery_of_one() {
    let first: Vec<Result<(Vec<u32>, Vec<String>), u8>> =
        vec![Ok((vec![1], vec!["x".to_string()])), Err(7)];
    let second: Vec<Result<(Vec<u32>, Vec<String>), u8>> =
        vec![Err(8), Ok((vec![2, 3], vec!["y".to_string()]))];
    let mut both = first.clone();
    both.extend(second.clone());
    let one = deliver_outcomes(both);
    let mut report: DeliveryReport<u32, u8> = DeliveryReport::new();
    for outcome in first.into_iter().chain(second) {
        report.record(outcome);
    }
    assert_eq!(one.events, report.events);
    assert_eq!(one.logs, report.logs);
    assert_eq!(one.errors, report.errors);
    assert_eq!(one.events, vec![1, 2, 3]);
    assert_eq!(one.errors, vec![7, 8]);
}

#[test]
fn delivery_of_nothing_is_empty() {
    let report = deliver_outcomes::<u32, u8>(vec![]);
    assert!(report.events.is_empty() && report.logs.is_empty() && report.errors.is_empty());
}
