use psst_gui::retry::{retry_action, retry_after_secs, RetryAction, DEFAULT_RETRY_AFTER_SECS};

#[test]
fn two_rate_limits_then_success() {
    let responses: Vec<(u16, Option<&str>)> = vec![(429, Some("1")), (429, Some("1")), (200, None)];
    let mut delays = Vec::new();
    let mut sent = 0;
    let outcome = loop {
        let (status, header) = responses[sent];
        sent += 1;
        match retry_action(status, header) {
            RetryAction::Wait { secs } => delays.push(secs),
            other => break other,
        }
    };
    assert_eq!(outcome, RetryAction::Accept);
    assert_eq!(delays, vec![1, 1]);
    assert_eq!(sent, 3);
}

#[test]
fn retry_after_header_values() {
    assert_eq!(retry_after_secs(Some("1")), 1);
    assert_eq!(retry_after_secs(Some("+7")), 7);
    assert_eq!(retry_after_secs(Some("30")), 30);
    assert_eq!(retry_after_secs(None), DEFAULT_RETRY_AFTER_SECS);
    assert_eq!(retry_after_secs(Some("")), 2);
    assert_eq!(retry_after_secs(Some("soon")), 2);
    assert_eq!(retry_after_secs(Some(" 1")), 2);
    assert_eq!(retry_after_secs(Some("-1")), 2);
    assert_eq!(retry_after_secs(Some("18446744073709551616")), 2);
    assert_eq!(retry_after_secs(Some("18446744073709551615")), u64::MAX);
}

#[test]
fn statuses_other_than_rate_limit() {
    assert_eq!(retry_action(200, None), RetryAction::Accept);
    assert_eq!(retry_action(204, Some("5")), RetryAction::Accept);
    assert_eq!(retry_action(404, None), RetryAction::Reject { status: 404 });
    assert_eq!(retry_action(500, Some("1")), RetryAction::Reject { status: 500 });
    assert_eq!(retry_action(429, None), RetryAction::Wait { secs: 2 });
    assert_eq!(retry_action(429, Some("x")), RetryAction::Wait { secs: 2 });
}
