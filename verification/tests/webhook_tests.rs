use ledger_core::store::Ledger;
use ledger_core::webhook::{EventStatus, WebhookError, validate_create_endpoint, validate_url};
use ledger_core::worker::{compute_backoff_secs, compute_next_retry, plan_failure, BATCH_SIZE, MAX_ATTEMPTS, POLL_INTERVAL_SECS};

fn ledger_with_endpoints() -> Ledger {
    let mut l = Ledger::new();
    l.create_webhook_endpoint(7, "https://one.example/hook".to_string(), 0);
    l.create_webhook_endpoint(7, "https://two.example/hook".to_string(), 0);
    l.create_webhook_endpoint(9, "https://other.example/hook".to_string(), 0);
    l
}

#[test]
fn url_must_be_nonempty_after_trimming() {
    assert!(matches!(validate_url(""), Err(WebhookError::BadRequest("url is required"))));
    assert!(matches!(validate_url("   "), Err(WebhookError::BadRequest("url is required"))));
}

#[test]
fn url_must_name_a_deliverable_scheme() {
    assert!(matches!(
        validate_url("ftp://example.com"),
        Err(WebhookError::BadRequest("url must start with http:// or https://"))
    ));
    assert!(matches!(
        validate_url("example.com/hook"),
        Err(WebhookError::BadRequest("url must start with http:// or https://"))
    ));
    assert!(validate_url("http://example.com/hook").is_ok());
    assert!(validate_url("https://example.com/hook").is_ok());
    assert!(validate_url("  https://example.com/hook  ").is_ok());
    assert!(validate_create_endpoint("https://example.com/hook").is_ok());
    assert!(validate_create_endpoint("").is_err());
}

#[test]
fn webhook_error_maps_to_status_and_message() {
    assert_eq!(WebhookError::BadRequest("url is required").status_code(), 400);
    assert_eq!(WebhookError::Internal.status_code(), 500);
    assert_eq!(WebhookError::BadRequest("url is required").message(), "url is required");
}

#[test]
fn endpoints_are_created_active_and_listed_newest_first() {
    let l = ledger_with_endpoints();
    let eps = l.list_webhook_endpoints(7);
    assert_eq!(eps.len(), 2);
    assert_eq!(eps[0].url, "https://two.example/hook");
    assert_eq!(eps[1].url, "https://one.example/hook");
    assert!(eps[0].active && eps[1].active);
    assert_eq!(l.list_webhook_endpoints(9).len(), 1);
}

#[test]
fn deactivation_is_scoped_and_soft() {
    let mut l = ledger_with_endpoints();
    // A foreign business cannot touch the endpoint.
    assert!(!l.deactivate_webhook_endpoint(9, 0));
    assert!(l.endpoints[0].active);
    assert!(l.deactivate_webhook_endpoint(7, 0));
    assert!(!l.endpoints[0].active);
    // The record stays, listed as inactive.
    let eps = l.list_webhook_endpoints(7);
    assert_eq!(eps.len(), 2);
    assert!(!l.deactivate_webhook_endpoint(7, 99));
}

#[test]
fn enqueue_creates_one_pending_row_per_active_endpoint() {
    let mut l = ledger_with_endpoints();
    let n = l.enqueue_webhook_events_for_transaction(7, 42, "{\"id\":42}", 100);
    assert_eq!(n, 2);
    assert_eq!(l.events.len(), 2);
    for ev in &l.events {
        assert_eq!(ev.transaction_id, 42);
        assert_eq!(ev.payload, "{\"id\":42}");
        assert_eq!(ev.status, EventStatus::Pending);
        assert_eq!(ev.attempts, 0);
        assert!(ev.next_retry_at.is_none());
        assert_eq!(ev.created_at, 100);
    }
    assert_eq!(l.events[0].endpoint_id, 0);
    assert_eq!(l.events[1].endpoint_id, 1);
}

#[test]
fn enqueue_skips_inactive_endpoints_and_foreign_businesses() {
    let mut l = ledger_with_endpoints();
    l.deactivate_webhook_endpoint(7, 0);
    let n = l.enqueue_webhook_events_for_transaction(7, 42, "{}", 100);
    assert_eq!(n, 1);
    assert_eq!(l.events[0].endpoint_id, 1);
    // A business with no active endpoints gets none, and that is no error.
    let mut empty = Ledger::new();
    assert_eq!(empty.enqueue_webhook_events_for_transaction(7, 1, "{}", 0), 0);
}

#[test]
fn payload_is_frozen_at_enqueue_time() {
    let mut l = ledger_with_endpoints();
    let body = String::from("{\"amount\":500}");
    l.enqueue_webhook_events_for_transaction(7, 1, &body, 100);
    drop(body);
    assert_eq!(l.events[0].payload, "{\"amount\":500}");
    let due = l.fetch_due_webhook_events(100, 10);
    assert_eq!(due[0].payload_json, "{\"amount\":500}");
}

#[test]
fn fetch_due_selects_pending_due_active_oldest_first() {
    let mut l = ledger_with_endpoints();
    l.enqueue_webhook_events_for_transaction(7, 1, "{}", 100);
    l.enqueue_webhook_events_for_transaction(9, 2, "{}", 101);
    // Events 0 and 1 belong to business 7, event 2 to business 9.
    let due = l.fetch_due_webhook_events(200, 10);
    assert_eq!(due.len(), 3);
    assert_eq!(due[0].event_id, 0);
    assert_eq!(due[1].event_id, 1);
    assert_eq!(due[2].event_id, 2);
    assert_eq!(due[0].url, "https://one.example/hook");
    assert_eq!(due[0].attempts, 0);

    // The batch bound caps the result.
    assert_eq!(l.fetch_due_webhook_events(200, 2).len(), 2);

    // A future retry moment keeps an event out; an elapsed one lets it in.
    l.mark_webhook_event_failed(0, 1, Some(500), false);
    let due = l.fetch_due_webhook_events(200, 10);
    assert_eq!(due.len(), 2);
    assert_eq!(due[0].event_id, 1);
    let due = l.fetch_due_webhook_events(500, 10);
    assert_eq!(due.len(), 3);

    // Delivered and failed events are out for good.
    l.mark_webhook_event_delivered(1);
    l.mark_webhook_event_failed(2, 5, None, true);
    let due = l.fetch_due_webhook_events(500, 10);
    assert_eq!(due.len(), 1);
    assert_eq!(due[0].event_id, 0);

    // An event of a deactivated endpoint is not delivered.
    l.deactivate_webhook_endpoint(7, 0);
    assert_eq!(l.fetch_due_webhook_events(500, 10).len(), 0);
}

#[test]
fn marks_set_the_documented_fields() {
    let mut l = ledger_with_endpoints();
    l.enqueue_webhook_events_for_transaction(7, 1, "{}", 100);
    l.mark_webhook_event_failed(0, 3, Some(250), false);
    assert_eq!(l.events[0].status, EventStatus::Pending);
    assert_eq!(l.events[0].attempts, 3);
    assert_eq!(l.events[0].next_retry_at, Some(250));
    l.mark_webhook_event_delivered(0);
    assert_eq!(l.events[0].status, EventStatus::Delivered);
    assert_eq!(l.events[0].next_retry_at, None);
    l.mark_webhook_event_failed(1, 5, None, true);
    assert_eq!(l.events[1].status, EventStatus::Failed);
    // Unknown records change nothing.
    l.mark_webhook_event_delivered(99);
    l.mark_webhook_event_failed(99, 1, None, false);
    assert_eq!(l.events.len(), 2);
}

#[test]
fn backoff_doubles_from_ten_seconds_and_caps_at_five_minutes() {
    assert_eq!(compute_backoff_secs(1), 10);
    assert_eq!(compute_backoff_secs(2), 20);
    assert_eq!(compute_backoff_secs(3), 40);
    assert_eq!(compute_backoff_secs(4), 80);
    assert_eq!(compute_backoff_secs(5), 160);
    assert_eq!(compute_backoff_secs(6), 300);
    assert_eq!(compute_backoff_secs(10), 300);
    assert_eq!(compute_backoff_secs(1000), 300);
    let mut prev = 0;
    for k in 1..=12 {
        let d = compute_backoff_secs(k);
        assert!(d >= prev);
        assert!(d <= 300);
        prev = d;
    }
    assert_eq!(compute_next_retry(1, 1000), 1010);
}

#[test]
fn plan_failure_schedules_or_terminates() {
    let p = plan_failure(0, 1000);
    assert_eq!(p.attempts, 1);
    assert!(!p.terminal);
    assert_eq!(p.next_retry_at, Some(1010));
    let p = plan_failure(3, 1000);
    assert_eq!(p.attempts, 4);
    assert!(!p.terminal);
    assert_eq!(p.next_retry_at, Some(1080));
    let p = plan_failure(4, 1000);
    assert_eq!(p.attempts, 5);
    assert!(p.terminal);
    assert_eq!(p.next_retry_at, None);
    assert_eq!(MAX_ATTEMPTS, 5);
    assert_eq!(BATCH_SIZE, 25);
    assert_eq!(POLL_INTERVAL_SECS, 2);
}

#[test]
fn five_straight_failures_end_failed_with_no_retry() {
    let mut l = ledger_with_endpoints();
    l.enqueue_webhook_events_for_transaction(7, 1, "{}", 0);
    let mut now = 0;
    for k in 1..=5 {
        l.apply_delivery_result(0, false, now);
        assert_eq!(l.events[0].attempts, k);
        if k < 5 {
            assert_eq!(l.events[0].status, EventStatus::Pending);
            assert!(l.events[0].next_retry_at.is_some());
            now = l.events[0].next_retry_at.unwrap();
        }
    }
    assert_eq!(l.events[0].status, EventStatus::Failed);
    assert_eq!(l.events[0].next_retry_at, None);
}

#[test]
fn success_on_any_attempt_before_the_fifth_delivers() {
    let mut l = ledger_with_endpoints();
    l.enqueue_webhook_events_for_transaction(7, 1, "{}", 0);
    l.apply_delivery_result(0, false, 0);
    l.apply_delivery_result(0, false, 100);
    l.apply_delivery_result(0, true, 200);
    assert_eq!(l.events[0].status, EventStatus::Delivered);
    assert_eq!(l.events[0].next_retry_at, None);
    assert_eq!(l.events[0].attempts, 2);
    // One endpoint's failure never blocks another's delivery.
    assert_eq!(l.events[1].status, EventStatus::Pending);
    l.apply_delivery_result(1, true, 300);
    assert_eq!(l.events[1].status, EventStatus::Delivered);
}
