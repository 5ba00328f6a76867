use submitsnap_core::error::{AppError, HealthResponse};
use submitsnap_core::email::{endpoint, provider_kind, required, HttpProvider, ProviderKind};
use submitsnap_core::pagination::{page_bounds, PaginationQuery};
use submitsnap_core::worker::{pause_after_dequeue, pause_after_pass, Dequeued};

#[test]
fn pages_are_clamped_to_what_one_query_serves() {
    assert_eq!(page_bounds(None, None), (50, 0));
    assert_eq!(page_bounds(Some(0), Some(7)), (1, 7));
    assert_eq!(page_bounds(Some(1000), None), (100, 0));
    assert_eq!(PaginationQuery { limit: Some(20), offset: Some(40) }.bounds(), (20, 40));
}

#[test]
fn providers_are_chosen_by_name() {
    assert_eq!(provider_kind("smtp").unwrap(), ProviderKind::Smtp);
    assert_eq!(provider_kind("postmark").unwrap(), ProviderKind::Http(HttpProvider::Postmark));
    assert_eq!(provider_kind("pigeon").unwrap_err(), "unsupported EMAIL_PROVIDER: pigeon");
    assert_eq!(endpoint(HttpProvider::Resend, None), "https://api.resend.com/emails");
    assert_eq!(endpoint(HttpProvider::Postmark, Some("http://localhost:9000/")), "http://localhost:9000/email");
    assert_eq!(required(&Some(String::new()), "EMAIL_FROM").unwrap_err(), "EMAIL_FROM is required");
    assert_eq!(required(&Some("x".to_owned()), "EMAIL_FROM").unwrap(), "x");
    assert!(required(&None, "SMTP_HOST").is_err());
}

#[test]
fn background_loops_rest_only_when_there_is_nothing_to_do() {
    assert_eq!(pause_after_pass(Some(3)), 0);
    assert_eq!(pause_after_pass(Some(0)), 2);
    assert_eq!(pause_after_pass(None), 5);
    assert_eq!(pause_after_dequeue(Dequeued::Job), 0);
    assert_eq!(pause_after_dequeue(Dequeued::Empty), 2);
    assert_eq!(pause_after_dequeue(Dequeued::Unavailable), 5);
}

#[test]
fn every_failure_has_its_status() {
    assert_eq!(AppError::Validation("x".to_owned()).status_code(), 400);
    assert_eq!(AppError::AccountLocked.status_code(), 423);
    assert_eq!(AppError::TooManyRequests.status_code(), 429);
    assert_eq!(AppError::Internal("x".to_owned()).status_code(), 500);
    assert_eq!(HealthResponse::ok().status, "ok");
}
