use acm::error::ErrorKind;
use acm::server_check::{CheckAction, CheckEvent, CheckStage, ServerCheck, MAXIMUM_POLLING_TIME_MS};

#[test]
fn patience_is_the_rest_of_the_budget() {
    assert_eq!(ServerCheck::patience(0), 30_000);
    assert_eq!(ServerCheck::patience(12_500), 17_500);
    assert_eq!(ServerCheck::patience(MAXIMUM_POLLING_TIME_MS), 0);
    assert_eq!(ServerCheck::patience(45_000), 0);
}

#[test]
fn failed_attempts_then_success() {
    let mut c = ServerCheck::new("http://10-0-0-1.ocf.pod:8080".to_string());
    assert!(matches!(c.step(CheckEvent::Backoff(Some(500)), 0), CheckAction::Sleep(500)));
    assert!(matches!(c.step(CheckEvent::Slept, 500), CheckAction::Connect(29_500)));
    assert!(matches!(c.step(CheckEvent::ConnectFailed("refused".to_string()), 600), CheckAction::NextBackoff));
    assert_eq!(c.last_error, Some("refused".to_string()));
    assert!(matches!(c.step(CheckEvent::Backoff(Some(750)), 600), CheckAction::Sleep(750)));
    assert!(matches!(c.step(CheckEvent::Slept, 1_350), CheckAction::Connect(28_650)));
    assert!(matches!(c.step(CheckEvent::Connected, 1_400), CheckAction::Report(Ok(()))));
    assert_eq!(c.stage, CheckStage::Done);
}

#[test]
fn exhausted_backoff_reports_too_many_failures() {
    let mut c = ServerCheck::new("u".to_string());
    c.step(CheckEvent::Backoff(Some(1)), 0);
    c.step(CheckEvent::Slept, 1);
    c.step(CheckEvent::ConnectFailed("refused".to_string()), 2);
    match c.step(CheckEvent::Backoff(None), 30_001) {
        CheckAction::Report(Err(e)) => {
            assert_eq!(e.kind, ErrorKind::TooManyFailures);
            assert_eq!(e.cause, Some("refused".to_string()));
            assert_eq!(e.http_code(), 503);
        }
        _ => panic!("expected a report"),
    }
}

#[test]
fn slow_server_reports_not_ready() {
    let mut c = ServerCheck::new("u".to_string());
    c.step(CheckEvent::Backoff(Some(500)), 0);
    c.step(CheckEvent::Slept, 500);
    match c.step(CheckEvent::PatienceExpired, 30_000) {
        CheckAction::Report(Err(e)) => assert_eq!(e.kind, ErrorKind::NotReady),
        _ => panic!("expected a report"),
    }
}

#[test]
fn cancellation_stops_silently() {
    let mut c = ServerCheck::new("u".to_string());
    c.step(CheckEvent::Backoff(Some(500)), 0);
    assert!(matches!(c.step(CheckEvent::Cancelled, 100), CheckAction::Stop));
    assert_eq!(c.stage, CheckStage::Done);
}
