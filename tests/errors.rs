use acm::error::{AcmError, ErrorKind, PodManagerNotFound, RefreshChannelClosed, StringError, TagNotFound};
use acm::text::{decimal, replaced, str_eq};

#[test]
fn status_codes_follow_the_error_table() {
    let table = [
        (ErrorKind::PodDeleted, 503),
        (ErrorKind::PodCrashed, 503),
        (ErrorKind::PodRebooted, 503),
        (ErrorKind::ErrImagePull, 404),
        (ErrorKind::KubernetesUnresponsive, 500),
        (ErrorKind::UnexpectedCloseOfEventStream, 500),
        (ErrorKind::HealthCheckDroppedItsChannel, 500),
        (ErrorKind::TooManyFailures, 503),
        (ErrorKind::NotReady, 503),
        (ErrorKind::RefreshChannelClosed, 503),
        (ErrorKind::PodManagerNotFound, 404),
        (ErrorKind::PhantomError, 400),
    ];
    for (kind, code) in table {
        assert_eq!(kind.http_code(), code);
        assert_eq!(AcmError::of(kind).http_code(), code);
    }
}

#[test]
fn named_errors_keep_their_details() {
    let e = PodManagerNotFound { id: "x".to_string() }.error();
    assert_eq!(e.kind, ErrorKind::PodManagerNotFound);
    assert_eq!(e.cause, Some("x".to_string()));
    assert_eq!(RefreshChannelClosed {}.error().kind, ErrorKind::RefreshChannelClosed);
    assert_eq!(StringError { message: "m".to_string() }.error().cause, Some("m".to_string()));
    let t = TagNotFound { tag: "v9".to_string(), registry: "r".to_string() }.error();
    assert_eq!((t.kind, t.http_code()), (ErrorKind::TagNotFound, 404));
    assert_eq!(ErrorKind::PodDeleted.message(), AcmError::of(ErrorKind::PodDeleted).message);
}

#[test]
fn decimal_renders_integers() {
    assert_eq!(decimal(0), "0");
    assert_eq!(decimal(1_700_000_000), "1700000000");
    assert_eq!(decimal(-42), "-42");
    assert_eq!(decimal(i64::MIN), i64::MIN.to_string());
}

#[test]
fn text_helpers() {
    assert!(str_eq("abc", "abc"));
    assert!(!str_eq("abc", "abd"));
    assert!(!str_eq("ab", "abc"));
    assert_eq!(replaced("10.0.0.1", '.', '-'), "10-0-0-1");
}
