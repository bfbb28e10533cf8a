use uptime_watch::check::{check_website, is_redirection, is_success, HttpOutcome, ProbeResult};

#[test]
fn ok_status_is_up() {
    assert_eq!(check_website(HttpOutcome::Response(200)), ProbeResult::Up);
}

#[test]
fn redirect_statuses_are_up() {
    assert_eq!(check_website(HttpOutcome::Response(301)), ProbeResult::Up);
    assert_eq!(check_website(HttpOutcome::Response(399)), ProbeResult::Up);
}

#[test]
fn statuses_outside_success_and_redirect_are_down() {
    assert_eq!(check_website(HttpOutcome::Response(199)), ProbeResult::Down);
    assert_eq!(check_website(HttpOutcome::Response(400)), ProbeResult::Down);
    assert_eq!(check_website(HttpOutcome::Response(404)), ProbeResult::Down);
    assert_eq!(check_website(HttpOutcome::Response(503)), ProbeResult::Down);
    assert_eq!(check_website(HttpOutcome::Response(0)), ProbeResult::Down);
    assert_eq!(check_website(HttpOutcome::Response(u16::MAX)), ProbeResult::Down);
}

#[test]
fn timeout_is_classified_like_503() {
    assert_eq!(check_website(HttpOutcome::TransportError), ProbeResult::Down);
    assert_eq!(
        check_website(HttpOutcome::TransportError),
        check_website(HttpOutcome::Response(503))
    );
}

#[test]
fn status_class_boundaries() {
    assert!(is_success(200));
    assert!(is_success(299));
    assert!(!is_success(300));
    assert!(is_redirection(300));
    assert!(is_redirection(399));
    assert!(!is_redirection(400));
    assert!(!is_redirection(299));
}
