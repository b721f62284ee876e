use tftpd::protocol::{INITIAL_TIMEOUT_MS, MAX_TIMEOUT_MS};
use tftpd::timeout::calculate_timeout;

#[test]
fn first_attempt_waits_the_initial_timeout() {
    assert_eq!(calculate_timeout(0), INITIAL_TIMEOUT_MS);
    assert_eq!(calculate_timeout(0), 1000);
}

#[test]
fn timeout_doubles_per_retry() {
    assert_eq!(calculate_timeout(1), 2000);
    assert_eq!(calculate_timeout(2), 4000);
}

#[test]
fn timeout_clamps_at_the_maximum() {
    assert_eq!(calculate_timeout(3), 5000);
    assert_eq!(calculate_timeout(4), MAX_TIMEOUT_MS);
    assert_eq!(calculate_timeout(10), 5000);
    assert_eq!(calculate_timeout(63), 5000);
    assert_eq!(calculate_timeout(1000), 5000);
}
