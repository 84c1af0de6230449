use airo_wingman::protocol::retry_download;
use airo_wingman::types::Failure;
use airo_wingman::utils::Retry;

#[test]
fn an_answer_stands_at_once() {
    let mut retry = Retry::new(5, 1000);
    let outcome: Result<Option<u8>, Failure> = Ok(Some(1));
    assert_eq!(retry.check(&outcome), None);
    assert_eq!(retry.retries, 0);
}

#[test]
fn missing_is_retried_up_to_the_limit() {
    let mut retry = Retry::new(3, 250);
    let missing: Result<Option<u8>, Failure> = Ok(None);
    let mut attempts = 0;
    let mut waited: u64 = 0;
    loop {
        attempts += 1;
        match retry.check(&missing) {
            Some(millis) => waited += millis,
            None => break,
        }
    }
    assert_eq!(attempts, 4);
    assert_eq!(waited, 750);
    assert_eq!(retry.retries, 3);
}

#[test]
fn failure_is_retried_like_missing() {
    let mut retry = Retry::new(1, 10);
    let failed: Result<Option<u8>, Failure> = Err(Failure::Outside("down".to_string()));
    assert_eq!(retry.check(&failed), Some(10));
    assert_eq!(retry.check(&failed), None);
    assert_eq!(retry.retries, 1);
}

#[test]
fn no_retries_means_one_attempt() {
    let mut retry = Retry::new(0, 1000);
    let missing: Result<Option<u8>, Failure> = Ok(None);
    assert_eq!(retry.check(&missing), None);
}

#[test]
fn retry_download_waits_one_second_between_attempts() {
    let mut retry = retry_download(5);
    assert_eq!(retry.max_retries, 5);
    assert_eq!(retry.interval_millis, 1000);
    let missing: Result<Option<Vec<u8>>, Failure> = Ok(None);
    let mut attempts = 0;
    let mut waited: u64 = 0;
    loop {
        attempts += 1;
        match retry.check(&missing) {
            Some(millis) => waited += millis,
            None => break,
        }
    }
    assert_eq!(attempts, 6);
    assert_eq!(waited, 5000);
}
