use aichemistforge_mcp_server::error::{IoErrorKind, IoFailure, ServiceError};
use aichemistforge_mcp_server::retry::{AttemptOutcome, RetryAction, RetryConfig, RetryStrategy};
use std::time::Duration;

fn io_error(kind: IoErrorKind) -> ServiceError {
    ServiceError::Io(IoFailure { kind, message: String::from("failed") })
}

fn delay(config: &RetryConfig, attempt: u32) -> Duration {
    Duration::from_millis(config.calculate_delay(attempt))
}

/// Runs a scripted operation under the policy, as a caller would: returns
/// whether the last attempt succeeded, and how many attempts were made.
fn run(config: &RetryConfig, script: &[Result<(), ServiceError>]) -> (bool, u32, Vec<u64>) {
    let mut attempt: u32 = 0;
    let mut waits = Vec::new();
    loop {
        let outcome = &script[attempt as usize];
        let reported = match outcome {
            Ok(()) => AttemptOutcome::Succeeded,
            Err(error) => AttemptOutcome::Failed { retryable: config.is_retryable(error) },
        };
        match config.after_attempt(attempt, reported) {
            RetryAction::Finish => return (outcome.is_ok(), attempt + 1, waits),
            RetryAction::RetryAfter(ms) => {
                waits.push(ms);
                attempt += 1;
            }
        }
    }
}

#[test]
fn test_retry_config_defaults() {
    let config = RetryConfig::default();
    assert_eq!(config.max_attempts, 3);
    assert_eq!(config.initial_delay_ms, 1000);
    assert_eq!(config.max_delay_ms, 30000);
}

#[test]
fn test_exponential_backoff() {
    let config = RetryConfig::new()
        .with_strategy(RetryStrategy::Exponential)
        .with_initial_delay_ms(1000)
        .with_backoff_multiplier(2);

    assert_eq!(delay(&config, 0), Duration::from_millis(1000));
    assert_eq!(delay(&config, 1), Duration::from_millis(2000));
    assert_eq!(delay(&config, 2), Duration::from_millis(4000));
    assert_eq!(delay(&config, 3), Duration::from_millis(8000));
}

#[test]
fn test_linear_backoff() {
    let config = RetryConfig::new()
        .with_strategy(RetryStrategy::Linear)
        .with_initial_delay_ms(1000);

    assert_eq!(delay(&config, 0), Duration::from_millis(1000));
    assert_eq!(delay(&config, 1), Duration::from_millis(2000));
    assert_eq!(delay(&config, 2), Duration::from_millis(3000));
    assert_eq!(delay(&config, 3), Duration::from_millis(4000));
}

#[test]
fn test_fixed_backoff() {
    let config = RetryConfig::new()
        .with_strategy(RetryStrategy::Fixed)
        .with_initial_delay_ms(1000);

    assert_eq!(delay(&config, 0), Duration::from_millis(1000));
    assert_eq!(delay(&config, 1), Duration::from_millis(1000));
    assert_eq!(delay(&config, 2), Duration::from_millis(1000));
}

#[test]
fn test_max_delay_cap() {
    let config = RetryConfig::new()
        .with_strategy(RetryStrategy::Exponential)
        .with_initial_delay_ms(1000)
        .with_max_delay_ms(5000);

    assert_eq!(delay(&config, 10), Duration::from_millis(5000));
}

#[test]
fn test_is_retryable() {
    let config = RetryConfig::default();

    assert!(config.is_retryable(&io_error(IoErrorKind::TimedOut)));
    assert!(config.is_retryable(&io_error(IoErrorKind::Interrupted)));

    // a permission that is denied is no passing condition
    assert!(!config.is_retryable(&io_error(IoErrorKind::PermissionDenied)));
    assert!(!config.is_retryable(&ServiceError::PermissionDenied));

    assert!(!config.is_retryable(&ServiceError::PathNotAllowed));
    assert!(!config.is_retryable(&ServiceError::FileNotFound("test.txt".to_string())));
    assert!(!config.is_retryable(&ServiceError::DirectoryAlreadyExists));
    assert!(!config.is_retryable(&io_error(IoErrorKind::NotFound)));
}

#[test]
fn test_retry_success_first_attempt() {
    let config = RetryConfig::new().with_max_attempts(3).with_initial_delay_ms(1000);
    let (succeeded, attempts, waits) = run(&config, &[Ok(())]);
    assert!(succeeded);
    assert_eq!(attempts, 1);
    assert!(waits.is_empty());
}

#[test]
fn test_retry_success_after_failure() {
    let config = RetryConfig::new().with_max_attempts(3).with_initial_delay_ms(1000);
    let (succeeded, attempts, waits) =
        run(&config, &[Err(io_error(IoErrorKind::Interrupted)), Ok(())]);
    assert!(succeeded);
    assert_eq!(attempts, 2);
    assert_eq!(waits, vec![1000]);
}

#[test]
fn interrupted_twice_then_success_takes_three_attempts() {
    let config = RetryConfig::default();
    let script = [
        Err(io_error(IoErrorKind::Interrupted)),
        Err(io_error(IoErrorKind::Interrupted)),
        Ok(()),
    ];
    let (succeeded, attempts, waits) = run(&config, &script);
    assert!(succeeded);
    assert_eq!(attempts, 3);
    assert_eq!(waits, vec![1000, 2000]);
}

#[test]
fn not_found_is_surfaced_after_one_attempt() {
    let config = RetryConfig::default();
    let (succeeded, attempts, waits) = run(&config, &[Err(io_error(IoErrorKind::NotFound))]);
    assert!(!succeeded);
    assert_eq!(attempts, 1);
    assert!(waits.is_empty());
}

#[test]
fn sandbox_rejection_is_never_retried() {
    let config = RetryConfig::new().with_max_attempts(10);
    let (succeeded, attempts, _) = run(&config, &[Err(ServiceError::PathNotAllowed)]);
    assert!(!succeeded);
    assert_eq!(attempts, 1);
}

#[test]
fn retries_stop_at_the_maximum_of_attempts() {
    let config = RetryConfig::new().with_max_attempts(3).with_strategy(RetryStrategy::Fixed);
    let script = [
        Err(io_error(IoErrorKind::TimedOut)),
        Err(io_error(IoErrorKind::TimedOut)),
        Err(io_error(IoErrorKind::TimedOut)),
        Ok(()),
    ];
    let (succeeded, attempts, waits) = run(&config, &script);
    assert!(!succeeded);
    assert_eq!(attempts, 3);
    assert_eq!(waits, vec![1000, 1000]);
}

#[test]
fn builders_clamp_their_arguments() {
    let config = RetryConfig::new().with_max_attempts(0);
    assert_eq!(config.max_attempts, 1);
    let config = RetryConfig::new().with_initial_delay_ms(4000).with_max_delay_ms(10);
    assert_eq!(config.max_delay_ms, 4000);
    let config = RetryConfig::new().with_max_delay_ms(50_000);
    assert_eq!(config.max_delay_ms, 50_000);
}

#[test]
fn delays_are_capped_and_do_not_overflow() {
    let config = RetryConfig::new()
        .with_strategy(RetryStrategy::Exponential)
        .with_initial_delay_ms(1000)
        .with_backoff_multiplier(3)
        .with_max_delay_ms(u64::MAX);
    assert_eq!(config.calculate_delay(0), 1000);
    assert_eq!(config.calculate_delay(2), 9000);
    assert_eq!(config.calculate_delay(u32::MAX), u64::MAX);

    let linear = RetryConfig::new()
        .with_strategy(RetryStrategy::Linear)
        .with_initial_delay_ms(u64::MAX / 2)
        .with_max_delay_ms(u64::MAX);
    assert_eq!(linear.calculate_delay(0), u64::MAX / 2);
    assert_eq!(linear.calculate_delay(5), u64::MAX);

    let still = RetryConfig::new().with_backoff_multiplier(1).with_initial_delay_ms(7);
    assert_eq!(still.calculate_delay(1_000_000), 7);
    let zero = RetryConfig::new().with_backoff_multiplier(0).with_initial_delay_ms(7);
    assert_eq!(zero.calculate_delay(0), 7);
    assert_eq!(zero.calculate_delay(3), 0);
}

#[test]
fn io_failures_are_sorted_by_their_condition() {
    let config = RetryConfig::default();
    for kind in [
        IoErrorKind::ConnectionRefused,
        IoErrorKind::ConnectionReset,
        IoErrorKind::ConnectionAborted,
        IoErrorKind::NotConnected,
        IoErrorKind::AddrInUse,
        IoErrorKind::AddrNotAvailable,
        IoErrorKind::BrokenPipe,
        IoErrorKind::WouldBlock,
        IoErrorKind::WriteZero,
        IoErrorKind::Other,
        IoErrorKind::Uncategorized,
    ] {
        assert!(config.is_retryable(&io_error(kind)));
    }
    for kind in [
        IoErrorKind::AlreadyExists,
        IoErrorKind::PermissionDenied,
        IoErrorKind::InvalidInput,
        IoErrorKind::InvalidData,
        IoErrorKind::Unsupported,
        IoErrorKind::UnexpectedEof,
        IoErrorKind::OutOfMemory,
    ] {
        assert!(!config.is_retryable(&io_error(kind)));
    }
    assert!(!config.is_retryable(&ServiceError::ContentSearchError(String::from("bad"))));
    assert!(!config.is_retryable(&ServiceError::InvalidMediaFile(String::from("text/plain"))));
}

#[test]
fn errors_have_their_messages() {
    assert_eq!(io_error(IoErrorKind::Other).message(), "IO error: failed");
    assert_eq!(ServiceError::PathNotAllowed.message(), "Path is outside allowed directories");
    assert_eq!(ServiceError::DirectoryAlreadyExists.message(), "Directory already exists");
    assert_eq!(ServiceError::FileNotFound(String::from("/x")).message(), "File not found: /x");
    assert_eq!(ServiceError::PermissionDenied.message(), "Permission denied");
    assert_eq!(ServiceError::ContentSearchError(String::from("bad regex")).message(), "bad regex");
    assert_eq!(
        ServiceError::InvalidMediaFile(String::from("text/plain")).message(),
        "The file is either not an image/audio type or is unsupported (mime:text/plain)."
    );
    assert!(matches!(
        ServiceError::from_io(IoFailure { kind: IoErrorKind::PermissionDenied, message: String::new() }),
        ServiceError::PermissionDenied
    ));
    assert!(matches!(
        ServiceError::from_io(IoFailure { kind: IoErrorKind::NotFound, message: String::new() }),
        ServiceError::Io(_)
    ));
}
