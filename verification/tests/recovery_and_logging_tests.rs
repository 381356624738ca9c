use silver_network::{
    ComprehensiveErrorHandler, ErrorCategory, ErrorContext, ErrorLogger, ErrorMetrics,
    ErrorRecoveryManager, ErrorSummary, ExponentialBackoff, NetworkError, RateLimiter,
};

/// Percentage of errors that were recovered, as an operator dashboard shows it.
fn recovery_rate(summary: &ErrorSummary) -> f64 {
    if summary.total_errors == 0 {
        0.0
    } else {
        (summary.recovered_errors as f64 / summary.total_errors as f64) * 100.0
    }
}

#[test]
fn test_exponential_backoff() {
    let mut backoff = ExponentialBackoff::new(1000, 300000);

    let delay1 = backoff.next_backoff();
    assert!(delay1 >= 900 && delay1 <= 1100);

    let delay2 = backoff.next_backoff();
    assert!(delay2 >= 1800 && delay2 <= 2200);

    backoff.reset();
    assert_eq!(backoff.attempt_count(), 0);
}

#[test]
fn error_recovery_test_rate_limiter() {
    let mut limiter = RateLimiter::new(10, 60_000);

    for _ in 0..10 {
        assert!(limiter.allow_message());
    }

    assert!(!limiter.allow_message());
}

#[test]
fn test_error_recovery_manager() {
    let mut manager = ErrorRecoveryManager::new(5);

    let error = NetworkError::ConnectionTimeout("test".to_string());
    let action = manager.handle_error("peer1", &error);

    assert!(action.is_ok());
    assert_eq!(manager.get_error_count("peer1"), 0);
}

#[test]
fn test_error_logger() {
    let mut logger = ErrorLogger::new(100);
    let context = ErrorContext::new("test_operation");
    let error = NetworkError::ConnectionTimeout("test".to_string());

    logger.log_error(&error, &context, true, Some("reconnect".to_string()));

    let history = logger.get_history();
    assert_eq!(history.len(), 1);
    assert!(history[0].recovered);
}

#[test]
fn test_error_metrics() {
    let mut metrics = ErrorMetrics::default();
    metrics.record_error(ErrorCategory::Connection);
    metrics.record_recovered();

    assert_eq!(metrics.get_total_errors(), 1);
    assert_eq!(metrics.get_connection_errors(), 1);
    assert_eq!(metrics.get_recovered_errors(), 1);
}

#[test]
fn test_error_summary() {
    let summary = ErrorSummary {
        total_errors: 100,
        connection_errors: 50,
        message_errors: 30,
        peer_errors: 10,
        timeout_errors: 5,
        rate_limit_errors: 3,
        critical_errors: 2,
        recovered_errors: 80,
    };

    assert_eq!(recovery_rate(&summary), 80.0);
}

#[test]
fn error_handling_test_comprehensive_error_handler() {
    let logger = ErrorLogger::new(100);
    let recovery_manager = ErrorRecoveryManager::new(5);
    let mut handler = ComprehensiveErrorHandler::new(logger, recovery_manager, false);

    let error = NetworkError::ConnectionTimeout("test".to_string());
    let context = ErrorContext::new("test_operation").with_peer("peer1");

    let result = handler.handle_error(error, context);
    assert!(result.is_ok());
}

#[test]
fn a_zero_history_limit_keeps_no_entry() {
    let mut logger = silver_network::ErrorLogger::new(0);
    let error = silver_network::NetworkError::ConnectionFailed("x".to_string());
    let context = silver_network::ErrorContext::new("op");
    logger.log_error(&error, &context, true, None);
    assert!(logger.get_history().is_empty());
    let summary = logger.get_summary();
    assert_eq!(summary.total_errors, 1);
    assert_eq!(summary.connection_errors, 1);
    assert_eq!(summary.recovered_errors, 1);
}

#[test]
fn short_delays_carry_no_jitter() {
    let mut backoff = silver_network::ExponentialBackoff::new(5, 100);
    assert_eq!(backoff.next_backoff(), 5);
    assert_eq!(backoff.attempt_count(), 1);
    let mut zero = silver_network::ExponentialBackoff::new(0, 0);
    assert_eq!(zero.next_backoff(), 0);
    assert_eq!(zero.attempt_count(), 1);
}
