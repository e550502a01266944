use cortex_rust::error::CompilerError;
use cortex_rust::security::{RecursionTracker, SecurityConfig, SecurityContext};

#[test]
fn test_security_config_default() {
    let config = SecurityConfig::new();
    assert_eq!(config.max_recursion_depth, 1000);
    assert_eq!(config.max_source_size, 1024 * 1024);
    assert_eq!(config.max_token_count, 100_000);
    assert!(!config.strict_mode);
}

#[test]
fn test_security_config_strict() {
    let config = SecurityConfig::strict();
    assert_eq!(config.max_recursion_depth, 100);
    assert_eq!(config.max_source_size, 100 * 1024);
    assert!(config.strict_mode);
}

#[test]
fn test_security_config_permissive() {
    let config = SecurityConfig::permissive();
    assert_eq!(config.max_recursion_depth, 10_000);
    assert_eq!(config.max_source_size, 10 * 1024 * 1024);
    assert!(!config.strict_mode);
}

#[test]
fn test_source_size_validation() {
    let config = SecurityConfig::new();

    // Valid size
    assert!(config.validate_source_size(1024).is_ok());

    // Invalid size
    assert!(config.validate_source_size(2 * 1024 * 1024).is_err());
}

#[test]
fn test_string_length_validation() {
    let config = SecurityConfig::new();

    // Valid length
    assert!(config.validate_string_length(100, 1, 1).is_ok());

    // Invalid length
    assert!(config.validate_string_length(20 * 1024, 1, 1).is_err());
}

#[test]
fn test_recursion_tracker() {
    let mut tracker = RecursionTracker::new(10);

    // Enter recursion levels
    for i in 1..=10 {
        assert!(tracker.enter().is_ok());
        assert_eq!(tracker.current_depth(), i);
    }

    // Exceed limit (this increments depth to 11 but returns error)
    assert!(tracker.enter().is_err());

    // Exit levels (start from depth 11, exit to 0)
    for i in (1..=11).rev() {
        tracker.exit();
        assert_eq!(tracker.current_depth(), i - 1);
    }
}

#[test]
fn test_security_context() {
    let context = SecurityContext::new();
    assert_eq!(context.config.max_recursion_depth, 1000);
    assert_eq!(context.recursion_tracker.max_depth(), 1000);

    let strict_context = SecurityContext::strict();
    assert_eq!(strict_context.config.max_recursion_depth, 100);
    assert!(strict_context.config.strict_mode);
}

#[test]
fn test_security_configs() {
    let default_config = SecurityConfig::new();
    assert_eq!(default_config.max_recursion_depth, 1000);
    assert_eq!(default_config.max_source_size, 1024 * 1024);
    assert!(!default_config.strict_mode);

    let strict_config = SecurityConfig::strict();
    assert_eq!(strict_config.max_recursion_depth, 100);
    assert_eq!(strict_config.max_source_size, 100 * 1024);
    assert!(strict_config.strict_mode);

    let permissive_config = SecurityConfig::permissive();
    assert_eq!(permissive_config.max_recursion_depth, 10_000);
    assert_eq!(permissive_config.max_source_size, 10 * 1024 * 1024);
    assert!(!permissive_config.strict_mode);
}

#[test]
fn test_security_contexts() {
    let default_context = SecurityContext::new();
    assert_eq!(default_context.config.max_recursion_depth, 1000);

    let strict_context = SecurityContext::strict();
    assert_eq!(strict_context.config.max_recursion_depth, 100);
    assert!(strict_context.config.strict_mode);

    let permissive_context = SecurityContext::permissive();
    assert_eq!(permissive_context.config.max_recursion_depth, 10_000);
    assert!(!permissive_context.config.strict_mode);
}

#[test]
fn test_recursion_tracker_accuracy() {
    let mut tracker = SecurityContext::strict().recursion_tracker;

    for i in 1..=100 {
        assert!(tracker.enter().is_ok());
        assert_eq!(tracker.current_depth(), i);
    }

    assert!(tracker.enter().is_err());

    for i in (1..=101).rev() {
        tracker.exit();
        assert_eq!(tracker.current_depth(), i - 1);
    }
}

#[test]
fn every_limit_is_inclusive() {
    let config = SecurityConfig::strict();
    assert!(config.validate_source_size(100 * 1024).is_ok());
    assert!(config.validate_source_size(100 * 1024 + 1).is_err());
    assert!(config.validate_token_count(10_000).is_ok());
    assert!(config.validate_token_count(10_001).is_err());
    assert!(config.validate_string_length(1024, 1, 1).is_ok());
    assert!(config.validate_string_length(1025, 1, 1).is_err());
    assert!(config.validate_identifier_length(256, 1, 1).is_ok());
    assert!(config.validate_identifier_length(257, 1, 1).is_err());
    assert!(config.validate_collection_size(1000, 1, 1).is_ok());
    assert!(config.validate_collection_size(1001, 1, 1).is_err());
    assert!(config.validate_function_parameters(32, 1, 1).is_ok());
    assert!(config.validate_function_parameters(33, 1, 1).is_err());
}

#[test]
fn limit_errors_carry_exact_messages() {
    let config = SecurityConfig::strict();
    let error = config.validate_string_length(2000, 7, 3).unwrap_err();
    match &error.error {
        CompilerError::SecurityError { message } => {
            assert_eq!(message, "String literal length (2000) exceeds maximum allowed length (1024)");
        }
        _ => panic!("expected a security error"),
    }
    let context = error.context.clone().unwrap();
    assert_eq!(context.source_line, "Line 7");
    assert_eq!(
        context.help.as_deref(),
        Some("Security limits help prevent resource exhaustion attacks")
    );
    assert_eq!(
        error.to_display_string(),
        "Security error: String literal length (2000) exceeds maximum allowed length (1024)\n   | Line 7\n   = suggestion: Consider breaking long strings into multiple parts or using string concatenation\n   = help: Security limits help prevent resource exhaustion attacks\n"
    );

    let error = config.validate_source_size(200_000).unwrap_err();
    match &error.error {
        CompilerError::ResourceLimitExceeded { message } => {
            assert_eq!(message, "Source code size (200000) exceeds maximum allowed size (102400)");
        }
        _ => panic!("expected a resource limit error"),
    }
    assert_eq!(error.context.unwrap().source_line, "");
}

#[test]
fn recursion_error_reports_depth_and_limit() {
    let mut tracker = RecursionTracker::new(0);
    let error = tracker.enter().unwrap_err();
    match &error.error {
        CompilerError::SecurityError { message } => {
            assert_eq!(message, "Recursion depth (1) exceeds maximum allowed depth (0)");
        }
        _ => panic!("expected a security error"),
    }
    assert_eq!(tracker.current_depth(), 1);
    tracker.exit();
    tracker.exit();
    assert_eq!(tracker.current_depth(), 0);
}
