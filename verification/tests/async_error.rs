use std::collections::hash_map::DefaultHasher;
use std::hash::{Hash, Hasher};

use easerx::AsyncError;

#[test]
fn test_async_error_methods() {
    let none_error = AsyncError::NoneResult;
    assert!(none_error.is_none());
    assert!(!none_error.is_error());
    assert!(!none_error.is_cancelled());
    assert!(!none_error.is_timeout());

    let error = AsyncError::error("message".to_string());
    assert!(!error.is_none());
    assert!(error.is_error());
    assert!(!error.is_cancelled());
    assert!(!error.is_timeout());

    let cancelled = AsyncError::Cancelled;
    assert!(!cancelled.is_none());
    assert!(!cancelled.is_error());
    assert!(cancelled.is_cancelled());
    assert!(!cancelled.is_timeout());

    let timeout = AsyncError::Timeout;
    assert!(!timeout.is_none());
    assert!(!timeout.is_error());
    assert!(!timeout.is_cancelled());
    assert!(timeout.is_timeout());
}

#[test]
fn async_state_test_test_async_error_methods() {
    let none_error = AsyncError::NoneResult;
    assert!(none_error.is_none());
    assert!(!none_error.is_error());
    assert!(!none_error.is_cancelled());

    let error = AsyncError::Error("message".to_string());
    assert!(!error.is_none());
    assert!(error.is_error());
    assert!(!error.is_cancelled());

    let cancelled = AsyncError::Cancelled;
    assert!(!cancelled.is_none());
    assert!(!cancelled.is_error());
    assert!(cancelled.is_cancelled());
}

#[test]
fn test_async_error_marco_debug() {
    let error = AsyncError::error("message");
    let debug_str = format!("{:?}", error);
    assert_eq!(debug_str, r#"Error("message")"#);

    let none_error = AsyncError::NoneResult;
    let debug_none_str = format!("{:?}", none_error);
    assert_eq!(debug_none_str, r#"NoneResult"#);

    let cancelled_error = AsyncError::Cancelled;
    let debug_cancelled_str = format!("{:?}", cancelled_error);
    assert_eq!(debug_cancelled_str, r#"Cancelled"#);

    let timeout_error = AsyncError::Timeout;
    let debug_timeout_str = format!("{:?}", timeout_error);
    assert_eq!(debug_timeout_str, r#"Timeout"#);
}

#[test]
fn test_async_error_hash() {
    let err1 = AsyncError::error("message".to_string());
    let err2 = AsyncError::error("message".to_string());
    let err1_hash = {
        let mut hasher = DefaultHasher::new();
        err1.hash(&mut hasher);
        hasher.finish()
    };
    let err2_hash = {
        let mut hasher = DefaultHasher::new();
        err2.hash(&mut hasher);
        hasher.finish()
    };

    assert_eq!(err1_hash, err2_hash);

    let none1 = AsyncError::NoneResult;
    let none2 = AsyncError::NoneResult;
    let non1_hash = {
        let mut hasher = DefaultHasher::new();
        none1.hash(&mut hasher);
        hasher.finish()
    };
    let non2_hash = {
        let mut hasher = DefaultHasher::new();
        none2.hash(&mut hasher);
        hasher.finish()
    };
    assert_eq!(non1_hash, non2_hash);

    let cancelled1 = AsyncError::Cancelled;
    let cancelled2 = AsyncError::Cancelled;
    let cancelled1_hash = {
        let mut hasher = DefaultHasher::new();
        cancelled1.hash(&mut hasher);
        hasher.finish()
    };
    let cancelled2_hash = {
        let mut hasher = DefaultHasher::new();
        cancelled2.hash(&mut hasher);
        hasher.finish()
    };
    assert_eq!(cancelled1_hash, cancelled2_hash);

    let timeout1 = AsyncError::Timeout;
    let timeout2 = AsyncError::Timeout;
    let timeout1_hash = {
        let mut hasher = DefaultHasher::new();
        timeout1.hash(&mut hasher);
        hasher.finish()
    };
    let timeout2_hash = {
        let mut hasher = DefaultHasher::new();
        timeout2.hash(&mut hasher);
        hasher.finish()
    };
    assert_eq!(timeout1_hash, timeout2_hash);

    assert_ne!(err1_hash, non1_hash);
    assert_ne!(err1_hash, cancelled1_hash);
    assert_ne!(err1_hash, timeout1_hash);
}

#[test]
fn error_messages_render_exactly() {
    assert_eq!(AsyncError::error("boom").message(), "boom");
    assert_eq!(AsyncError::NoneResult.message(), "Operation returned None!");
    assert_eq!(AsyncError::Cancelled.message(), "Task was cancelled!");
    assert_eq!(AsyncError::Timeout.message(), "deadline has elapsed!");
}

#[test]
fn error_equality_compares_variant_and_message() {
    assert!(AsyncError::error("a").equals(&AsyncError::Error("a".to_string())));
    assert!(!AsyncError::error("a").equals(&AsyncError::Error("b".to_string())));
    assert!(AsyncError::Cancelled.equals(&AsyncError::Cancelled));
    assert!(!AsyncError::Cancelled.equals(&AsyncError::Timeout));
    assert!(AsyncError::NoneResult.equals(&AsyncError::NoneResult));
    assert!(!AsyncError::NoneResult.equals(&AsyncError::error("a")));
}
