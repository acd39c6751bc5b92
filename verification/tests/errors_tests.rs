use rus_core::errors::RusError;

#[test]
fn names_of_errors() {
    assert_eq!(RusError::Forbidden.name(), "Forbidden");
    assert_eq!(RusError::Unknown.name(), "Unknown");
    assert_eq!(RusError::NotFound.name(), "NotFound");
    assert_eq!(RusError::Database("connection lost".to_string()).name(), "Database : connection lost");
    assert_eq!(RusError::Redis("refused".to_string()).name(), "Redis : refused");
    assert_eq!(RusError::Validation("empty host".to_string()).name(), "Validation : empty host");
    assert_eq!(RusError::Database(String::new()).name(), "Database : ");
}

#[test]
fn messages_of_errors() {
    assert_eq!(RusError::Forbidden.message(), "Access forbidden");
    assert_eq!(RusError::Database("x".to_string()).message(), "Database error");
    assert_eq!(RusError::Redis("x".to_string()).message(), "Redis error");
    assert_eq!(RusError::Unknown.message(), "Unknown error");
    assert_eq!(RusError::NotFound.message(), "Cannot find redirection.");
    assert_eq!(RusError::Validation("empty host".to_string()).message(), "Invalid long URL");
}

#[test]
fn details_of_errors() {
    assert_eq!(RusError::Forbidden.details(), "Access forbidden");
    assert_eq!(RusError::Unknown.details(), "Unknown error");
    assert_eq!(RusError::NotFound.details(), "Cannot find redirection.");
    assert_eq!(RusError::Database("connection lost".to_string()).details(), "connection lost");
    assert_eq!(RusError::Redis("refused".to_string()).details(), "refused");
    assert_eq!(RusError::Validation("empty host".to_string()).details(), "empty host");
}
