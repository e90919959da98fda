use popsigner::POPSignerError;

#[test]
fn batch_without_failures_is_rejected() {
    assert!(POPSignerError::batch_partial_failure(0, 5).is_none());
    assert!(POPSignerError::batch_partial_failure(0, 0).is_none());
}

#[test]
fn batch_with_more_failures_than_operations_is_rejected() {
    assert!(POPSignerError::batch_partial_failure(6, 5).is_none());
    assert!(POPSignerError::batch_partial_failure(1, 0).is_none());
}

#[test]
fn batch_with_some_failures_is_made() {
    let made = POPSignerError::batch_partial_failure(2, 5);
    assert!(matches!(
        made,
        Some(POPSignerError::BatchPartialFailure { failed: 2, total: 5 })
    ));
    let all = POPSignerError::batch_partial_failure(5, 5);
    assert!(matches!(
        all,
        Some(POPSignerError::BatchPartialFailure { failed: 5, total: 5 })
    ));
    let one = POPSignerError::batch_partial_failure(1, usize::MAX);
    assert!(matches!(
        one,
        Some(POPSignerError::BatchPartialFailure { failed: 1, total: usize::MAX })
    ));
}

#[test]
fn batch_written_by_hand_has_its_validity_told() {
    assert!(!POPSignerError::BatchPartialFailure { failed: 0, total: 5 }.is_valid());
    assert!(!POPSignerError::BatchPartialFailure { failed: 6, total: 5 }.is_valid());
    assert!(POPSignerError::BatchPartialFailure { failed: 1, total: 5 }.is_valid());
    assert!(POPSignerError::BatchPartialFailure { failed: 5, total: 5 }.is_valid());
}

#[test]
fn api_with_status_outside_http_is_rejected() {
    assert!(POPSignerError::api("c".to_string(), "m".to_string(), 99).is_none());
    assert!(POPSignerError::api("c".to_string(), "m".to_string(), 600).is_none());
    assert!(POPSignerError::api("c".to_string(), "m".to_string(), 0).is_none());
    assert!(POPSignerError::api("c".to_string(), "m".to_string(), u16::MAX).is_none());
}

#[test]
fn api_with_http_status_is_made() {
    match POPSignerError::api("not_found".to_string(), "Not found".to_string(), 404) {
        Some(POPSignerError::Api { code, message, status_code }) => {
            assert_eq!(code, "not_found");
            assert_eq!(message, "Not found");
            assert_eq!(status_code, 404);
        }
        _ => panic!("a valid API error was rejected"),
    }
    assert!(POPSignerError::api("c".to_string(), "m".to_string(), 100).is_some());
    assert!(POPSignerError::api("c".to_string(), "m".to_string(), 599).is_some());
}

#[test]
fn api_written_by_hand_has_its_validity_told() {
    let low = POPSignerError::Api {
        code: "c".to_string(),
        message: "m".to_string(),
        status_code: 99,
    };
    assert!(!low.is_valid());
    let high = POPSignerError::Api {
        code: "c".to_string(),
        message: "m".to_string(),
        status_code: 600,
    };
    assert!(!high.is_valid());
    let least = POPSignerError::Api {
        code: "c".to_string(),
        message: "m".to_string(),
        status_code: 100,
    };
    assert!(least.is_valid());
    let greatest = POPSignerError::Api {
        code: "c".to_string(),
        message: "m".to_string(),
        status_code: 599,
    };
    assert!(greatest.is_valid());
}

#[test]
fn variants_without_invariant_are_valid() {
    assert!(POPSignerError::Unauthorized.is_valid());
    assert!(POPSignerError::RateLimited.is_valid());
    assert!(POPSignerError::Decode(String::new()).is_valid());
    assert!(POPSignerError::QuotaExceeded(String::new()).is_valid());
    assert!(POPSignerError::KeyNotFound(String::new()).is_valid());
    assert!(POPSignerError::NamespaceNotFound(String::new()).is_valid());
    assert!(POPSignerError::OrgNotFound(String::new()).is_valid());
    assert!(POPSignerError::InvalidRequest(String::new()).is_valid());
    assert!(POPSignerError::SigningError(String::new()).is_valid());
}
