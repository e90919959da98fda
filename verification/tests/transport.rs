use popsigner::POPSignerError;

fn unparsable_address() -> reqwest::Error {
    reqwest::Proxy::all("http://[not-an-address").unwrap_err()
}

fn address_without_host() -> reqwest::Error {
    reqwest::Client::new()
        .get("file:///tmp/report")
        .build()
        .unwrap_err()
}

#[test]
fn transport_failure_becomes_the_http_variant() {
    let err = POPSignerError::from(unparsable_address());
    assert!(matches!(err, POPSignerError::Http(_)));
    assert!(err.is_valid());
}

#[test]
fn transport_failure_converts_with_into() {
    let err: POPSignerError = unparsable_address().into();
    assert!(matches!(err, POPSignerError::Http(_)));
}

#[test]
fn transport_cause_stays_reachable() {
    match POPSignerError::from(address_without_host()) {
        POPSignerError::Http(cause) => {
            assert!(cause.is_builder());
            assert!(!cause.is_timeout());
            assert_eq!(
                cause.url().map(|url| url.as_str()),
                Some("file:///tmp/report")
            );
        }
        _ => panic!("a transport failure was downgraded"),
    }
}

#[test]
fn transport_rendering_holds_the_cause_text() {
    let cause = unparsable_address();
    let cause_text = cause.to_string();
    assert!(!cause_text.is_empty());
    let rendered = POPSignerError::from(cause).render();
    assert_eq!(rendered, format!("HTTP error: {}", cause_text));
    assert!(rendered.contains(&cause_text));
}

#[test]
fn transport_rendering_of_a_builder_error() {
    let rendered = POPSignerError::from(unparsable_address()).render();
    assert_eq!(rendered, "HTTP error: builder error");
}

#[test]
fn transport_rendering_names_the_address() {
    let cause = address_without_host();
    let cause_text = cause.to_string();
    let rendered = POPSignerError::from(cause).render();
    assert_eq!(
        rendered,
        "HTTP error: builder error for url (file:///tmp/report)"
    );
    assert!(rendered.contains(&cause_text));
}
