use cushion_notify::commands::{
    check_notification_scheme, check_open_scheme, new_notification_id, render_outcome, validate_notification_url,
    validate_url_scheme, NotificationError,
};

#[test]
fn notification_schemes() {
    assert!(validate_notification_url("cushion://x").is_ok());
    assert!(validate_notification_url("cushion-dev://x").is_ok());
    assert!(validate_notification_url("https://evil.com").is_ok());
    assert!(validate_notification_url("HTTPS://APP.CUSHION.SO").is_ok());
    assert_eq!(
        validate_notification_url("javascript:alert(1)"),
        Err("Notification URL scheme 'javascript' is not allowed. Allowed schemes: [\"cushion\", \"cushion-dev\", \"https\"]"
            .to_string())
    );
    assert_eq!(
        validate_notification_url("Http://x"),
        Err("Notification URL scheme 'http' is not allowed. Allowed schemes: [\"cushion\", \"cushion-dev\", \"https\"]"
            .to_string())
    );
    assert_eq!(
        validate_notification_url("cushion"),
        Ok(()),
    );
    assert_eq!(
        validate_notification_url(""),
        Err("Notification URL scheme '' is not allowed. Allowed schemes: [\"cushion\", \"cushion-dev\", \"https\"]"
            .to_string())
    );
}

#[test]
fn scheme_checks_take_the_scheme_as_given() {
    assert!(check_notification_scheme("https").is_ok());
    assert!(check_notification_scheme("HTTPS").is_err());
    assert!(check_open_scheme("mailto").is_ok());
    assert_eq!(
        check_open_scheme("file"),
        Err("URL scheme 'file' is not allowed. Allowed schemes: [\"http\", \"https\", \"mailto\"]".to_string())
    );
}

#[test]
fn open_url_schemes() {
    assert!(validate_url_scheme("http://example.com").is_ok());
    assert!(validate_url_scheme("https://example.com").is_ok());
    assert!(validate_url_scheme("MAILTO:someone@example.com").is_ok());
    assert_eq!(
        validate_url_scheme("file:///etc/passwd"),
        Err("URL scheme 'file' is not allowed. Allowed schemes: [\"http\", \"https\", \"mailto\"]".to_string())
    );
    assert_eq!(
        validate_url_scheme("cushion://x"),
        Err("URL scheme 'cushion' is not allowed. Allowed schemes: [\"http\", \"https\", \"mailto\"]".to_string())
    );
}

#[test]
fn notification_ids_are_prefixed_uuids() {
    let a = new_notification_id();
    let b = new_notification_id();
    assert!(a.starts_with("cushion-"));
    assert_eq!(a.len(), 44);
    assert_eq!(a.matches('-').count(), 5);
    let u: Vec<char> = a["cushion-".len()..].chars().collect();
    for (i, c) in u.iter().enumerate() {
        if i == 8 || i == 13 || i == 18 || i == 23 {
            assert_eq!(*c, '-');
        } else {
            assert!(c.is_ascii_hexdigit() && !c.is_ascii_uppercase());
        }
    }
    assert_ne!(a, b);
}

#[test]
fn render_failures_become_backend_errors() {
    assert!(render_outcome(Ok(())).is_ok());
    match render_outcome(Err("permission revoked".to_string())) {
        Err(NotificationError::BackendError(m)) => assert_eq!(m, "permission revoked"),
        _ => panic!("expected a backend error"),
    }
}

#[test]
fn error_messages() {
    assert_eq!(NotificationError::NotInitialized.message(), "Notification manager not initialized");
    assert_eq!(NotificationError::UnsupportedPlatform.message(), "Notifications not supported on this platform");
    assert_eq!(NotificationError::BackendError("boom".to_string()).message(), "boom");
    assert_eq!(NotificationError::InvalidUrl("bad".to_string()).message(), "bad");
}
