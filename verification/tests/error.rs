use browser_core::error::{format_log_entry, format_report, BrowserError, ErrorReport, Timestamp};

#[test]
fn test_error_types() {
    let error = BrowserError::NavigationFailed {
        url: "https://example.com".to_string(),
        reason: "timeout".to_string(),
    };

    assert_eq!(error.error_type(), "navigation_failed");
    assert!(error.user_message().contains("Failed to load"));
    assert!(error.suggested_fix().contains("network"));
}

#[test]
fn test_coe_report_generation() {
    let error = BrowserError::Database("Connection failed".to_string());
    let report = error.to_coe_report();

    assert_eq!(report.error_type, "database");
    assert!(!report.suggested_fix.is_empty());
    assert!(report.timestamp.timestamp() > 0);
}

#[test]
fn error_test_error_display() {
    let error = BrowserError::WebViewCreation("Platform error".to_string());
    let display = format!("{}", error.to_string());
    assert!(display.contains("WebView creation failed"));
}

#[test]
fn test_coe_report_log_entry() {
    let error = BrowserError::IpcError("Invalid message".to_string());
    let report = error.to_coe_report();
    let log_entry = report.to_log_entry();

    assert!(log_entry.contains("[COE]"));
    assert!(log_entry.contains("type=ipc"));
    assert!(log_entry.contains("msg="));
    assert!(log_entry.contains("fix="));
}

#[test]
fn test_all_error_types_have_suggestions() {
    let errors = vec![
        BrowserError::WebViewCreation("test".to_string()),
        BrowserError::NavigationFailed {
            url: "test".to_string(),
            reason: "test".to_string(),
        },
        BrowserError::Database("test".to_string()),
        BrowserError::IpcError("test".to_string()),
        BrowserError::ConfigError("test".to_string()),
        BrowserError::WindowError("test".to_string()),
        BrowserError::Unexpected("test".to_string()),
    ];

    for error in errors {
        assert!(!error.suggested_fix().is_empty());
        assert!(!error.user_message().is_empty());
        assert!(!error.error_type().is_empty());
    }
}

#[test]
fn every_kind_in_words() {
    let navigation = BrowserError::NavigationFailed {
        url: "https://a.com".to_string(),
        reason: "timeout".to_string(),
    };
    assert_eq!(navigation.to_string(), "Navigation failed: url=https://a.com, reason=timeout");
    assert_eq!(
        navigation.user_message(),
        "Failed to load https://a.com. Please check your internet connection."
    );
    assert_eq!(navigation.suggested_fix(), "Verify URL validity, check network connectivity");
    assert_eq!(navigation.get_context(), "URL: https://a.com, Reason: timeout");

    let cases = vec![
        (
            BrowserError::WebViewCreation("x".to_string()),
            "webview_creation",
            "WebView creation failed: x",
            "Failed to create browser window. Please restart the application.",
            "Check platform WebView availability (WKWebView/WebView2/WebKitGTK)",
        ),
        (
            BrowserError::Database("x".to_string()),
            "database",
            "Database error: x",
            "Browser data error. Your history and bookmarks may not be saved.",
            "Check database file permissions, verify disk space",
        ),
        (
            BrowserError::IpcError("x".to_string()),
            "ipc",
            "IPC error: x",
            "Internal communication error. Please reload the page.",
            "Investigate IPC message format, check serialization",
        ),
        (
            BrowserError::ConfigError("x".to_string()),
            "config",
            "Configuration error: x",
            "Configuration error. Please check your settings.",
            "Validate configuration file, reset to defaults",
        ),
        (
            BrowserError::WindowError("x".to_string()),
            "window",
            "Window error: x",
            "Window error. Please restart the application.",
            "Check windowing system, verify graphics drivers",
        ),
        (
            BrowserError::Unexpected("x".to_string()),
            "unexpected",
            "Unexpected error: x",
            "An unexpected error occurred. Please try again.",
            "Enable debug logging, capture full stack trace",
        ),
    ];
    for (error, kind, display, user, fix) in cases {
        assert_eq!(error.error_type(), kind);
        assert_eq!(error.to_string(), display);
        assert_eq!(error.user_message(), user);
        assert_eq!(error.suggested_fix(), fix);
        assert_eq!(error.get_context(), display);
    }
}

#[test]
fn report_takes_every_field_from_the_error() {
    let error = BrowserError::NavigationFailed {
        url: "https://a.com".to_string(),
        reason: "dns".to_string(),
    };
    let report = error.to_coe_report();
    assert_eq!(report.error_type, "navigation_failed");
    assert_eq!(report.error_message, "Navigation failed: url=https://a.com, reason=dns");
    assert_eq!(report.user_message, error.user_message());
    assert_eq!(report.suggested_fix, error.suggested_fix());
    assert_eq!(report.context, "URL: https://a.com, Reason: dns");
    assert!(report.timestamp.seconds > 1_600_000_000);
    assert!(report.timestamp.nanoseconds < 2_000_000_000);
}

fn report_at(timestamp: Timestamp) -> ErrorReport {
    ErrorReport {
        error_type: "ipc".to_string(),
        error_message: "IPC error: bad".to_string(),
        user_message: "Internal communication error. Please reload the page.".to_string(),
        timestamp,
        suggested_fix: "Investigate".to_string(),
        context: "IPC error: bad".to_string(),
    }
}

#[test]
fn log_entry_is_written_out_exactly() {
    let report = report_at(Timestamp { seconds: 1_431_648_000, nanoseconds: 0 });
    assert_eq!(
        report.to_log_entry(),
        "[COE] type=ipc time=2015-05-15T00:00:00+00:00 msg=\"IPC error: bad\" fix=\"Investigate\""
    );
    assert_eq!(
        format_log_entry("a", "b", "c", "d"),
        "[COE] type=a time=b msg=\"c\" fix=\"d\""
    );
}

#[test]
fn report_is_written_out_exactly() {
    let report = report_at(Timestamp { seconds: 0, nanoseconds: 500_000_000 });
    assert_eq!(
        report.to_string(),
        "COE Report:\nType: ipc\nTimestamp: 1970-01-01T00:00:00.500+00:00\nError: IPC error: bad\n\
         User Message: Internal communication error. Please reload the page.\n\
         Suggested Fix: Investigate\nContext: IPC error: bad"
    );
    assert_eq!(
        format_report("a", "b", "c", "d", "e", "f"),
        "COE Report:\nType: a\nTimestamp: b\nError: c\nUser Message: d\nSuggested Fix: e\nContext: f"
    );
    let copy = report.clone();
    assert_eq!(copy.to_string(), report.to_string());
}

#[test]
fn timestamp_in_rfc3339() {
    assert_eq!(
        Timestamp { seconds: 0, nanoseconds: 0 }.to_rfc3339(),
        "1970-01-01T00:00:00+00:00"
    );
    assert_eq!(
        Timestamp { seconds: 851_013_597, nanoseconds: 0 }.to_rfc3339(),
        "1996-12-19T16:39:57+00:00"
    );
    assert_eq!(
        Timestamp { seconds: -1, nanoseconds: 1_000 }.to_rfc3339(),
        "1969-12-31T23:59:59.000001+00:00"
    );
    assert_eq!(Timestamp { seconds: 12, nanoseconds: 0 }.timestamp(), 12);
}

#[test]
fn timestamp_without_a_date_has_no_text() {
    assert_eq!(Timestamp { seconds: i64::MAX, nanoseconds: 0 }.to_rfc3339(), "");
    assert_eq!(Timestamp { seconds: 0, nanoseconds: u32::MAX }.to_rfc3339(), "");
    let report = report_at(Timestamp { seconds: i64::MIN, nanoseconds: 0 });
    assert_eq!(
        report.to_log_entry(),
        "[COE] type=ipc time= msg=\"IPC error: bad\" fix=\"Investigate\""
    );
}

#[test]
fn error_from_elsewhere_is_unexpected() {
    let error = BrowserError::from(anyhow::Error::msg("disk on fire"));
    assert_eq!(error.error_type(), "unexpected");
    assert_eq!(error.to_string(), "Unexpected error: disk on fire");
    assert!(matches!(error, BrowserError::Unexpected(_)));

    let error: BrowserError = anyhow::Error::msg("inner").context("outer").into();
    assert_eq!(error.to_string(), "Unexpected error: outer");
}
