//! Typed errors of the browser shell, and the report that is drawn up from
//! one of them after an incident.

use vstd::prelude::*;
use vstd::string::StringExecFns;
use vstd::std_specs::convert::FromSpecImpl;
use chrono::{DateTime, Utc};

verus! {

/// `anyhow`'s error, carried through as an opaque value.
#[verifier::external_type_specification]
#[verifier::external_body]
pub struct ExAnyhowError(anyhow::Error);

/// A point in time: whole seconds since 1 January 1970, 0:00 UTC, and the
/// nanoseconds since the last whole second.
#[derive(Debug, Clone, Copy, PartialEq, Eq, Structural)]
pub struct Timestamp {
    pub seconds: i64,
    pub nanoseconds: u32,
}

/// The point in time `seconds` and `nanoseconds` after 1 January 1970, 0:00
/// UTC as `chrono` writes it in RFC 3339, such as
/// `1996-12-19T16:39:57+00:00`; `None` where `chrono` has no date for it.
pub uninterp spec fn rfc3339_text(seconds: i64, nanoseconds: u32) -> Option<Seq<char>>;

impl Timestamp {
    /// The time written out in RFC 3339; empty where there is no date for
    /// it.
    pub open spec fn text(self) -> Seq<char> {
        match rfc3339_text(self.seconds, self.nanoseconds) {
            Some(text) => text,
            None => Seq::empty(),
        }
    }

    /// Whole seconds since 1 January 1970, 0:00 UTC.
    pub fn timestamp(&self) -> (seconds: i64)
        ensures
            seconds == self.seconds,
    {
        self.seconds
    }

    /// The time written out in RFC 3339; empty where there is no date for
    /// it.
    pub fn to_rfc3339(&self) -> (text: String)
        ensures
            text@ == self.text(),
    {
        match rfc3339(self.seconds, self.nanoseconds) {
            Some(text) => text,
            None => String::new(),
        }
    }
}

/// Calls `chrono::Utc::now` and takes the result apart with
/// `DateTime::timestamp` and `DateTime::timestamp_subsec_nanos`. Nothing is
/// stated of the result: it is whatever the system clock says.
#[verifier::external_body]
fn utc_now() -> (now: Timestamp) {
    let now = Utc::now();
    Timestamp { seconds: now.timestamp(), nanoseconds: now.timestamp_subsec_nanos() }
}

/// Builds the time with `chrono::DateTime::from_timestamp`, which gives
/// `None` outside the range of dates that `chrono` knows, and writes it out
/// with `DateTime::to_rfc3339`. The text depends on the two numbers alone.
#[verifier::external_body]
fn rfc3339(seconds: i64, nanoseconds: u32) -> (text: Option<String>)
    ensures
        text.deep_view() == rfc3339_text(seconds, nanoseconds),
{
    match DateTime::<Utc>::from_timestamp(seconds, nanoseconds) {
        Some(time) => Some(time.to_rfc3339()),
        None => None,
    }
}

/// Calls `to_string` on an `anyhow::Error`, which renders the outermost
/// error of the chain. Nothing is stated of the text.
#[verifier::external_body]
pub(crate) fn anyhow_message(error: &anyhow::Error) -> (message: String) {
    error.to_string()
}

/// What can go wrong in the browser shell.
#[derive(Debug)]
pub enum BrowserError {
    /// A content surface could not be created.
    WebViewCreation(String),
    /// A page could not be loaded.
    NavigationFailed { url: String, reason: String },
    /// The persistent store failed.
    Database(String),
    /// A message from the user interface could not be handled.
    IpcError(String),
    /// The configuration is not usable.
    ConfigError(String),
    /// The window system failed.
    WindowError(String),
    /// Anything else.
    Unexpected(String),
}

impl BrowserError {
    /// Short name of the kind of error, as metrics group by it.
    pub open spec fn kind_name(self) -> Seq<char> {
        match self {
            BrowserError::WebViewCreation(_) => "webview_creation"@,
            BrowserError::NavigationFailed { .. } => "navigation_failed"@,
            BrowserError::Database(_) => "database"@,
            BrowserError::IpcError(_) => "ipc"@,
            BrowserError::ConfigError(_) => "config"@,
            BrowserError::WindowError(_) => "window"@,
            BrowserError::Unexpected(_) => "unexpected"@,
        }
    }

    /// The error in one line, details included.
    pub open spec fn display(self) -> Seq<char> {
        match self {
            BrowserError::WebViewCreation(detail) => "WebView creation failed: "@ + detail@,
            BrowserError::NavigationFailed { url, reason } => "Navigation failed: url="@ + url@
                + ", reason="@ + reason@,
            BrowserError::Database(detail) => "Database error: "@ + detail@,
            BrowserError::IpcError(detail) => "IPC error: "@ + detail@,
            BrowserError::ConfigError(detail) => "Configuration error: "@ + detail@,
            BrowserError::WindowError(detail) => "Window error: "@ + detail@,
            BrowserError::Unexpected(detail) => "Unexpected error: "@ + detail@,
        }
    }

    /// What the user is told.
    pub open spec fn user_text(self) -> Seq<char> {
        match self {
            BrowserError::WebViewCreation(_) =>
                "Failed to create browser window. Please restart the application."@,
            BrowserError::NavigationFailed { url, .. } => "Failed to load "@ + url@
                + ". Please check your internet connection."@,
            BrowserError::Database(_) =>
                "Browser data error. Your history and bookmarks may not be saved."@,
            BrowserError::IpcError(_) => "Internal communication error. Please reload the page."@,
            BrowserError::ConfigError(_) => "Configuration error. Please check your settings."@,
            BrowserError::WindowError(_) => "Window error. Please restart the application."@,
            BrowserError::Unexpected(_) => "An unexpected error occurred. Please try again."@,
        }
    }

    /// What whoever looks into the incident is advised to do.
    pub open spec fn remedy(self) -> Seq<char> {
        match self {
            BrowserError::WebViewCreation(_) =>
                "Check platform WebView availability (WKWebView/WebView2/WebKitGTK)"@,
            BrowserError::NavigationFailed { .. } =>
                "Verify URL validity, check network connectivity"@,
            BrowserError::Database(_) => "Check database file permissions, verify disk space"@,
            BrowserError::IpcError(_) => "Investigate IPC message format, check serialization"@,
            BrowserError::ConfigError(_) => "Validate configuration file, reset to defaults"@,
            BrowserError::WindowError(_) => "Check windowing system, verify graphics drivers"@,
            BrowserError::Unexpected(_) => "Enable debug logging, capture full stack trace"@,
        }
    }

    /// What helps to reproduce the error: address and reason of a failed
    /// navigation, and the error in one line for every other kind.
    pub open spec fn context(self) -> Seq<char> {
        match self {
            BrowserError::NavigationFailed { url, reason } => "URL: "@ + url@ + ", Reason: "@
                + reason@,
            _ => self.display(),
        }
    }

    /// Short name of the kind of error.
    pub fn error_type(&self) -> (name: &'static str)
        ensures
            name@ == self.kind_name(),
    {
        match self {
            BrowserError::WebViewCreation(_) => "webview_creation",
            BrowserError::NavigationFailed { .. } => "navigation_failed",
            BrowserError::Database(_) => "database",
            BrowserError::IpcError(_) => "ipc",
            BrowserError::ConfigError(_) => "config",
            BrowserError::WindowError(_) => "window",
            BrowserError::Unexpected(_) => "unexpected",
        }
    }

    /// The error in one line, details included.
    pub fn to_string(&self) -> (text: String)
        ensures
            text@ == self.display(),
    {
        match self {
            BrowserError::WebViewCreation(detail) => joined("WebView creation failed: ", detail),
            BrowserError::NavigationFailed { url, reason } => {
                let mut text = joined("Navigation failed: url=", url);
                text.append(", reason=");
                text.append(reason.as_str());
                text
            },
            BrowserError::Database(detail) => joined("Database error: ", detail),
            BrowserError::IpcError(detail) => joined("IPC error: ", detail),
            BrowserError::ConfigError(detail) => joined("Configuration error: ", detail),
            BrowserError::WindowError(detail) => joined("Window error: ", detail),
            BrowserError::Unexpected(detail) => joined("Unexpected error: ", detail),
        }
    }

    /// What the user is told.
    pub fn user_message(&self) -> (text: String)
        ensures
            text@ == self.user_text(),
    {
        match self {
            BrowserError::WebViewCreation(_) => {
                "Failed to create browser window. Please restart the application.".to_owned()
            },
            BrowserError::NavigationFailed { url, .. } => {
                let mut text = joined("Failed to load ", url);
                text.append(". Please check your internet connection.");
                text
            },
            BrowserError::Database(_) => {
                "Browser data error. Your history and bookmarks may not be saved.".to_owned()
            },
            BrowserError::IpcError(_) => {
                "Internal communication error. Please reload the page.".to_owned()
            },
            BrowserError::ConfigError(_) => {
                "Configuration error. Please check your settings.".to_owned()
            },
            BrowserError::WindowError(_) => {
                "Window error. Please restart the application.".to_owned()
            },
            BrowserError::Unexpected(_) => {
                "An unexpected error occurred. Please try again.".to_owned()
            },
        }
    }

    /// What whoever looks into the incident is advised to do.
    pub fn suggested_fix(&self) -> (text: &'static str)
        ensures
            text@ == self.remedy(),
    {
        match self {
            BrowserError::WebViewCreation(_) => {
                "Check platform WebView availability (WKWebView/WebView2/WebKitGTK)"
            },
            BrowserError::NavigationFailed { .. } => {
                "Verify URL validity, check network connectivity"
            },
            BrowserError::Database(_) => "Check database file permissions, verify disk space",
            BrowserError::IpcError(_) => "Investigate IPC message format, check serialization",
            BrowserError::ConfigError(_) => "Validate configuration file, reset to defaults",
            BrowserError::WindowError(_) => "Check windowing system, verify graphics drivers",
            BrowserError::Unexpected(_) => "Enable debug logging, capture full stack trace",
        }
    }

    /// What helps to reproduce the error.
    pub fn get_context(&self) -> (text: String)
        ensures
            text@ == self.context(),
    {
        match self {
            BrowserError::NavigationFailed { url, reason } => {
                let mut text = joined("URL: ", url);
                text.append(", Reason: ");
                text.append(reason.as_str());
                text
            },
            _ => self.to_string(),
        }
    }

    /// Draws up the report on this error, stamped with the current time.
    pub fn to_coe_report(&self) -> (report: ErrorReport)
        ensures
            report.describes(*self),
    {
        ErrorReport {
            error_type: self.error_type().to_owned(),
            error_message: self.to_string(),
            user_message: self.user_message(),
            timestamp: utc_now(),
            suggested_fix: self.suggested_fix().to_owned(),
            context: self.get_context(),
        }
    }
}

/// `head` followed by `tail`.
fn joined(head: &str, tail: &String) -> (text: String)
    ensures
        text@ == head@ + tail@,
{
    let mut text = head.to_owned();
    text.append(tail.as_str());
    text
}

impl From<anyhow::Error> for BrowserError {
    /// An error from elsewhere becomes an `Unexpected` one that carries its
    /// message.
    fn from(error: anyhow::Error) -> (converted: Self)
        ensures
            converted is Unexpected,
    {
        BrowserError::Unexpected(anyhow_message(&error))
    }
}

impl FromSpecImpl<anyhow::Error> for BrowserError {
    open spec fn obeys_from_spec() -> bool {
        false
    }

    open spec fn from_spec(error: anyhow::Error) -> Self {
        arbitrary()
    }
}

/// The report on one error, for the analysis after an incident.
#[derive(Debug)]
pub struct ErrorReport {
    /// Short name of the kind of error.
    pub error_type: String,
    /// The error in one line.
    pub error_message: String,
    /// What the user was told.
    pub user_message: String,
    /// When the report was drawn up.
    pub timestamp: Timestamp,
    /// What to do about it.
    pub suggested_fix: String,
    /// What helps to reproduce the error.
    pub context: String,
}

impl Clone for ErrorReport {
    fn clone(&self) -> (copy: Self)
        ensures
            copy == *self,
    {
        ErrorReport {
            error_type: self.error_type.clone(),
            error_message: self.error_message.clone(),
            user_message: self.user_message.clone(),
            timestamp: self.timestamp,
            suggested_fix: self.suggested_fix.clone(),
            context: self.context.clone(),
        }
    }
}

/// A log line for an error of kind `error_type` that was reported at `time`.
pub open spec fn log_entry_text(
    error_type: Seq<char>,
    time: Seq<char>,
    message: Seq<char>,
    fix: Seq<char>,
) -> Seq<char> {
    "[COE] type="@ + error_type + " time="@ + time + " msg=\""@ + message + "\" fix=\""@ + fix
        + "\""@
}

/// A report written out in full, one field to a line.
pub open spec fn report_text(
    error_type: Seq<char>,
    time: Seq<char>,
    message: Seq<char>,
    user_message: Seq<char>,
    fix: Seq<char>,
    context: Seq<char>,
) -> Seq<char> {
    "COE Report:\nType: "@ + error_type + "\nTimestamp: "@ + time + "\nError: "@ + message
        + "\nUser Message: "@ + user_message + "\nSuggested Fix: "@ + fix + "\nContext: "@
        + context
}

/// Writes the log line for an error of kind `error_type` that was reported
/// at `time`.
pub fn format_log_entry(error_type: &str, time: &str, message: &str, fix: &str) -> (entry: String)
    ensures
        entry@ == log_entry_text(error_type@, time@, message@, fix@),
{
    let mut entry = "[COE] type=".to_owned();
    entry.append(error_type);
    entry.append(" time=");
    entry.append(time);
    entry.append(" msg=\"");
    entry.append(message);
    entry.append("\" fix=\"");
    entry.append(fix);
    entry.append("\"");
    entry
}

/// Writes a report out in full, one field to a line.
pub fn format_report(
    error_type: &str,
    time: &str,
    message: &str,
    user_message: &str,
    fix: &str,
    context: &str,
) -> (text: String)
    ensures
        text@ == report_text(error_type@, time@, message@, user_message@, fix@, context@),
{
    let mut text = "COE Report:\nType: ".to_owned();
    text.append(error_type);
    text.append("\nTimestamp: ");
    text.append(time);
    text.append("\nError: ");
    text.append(message);
    text.append("\nUser Message: ");
    text.append(user_message);
    text.append("\nSuggested Fix: ");
    text.append(fix);
    text.append("\nContext: ");
    text.append(context);
    text
}

impl ErrorReport {
    /// Whether every field but the timestamp is what `error` calls for.
    pub open spec fn describes(self, error: BrowserError) -> bool {
        &&& self.error_type@ == error.kind_name()
        &&& self.error_message@ == error.display()
        &&& self.user_message@ == error.user_text()
        &&& self.suggested_fix@ == error.remedy()
        &&& self.context@ == error.context()
    }

    /// The report as one log line.
    pub fn to_log_entry(&self) -> (entry: String)
        ensures
            entry@ == log_entry_text(
                self.error_type@,
                self.timestamp.text(),
                self.error_message@,
                self.suggested_fix@,
            ),
    {
        let time = self.timestamp.to_rfc3339();
        format_log_entry(
            self.error_type.as_str(),
            time.as_str(),
            self.error_message.as_str(),
            self.suggested_fix.as_str(),
        )
    }

    /// The report in full, one field to a line.
    pub fn to_string(&self) -> (text: String)
        ensures
            text@ == report_text(
                self.error_type@,
                self.timestamp.text(),
                self.error_message@,
                self.user_message@,
                self.suggested_fix@,
                self.context@,
            ),
    {
        let time = self.timestamp.to_rfc3339();
        format_report(
            self.error_type.as_str(),
            time.as_str(),
            self.error_message.as_str(),
            self.user_message.as_str(),
            self.suggested_fix.as_str(),
            self.context.as_str(),
        )
    }
}

} // verus!
