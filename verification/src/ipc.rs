//! Messages from the user interface, and what the shell does with each.
//!
//! The user interface lives in a page of its own and talks to the shell in
//! messages. A message is handed to the navigation coordinator; what comes
//! back is the action that the caller carries out on the renderer, and the
//! scripts that bring the user interface up to date.

use vstd::prelude::*;
use vstd::string::StringExecFns;
use crate::error::BrowserError;
use crate::navigation::{NavigationResult, NavigationService, NavigationState, RendererCommand};
use crate::text::push_char;

verus! {

/// A message from the user interface.
#[derive(Debug)]
pub enum IpcMessage {
    /// Show the page at `url`.
    Navigate { url: String },
    /// The back button.
    GoBack,
    /// The forward button.
    GoForward,
    /// The reload button.
    Reload,
    /// The stop button.
    Stop,
}

/// What the caller is to do on the renderer after a message was handled.
#[derive(Debug)]
pub enum RendererAction {
    /// Load the page that the request names.
    Load(NavigationResult),
    /// Pass the command on.
    Run(RendererCommand),
}

impl IpcMessage {
    /// What the message asks for, in the words that error messages use.
    pub open spec fn label_text(self) -> Seq<char> {
        match self {
            IpcMessage::Navigate { .. } => "Navigation"@,
            IpcMessage::GoBack => RendererCommand::GoBack.label_text(),
            IpcMessage::GoForward => RendererCommand::GoForward.label_text(),
            IpcMessage::Reload => RendererCommand::Reload.label_text(),
            IpcMessage::Stop => RendererCommand::Stop.label_text(),
        }
    }

    /// What the message asks for, in the words that error messages use.
    pub fn label(&self) -> (label: &'static str)
        ensures
            label@ == self.label_text(),
    {
        match self {
            IpcMessage::Navigate { .. } => "Navigation",
            IpcMessage::GoBack => RendererCommand::GoBack.label(),
            IpcMessage::GoForward => RendererCommand::GoForward.label(),
            IpcMessage::Reload => RendererCommand::Reload.label(),
            IpcMessage::Stop => RendererCommand::Stop.label(),
        }
    }
}

/// What handling `message` at `now` comes to: a request to navigate is
/// validated and starts a load, every other message becomes a command for the
/// renderer.
pub open spec fn dispatch_result(
    before: NavigationState,
    message: IpcMessage,
    now: u64,
    result: Result<RendererAction, BrowserError>,
    after: NavigationState,
) -> bool {
    match message {
        IpcMessage::Navigate { url } => match result {
            Ok(RendererAction::Load(request)) => before.navigate_result(
                url@,
                now,
                Ok(request),
                after,
            ),
            Ok(RendererAction::Run(_)) => false,
            Err(error) => before.navigate_result(url@, now, Err(error), after),
        },
        IpcMessage::GoBack => command_outcome(before, RendererCommand::GoBack, result, after),
        IpcMessage::GoForward => command_outcome(
            before,
            RendererCommand::GoForward,
            result,
            after,
        ),
        IpcMessage::Reload => command_outcome(before, RendererCommand::Reload, result, after),
        IpcMessage::Stop => command_outcome(before, RendererCommand::Stop, result, after),
    }
}

/// What handling a message that stands for `command` comes to.
pub open spec fn command_outcome(
    before: NavigationState,
    command: RendererCommand,
    result: Result<RendererAction, BrowserError>,
    after: NavigationState,
) -> bool {
    match result {
        Ok(RendererAction::Run(passed)) => before.command_result(command, Ok(passed), after),
        Ok(RendererAction::Load(_)) => false,
        Err(error) => before.command_result(command, Err(error), after),
    }
}

/// Hands a message that came in at `now` to the coordinator and returns what
/// the caller is to do on the renderer.
pub fn dispatch(service: &mut NavigationService, message: &IpcMessage, now: u64) -> (result: Result<
    RendererAction,
    BrowserError,
>)
    requires
        old(service).well_formed(),
    ensures
        final(service).well_formed(),
        dispatch_result(old(service)@, *message, now, result, final(service)@),
{
    match message {
        IpcMessage::Navigate { url } => match service.navigate(url.as_str(), now) {
            Ok(request) => Ok(RendererAction::Load(request)),
            Err(error) => Err(error),
        },
        IpcMessage::GoBack => run(service.go_back()),
        IpcMessage::GoForward => run(service.go_forward()),
        IpcMessage::Reload => run(service.reload()),
        IpcMessage::Stop => run(service.stop()),
    }
}

fn run(result: Result<RendererCommand, BrowserError>) -> (action: Result<
    RendererAction,
    BrowserError,
>)
    ensures
        match result {
            Ok(command) => action == Ok::<RendererAction, BrowserError>(
                RendererAction::Run(command),
            ),
            Err(error) => action == Err::<RendererAction, BrowserError>(error),
        },
{
    match result {
        Ok(command) => Ok(RendererAction::Run(command)),
        Err(error) => Err(error),
    }
}

/// What the metrics are told when `message` could not be carried out.
pub open spec fn failure_message(message: IpcMessage, error: BrowserError) -> Seq<char> {
    message.label_text() + " failed: "@ + error.display()
}

/// What the metrics are told of a message that could not be read.
pub open spec fn parse_failure_message(detail: Seq<char>) -> Seq<char> {
    "IPC parse error: "@ + detail
}

/// Counts the failure of `message`, noticed at `now`, in the metrics.
pub fn record_failure(
    service: &mut NavigationService,
    message: &IpcMessage,
    error: &BrowserError,
    now: u64,
)
    requires
        old(service).well_formed(),
    ensures
        final(service).well_formed(),
        final(service)@ == (NavigationState {
            metrics: old(service)@.metrics.record_error(failure_message(*message, *error), now),
            ..old(service)@
        }),
{
    let mut text = message.label().to_owned();
    text.append(" failed: ");
    text.append(error.to_string().as_str());
    service.record_error(text.as_str(), now);
}

/// Counts a message that could not be read, noticed at `now`, in the
/// metrics.
pub fn record_parse_failure(service: &mut NavigationService, detail: &str, now: u64)
    requires
        old(service).well_formed(),
    ensures
        final(service).well_formed(),
        final(service)@ == (NavigationState {
            metrics: old(service)@.metrics.record_error(parse_failure_message(detail@), now),
            ..old(service)@
        }),
{
    let mut text = "IPC parse error: ".to_owned();
    text.append(detail);
    service.record_error(text.as_str(), now);
}

/// `text` with a backslash before every single quote, so that it can stand
/// between single quotes in a script.
pub open spec fn escape_quotes(text: Seq<char>) -> Seq<char>
    decreases text.len(),
{
    if text.len() == 0 {
        Seq::empty()
    } else if text.last() == '\'' {
        escape_quotes(text.drop_last()).push('\\').push('\'')
    } else {
        escape_quotes(text.drop_last()).push(text.last())
    }
}

/// The script that puts `url` into the address bar.
pub open spec fn url_bar_script_text(url: Seq<char>) -> Seq<char> {
    "document.getElementById('url-input').value = '"@ + escape_quotes(url) + "'"@
}

/// The script that puts `title` onto the tab.
pub open spec fn tab_title_script_text(title: Seq<char>) -> Seq<char> {
    "updateTabTitle('"@ + escape_quotes(title) + "')"@
}

/// Appends `text` to `script`, with a backslash before every single quote.
fn push_escaped(script: &mut String, text: &str)
    ensures
        final(script)@ == old(script)@ + escape_quotes(text@),
{
    assert(text@.subrange(0, 0) == Seq::<char>::empty());
    assert(old(script)@ + Seq::<char>::empty() == old(script)@);
    for c in it: text.chars()
        invariant
            it.seq() == text@,
            script@ == old(script)@ + escape_quotes(text@.subrange(0, it.index())),
    {
        proof {
            let read = text@.subrange(0, it.index() + 1);
            assert(read.drop_last() == text@.subrange(0, it.index()));
            assert(read.last() == c);
            let done = escape_quotes(read.drop_last());
            if c == '\'' {
                assert(old(script)@ + done.push('\\').push('\'') == (old(script)@ + done).push(
                    '\\',
                ).push('\''));
            } else {
                assert(old(script)@ + done.push(c) == (old(script)@ + done).push(c));
            }
        }
        if c == '\'' {
            push_char(script, '\\');
        }
        push_char(script, c);
    }
    assert(text@.subrange(0, text@.len() as int) == text@);
}

/// The script that puts `url` into the address bar of the user interface.
pub fn url_bar_script(url: &str) -> (script: String)
    ensures
        script@ == url_bar_script_text(url@),
{
    let mut script = "document.getElementById('url-input').value = '".to_owned();
    push_escaped(&mut script, url);
    script.append("'");
    script
}

/// The script that puts `title` onto the tab in the user interface.
pub fn tab_title_script(title: &str) -> (script: String)
    ensures
        script@ == tab_title_script_text(title@),
{
    let mut script = "updateTabTitle('".to_owned();
    push_escaped(&mut script, title);
    script.append("')");
    script
}

} // verus!
