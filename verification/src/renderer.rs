//! What the shell keeps of the renderer: the errors it reports, the state
//! that its callbacks bring up to date, and the frames it hands over.

use vstd::prelude::*;
use vstd::string::StringExecFns;
use vstd::std_specs::convert::FromSpecImpl;
use crate::address::{normalize_url, parsed_url, scheme_of, scheme_of_url};
use crate::error::anyhow_message;

verus! {

/// What can go wrong in the renderer.
#[derive(Debug)]
pub enum RendererError {
    /// The engine could not be started.
    InitializationFailed(String),
    /// A content surface could not be created.
    WebViewCreationFailed(String),
    /// A page could not be loaded.
    LoadFailed(String),
    /// The graphics context failed.
    GlContextError(String),
    /// A content surface was needed before one exists.
    NotInitialized,
    /// The surface that was rendered to is gone.
    ContextLost(String),
    /// Anything else.
    Other(String),
}

/// Whether `needle` occurs in `haystack` as a run of consecutive characters.
pub open spec fn occurs_in(needle: Seq<char>, haystack: Seq<char>) -> bool {
    exists|start: int|
        0 <= start <= haystack.len() - needle.len() && #[trigger] haystack.subrange(
            start,
            start + needle.len(),
        ) == needle
}

/// Calls `str::contains` with a string as the pattern, which tells whether
/// the pattern matches a part of the text.
#[verifier::external_body]
fn contains_text(haystack: &str, needle: &str) -> (found: bool)
    ensures
        found == occurs_in(needle@, haystack@),
{
    haystack.contains(needle)
}

impl RendererError {
    /// The error in words, with a hint at what to do about it.
    pub open spec fn display(self) -> Seq<char> {
        match self {
            RendererError::InitializationFailed(detail) => "Failed to initialize Servo: "@ + detail@
                + "\n\nHint: Ensure Servo dependencies are installed. See packages/renderer/README.md"@,
            RendererError::WebViewCreationFailed(detail) => "Failed to create WebView: "@ + detail@
                + "\n\nHint: Call initialize() before loading URLs"@,
            RendererError::LoadFailed(detail) => "Failed to load content: "@ + detail@
                + "\n\nHint: Check URL format and network connectivity"@,
            RendererError::GlContextError(detail) => "OpenGL context error: "@ + detail@
                + "\n\nHint: Update graphics drivers or use software rendering"@,
            RendererError::NotInitialized =>
                "Servo engine not initialized\n\nHint: Call ServoRenderer::new().initialize() before use"@,
            RendererError::ContextLost(detail) => "Rendering context lost: "@ + detail@
                + "\n\nHint: Recreate renderer or resize window"@,
            RendererError::Other(detail) => "Renderer error: "@ + detail@,
        }
    }

    /// The error in words, with a hint at what to do about it.
    pub fn to_string(&self) -> (text: String)
        ensures
            text@ == self.display(),
    {
        match self {
            RendererError::InitializationFailed(detail) => framed(
                "Failed to initialize Servo: ",
                detail,
                "\n\nHint: Ensure Servo dependencies are installed. See packages/renderer/README.md",
            ),
            RendererError::WebViewCreationFailed(detail) => framed(
                "Failed to create WebView: ",
                detail,
                "\n\nHint: Call initialize() before loading URLs",
            ),
            RendererError::LoadFailed(detail) => framed(
                "Failed to load content: ",
                detail,
                "\n\nHint: Check URL format and network connectivity",
            ),
            RendererError::GlContextError(detail) => framed(
                "OpenGL context error: ",
                detail,
                "\n\nHint: Update graphics drivers or use software rendering",
            ),
            RendererError::NotInitialized => {
                "Servo engine not initialized\n\nHint: Call ServoRenderer::new().initialize() before use".to_owned()
            },
            RendererError::ContextLost(detail) => framed(
                "Rendering context lost: ",
                detail,
                "\n\nHint: Recreate renderer or resize window",
            ),
            RendererError::Other(detail) => {
                let mut text = "Renderer error: ".to_owned();
                text.append(detail.as_str());
                text
            },
        }
    }

    /// The kind of error that a message from elsewhere points to: a graphics
    /// error if it speaks of `GL`, else a failed start if it speaks of
    /// `init`, else a failed surface if it speaks of `WebView`, and `Other`
    /// if it speaks of none of them.
    pub open spec fn classified(message: String) -> RendererError {
        if occurs_in("GL"@, message@) || occurs_in("OpenGL"@, message@) {
            RendererError::GlContextError(message)
        } else if occurs_in("initialize"@, message@) || occurs_in("init"@, message@) {
            RendererError::InitializationFailed(message)
        } else if occurs_in("WebView"@, message@) {
            RendererError::WebViewCreationFailed(message)
        } else {
            RendererError::Other(message)
        }
    }

    /// Sorts a message from elsewhere into the kind of error that it points
    /// to.
    pub fn classify(message: String) -> (error: RendererError)
        ensures
            error == Self::classified(message),
    {
        if contains_text(message.as_str(), "GL") || contains_text(message.as_str(), "OpenGL") {
            RendererError::GlContextError(message)
        } else if contains_text(message.as_str(), "initialize") || contains_text(
            message.as_str(),
            "init",
        ) {
            RendererError::InitializationFailed(message)
        } else if contains_text(message.as_str(), "WebView") {
            RendererError::WebViewCreationFailed(message)
        } else {
            RendererError::Other(message)
        }
    }
}

/// `head`, `detail` and `hint` in a row.
fn framed(head: &str, detail: &String, hint: &str) -> (text: String)
    ensures
        text@ == head@ + detail@ + hint@,
{
    let mut text = head.to_owned();
    text.append(detail.as_str());
    text.append(hint);
    text
}

impl From<anyhow::Error> for RendererError {
    /// An error from elsewhere is sorted by what its message speaks of.
    fn from(error: anyhow::Error) -> (converted: Self)
        ensures
            exists|message: String| converted == #[trigger] RendererError::classified(message),
    {
        let message = anyhow_message(&error);
        RendererError::classify(message)
    }
}

impl FromSpecImpl<anyhow::Error> for RendererError {
    open spec fn obeys_from_spec() -> bool {
        false
    }

    open spec fn from_spec(error: anyhow::Error) -> Self {
        arbitrary()
    }
}

/// The reason given for an address that does not parse.
pub open spec fn invalid_url(detail: Seq<char>) -> Seq<char> {
    "Invalid URL: "@ + detail
}

/// Decides what a request to load `url` comes to. An address that is no
/// absolute URL fails with `LoadFailed`; a valid one fails with
/// `NotInitialized` while there is no content surface, and otherwise comes
/// back in its normal form, ready for the renderer.
pub fn plan_load(url: &str, has_surface: bool) -> (plan: Result<String, RendererError>)
    ensures
        match plan {
            Ok(address) => has_surface && parsed_url(url@) == Ok::<Seq<char>, Seq<char>>(
                address@,
            ),
            Err(RendererError::LoadFailed(reason)) => parsed_url(url@) matches Err(detail)
                && reason@ == invalid_url(detail),
            Err(RendererError::NotInitialized) => !has_surface && parsed_url(url@) is Ok,
            Err(_) => false,
        },
{
    match normalize_url(url) {
        Err(detail) => {
            let mut reason = "Invalid URL: ".to_owned();
            reason.append(detail.as_str());
            Err(RendererError::LoadFailed(reason))
        },
        Ok(address) => {
            if has_surface {
                Ok(address)
            } else {
                Err(RendererError::NotInitialized)
            }
        },
    }
}

/// Whether an engine that fetches pages itself takes addresses of this
/// scheme: it takes `http`, `https` and `data`, and nothing else.
pub open spec fn is_supported_scheme(scheme: Seq<char>) -> bool {
    scheme == "http"@ || scheme == "https"@ || scheme == "data"@
}

/// The reason given for an address of a scheme that is not supported.
pub open spec fn unsupported_scheme(scheme: Seq<char>) -> Seq<char> {
    "Unsupported URL scheme '"@ + scheme
        + "'. Only http, https, and data URLs are supported."@
}

/// The reason given for an address that does not parse, with the address in
/// it.
pub open spec fn invalid_url_quoted(url: Seq<char>, detail: Seq<char>) -> Seq<char> {
    "Invalid URL '"@ + url + "': "@ + detail
}

/// Lets `address` pass if its scheme is one that the engine takes, and
/// fails with `LoadFailed` and the scheme in the reason if it is not.
pub fn accept_scheme(address: String, scheme: &str) -> (plan: Result<String, RendererError>)
    ensures
        match plan {
            Ok(accepted) => is_supported_scheme(scheme@) && accepted == address,
            Err(RendererError::LoadFailed(reason)) => !is_supported_scheme(scheme@) && reason@
                == unsupported_scheme(scheme@),
            Err(_) => false,
        },
{
    let given = scheme.to_owned();
    if given == "http".to_owned() || given == "https".to_owned() || given == "data".to_owned() {
        Ok(address)
    } else {
        let mut reason = "Unsupported URL scheme '".to_owned();
        reason.append(scheme);
        reason.append("'. Only http, https, and data URLs are supported.");
        Err(RendererError::LoadFailed(reason))
    }
}

/// Decides what a request to load `url` comes to for an engine that fetches
/// pages itself. An address that is no absolute URL fails with `LoadFailed`,
/// and so does one whose scheme is not `http`, `https` or `data`; any other
/// comes back in its normal form, ready for the engine.
pub fn plan_engine_load(url: &str) -> (plan: Result<String, RendererError>)
    ensures
        match plan {
            Ok(address) => {
                &&& parsed_url(url@) == Ok::<Seq<char>, Seq<char>>(address@)
                &&& scheme_of(url@) matches Some(scheme) && is_supported_scheme(scheme)
            },
            Err(RendererError::LoadFailed(reason)) => match parsed_url(url@) {
                Err(detail) => reason@ == invalid_url_quoted(url@, detail),
                Ok(_) => scheme_of(url@) matches Some(scheme) && !is_supported_scheme(scheme)
                    && reason@ == unsupported_scheme(scheme),
            },
            Err(_) => false,
        },
{
    match normalize_url(url) {
        Err(detail) => {
            let mut reason = "Invalid URL '".to_owned();
            reason.append(url);
            reason.append("': ");
            reason.append(detail.as_str());
            Err(RendererError::LoadFailed(reason))
        },
        Ok(address) => match scheme_of_url(url) {
            Some(scheme) => accept_scheme(address, scheme.as_str()),
            None => {
                assert(false);
                Ok(address)
            },
        },
    }
}

/// What the renderer's callbacks report of the page it shows.
#[derive(Debug)]
pub struct WebViewState {
    url: String,
    title: String,
    loading: bool,
}

impl Clone for WebViewState {
    fn clone(&self) -> (copy: Self)
        ensures
            copy == *self,
    {
        WebViewState { url: self.url.clone(), title: self.title.clone(), loading: self.loading }
    }
}

impl Default for WebViewState {
    fn default() -> (state: Self)
        ensures
            state@ == (PageState { url: Seq::empty(), title: Seq::empty(), loading: false }),
    {
        WebViewState::new()
    }
}

/// The mathematical content of a [`WebViewState`].
pub struct PageState {
    pub url: Seq<char>,
    pub title: Seq<char>,
    pub loading: bool,
}

impl View for WebViewState {
    type V = PageState;

    closed spec fn view(&self) -> PageState {
        PageState { url: self.url@, title: self.title@, loading: self.loading }
    }
}

impl WebViewState {
    /// No page yet: no address, no title, not loading.
    pub fn new() -> (state: Self)
        ensures
            state@ == (PageState { url: Seq::empty(), title: Seq::empty(), loading: false }),
    {
        WebViewState { url: String::new(), title: String::new(), loading: false }
    }

    /// Sets the address of the page.
    pub fn set_url(&mut self, url: String)
        ensures
            final(self)@ == (PageState { url: url@, ..old(self)@ }),
    {
        self.url = url;
    }

    /// Sets the title of the page.
    pub fn set_title(&mut self, title: String)
        ensures
            final(self)@ == (PageState { title: title@, ..old(self)@ }),
    {
        self.title = title;
    }

    /// Sets whether the page is loading.
    pub fn set_loading(&mut self, loading: bool)
        ensures
            final(self)@ == (PageState { loading, ..old(self)@ }),
    {
        self.loading = loading;
    }

    /// Address of the page; empty before the first page.
    pub fn get_url(&self) -> (url: String)
        ensures
            url@ == self@.url,
    {
        self.url.clone()
    }

    /// Title of the page; empty until the page reports one.
    pub fn get_title(&self) -> (title: String)
        ensures
            title@ == self@.title,
    {
        self.title.clone()
    }

    /// Whether the page is loading.
    pub fn is_loading(&self) -> (loading: bool)
        ensures
            loading == self@.loading,
    {
        self.loading
    }

    /// Address of the page, or `None` before the first page.
    pub fn current_url(&self) -> (url: Option<String>)
        ensures
            match url {
                None => self@.url.len() == 0,
                Some(text) => text@ == self@.url && self@.url.len() > 0,
            },
    {
        if self.url.as_str().is_empty() {
            None
        } else {
            Some(self.url.clone())
        }
    }

    /// Title of the page, or `None` until the page reports one.
    pub fn current_title(&self) -> (title: Option<String>)
        ensures
            match title {
                None => self@.title.len() == 0,
                Some(text) => text@ == self@.title && self@.title.len() > 0,
            },
    {
        if self.title.as_str().is_empty() {
            None
        } else {
            Some(self.title.clone())
        }
    }
}

/// One frame as the renderer hands it over.
#[derive(Debug)]
pub struct RenderedFrame {
    /// Width in device pixels.
    pub width: u32,
    /// Height in device pixels.
    pub height: u32,
    /// Four bytes for each pixel: red, green, blue, alpha.
    pub pixels: Vec<u8>,
}

impl RenderedFrame {
    /// Number of bytes that a frame of the given size takes.
    pub open spec fn byte_count(width: u32, height: u32) -> int {
        width * height * 4
    }

    /// A frame of `width` by `height` pixels. The pixel data has to have the
    /// size that goes with them.
    pub fn new(width: u32, height: u32, pixels: Vec<u8>) -> (frame: Self)
        requires
            Self::byte_count(width, height) <= u32::MAX,
            pixels@.len() == Self::byte_count(width, height),
        ensures
            frame.width == width,
            frame.height == height,
            frame.pixels == pixels,
    {
        RenderedFrame { width, height, pixels }
    }

    /// A frame of `width` by `height` pixels that are all transparent black:
    /// what is shown while the renderer has nothing to hand over.
    pub fn blank(width: u32, height: u32) -> (frame: Self)
        requires
            Self::byte_count(width, height) <= u32::MAX,
        ensures
            frame.width == width,
            frame.height == height,
            frame.pixels@ == Seq::new(Self::byte_count(width, height) as nat, |i: int| 0u8),
    {
        assert(0 <= width * height <= width * height * 4) by (nonlinear_arith);
        let count: u32 = width * height * 4;
        let pixels = vec![0u8; count as usize];
        assert(pixels@ =~= Seq::new(Self::byte_count(width, height) as nat, |i: int| 0u8));
        RenderedFrame { width, height, pixels }
    }

    /// Whether the frame holds no pixel data.
    pub fn is_empty(&self) -> (empty: bool)
        ensures
            empty == (self.pixels@.len() == 0),
    {
        self.pixels.is_empty()
    }
}

} // verus!
