use browser_core::address::{normalize_url, scheme_of_url};
use browser_core::renderer::{
    accept_scheme, plan_engine_load, plan_load, RenderedFrame, RendererError, WebViewState,
};

#[test]
fn lib_test_error_display() {
    let err = RendererError::NotInitialized;
    assert!(err.to_string().contains("Servo engine not initialized"));
    assert!(err.to_string().contains("Hint:"));
}

#[test]
fn test_rendered_frame() {
    let pixels = vec![0u8; 1024 * 768 * 4];
    let frame = RenderedFrame::new(1024, 768, pixels);
    assert!(!frame.is_empty());
    assert_eq!(frame.width, 1024);
    assert_eq!(frame.height, 768);
}

#[test]
fn test_state_management() {
    let mut state = WebViewState::new();

    state.set_url("https://example.com".to_string());
    assert_eq!(state.get_url(), "https://example.com");

    state.set_title("Example".to_string());
    assert_eq!(state.get_title(), "Example");

    state.set_loading(true);
    assert!(state.is_loading());
}

#[test]
fn empty_frame() {
    let frame = RenderedFrame::new(0, 768, Vec::new());
    assert!(frame.is_empty());
    assert_eq!(frame.pixels.len(), 0);
}

#[test]
fn fresh_state_has_no_page() {
    let state = WebViewState::default();
    assert_eq!(state.get_url(), "");
    assert_eq!(state.get_title(), "");
    assert!(!state.is_loading());
    assert_eq!(state.current_url(), None);
    assert_eq!(state.current_title(), None);
}

#[test]
fn state_setters_touch_one_field_each() {
    let mut state = WebViewState::new();
    state.set_url("https://a.com".to_string());
    state.set_loading(true);
    assert_eq!(state.get_title(), "");
    assert_eq!(state.current_url(), Some("https://a.com".to_string()));
    assert_eq!(state.current_title(), None);

    state.set_title("A".to_string());
    state.set_loading(false);
    assert_eq!(state.get_url(), "https://a.com");
    assert_eq!(state.current_title(), Some("A".to_string()));
    assert!(!state.is_loading());

    let copy = state.clone();
    assert_eq!(copy.get_url(), "https://a.com");
    assert_eq!(copy.get_title(), "A");
}

#[test]
fn every_renderer_error_in_words() {
    assert_eq!(
        RendererError::InitializationFailed("x".to_string()).to_string(),
        "Failed to initialize Servo: x\n\nHint: Ensure Servo dependencies are installed. See packages/renderer/README.md"
    );
    assert_eq!(
        RendererError::WebViewCreationFailed("x".to_string()).to_string(),
        "Failed to create WebView: x\n\nHint: Call initialize() before loading URLs"
    );
    assert_eq!(
        RendererError::LoadFailed("x".to_string()).to_string(),
        "Failed to load content: x\n\nHint: Check URL format and network connectivity"
    );
    assert_eq!(
        RendererError::GlContextError("x".to_string()).to_string(),
        "OpenGL context error: x\n\nHint: Update graphics drivers or use software rendering"
    );
    assert_eq!(
        RendererError::NotInitialized.to_string(),
        "Servo engine not initialized\n\nHint: Call ServoRenderer::new().initialize() before use"
    );
    assert_eq!(
        RendererError::ContextLost("x".to_string()).to_string(),
        "Rendering context lost: x\n\nHint: Recreate renderer or resize window"
    );
    assert_eq!(RendererError::Other("x".to_string()).to_string(), "Renderer error: x");
}

#[test]
fn messages_are_sorted_by_what_they_speak_of() {
    assert!(matches!(
        RendererError::classify("OpenGL driver crashed".to_string()),
        RendererError::GlContextError(_)
    ));
    assert!(matches!(
        RendererError::classify("EGL surface lost".to_string()),
        RendererError::GlContextError(_)
    ));
    assert!(matches!(
        RendererError::classify("could not initialize WebView with GL".to_string()),
        RendererError::GlContextError(_)
    ));
    assert!(matches!(
        RendererError::classify("failed to init".to_string()),
        RendererError::InitializationFailed(_)
    ));
    assert!(matches!(
        RendererError::classify("WebView was not initialized".to_string()),
        RendererError::InitializationFailed(_)
    ));
    assert!(matches!(
        RendererError::classify("WebView is gone".to_string()),
        RendererError::WebViewCreationFailed(_)
    ));
    assert!(matches!(
        RendererError::classify("webview is gone".to_string()),
        RendererError::Other(_)
    ));
    assert!(matches!(RendererError::classify("gl".to_string()), RendererError::Other(_)));
    assert!(matches!(RendererError::classify(String::new()), RendererError::Other(_)));
    match RendererError::classify("Glück".to_string()) {
        RendererError::Other(message) => assert_eq!(message, "Glück"),
        other => panic!("wrong kind of error: {:?}", other),
    }
}

#[test]
fn error_from_elsewhere_is_sorted_by_its_message() {
    let error = RendererError::from(anyhow::Error::msg("GL context is gone"));
    assert_eq!(
        error.to_string(),
        "OpenGL context error: GL context is gone\n\nHint: Update graphics drivers or use software rendering"
    );
    let error: RendererError = anyhow::Error::msg("out of cheese").into();
    assert_eq!(error.to_string(), "Renderer error: out of cheese");
}

#[test]
fn load_is_planned_from_address_and_surface() {
    assert_eq!(plan_load("https://example.com", true).unwrap(), "https://example.com/");
    assert_eq!(
        plan_load("HTTP://Example.COM/a b", true).unwrap(),
        "http://example.com/a%20b"
    );
    assert!(matches!(
        plan_load("https://example.com", false),
        Err(RendererError::NotInitialized)
    ));
    match plan_load("not a url", true) {
        Err(RendererError::LoadFailed(reason)) => {
            assert_eq!(reason, "Invalid URL: relative URL without a base")
        }
        other => panic!("expected a refusal, got {:?}", other),
    }
    match plan_load("https://", false) {
        Err(RendererError::LoadFailed(reason)) => assert_eq!(reason, "Invalid URL: empty host"),
        other => panic!("expected a refusal, got {:?}", other),
    }
}

#[test]
fn addresses_in_normal_form() {
    assert_eq!(normalize_url("https://example.com"), Ok("https://example.com/".to_string()));
    assert_eq!(
        normalize_url("data:text/html,<h1>Hi</h1>"),
        Ok("data:text/html,<h1>Hi</h1>".to_string())
    );
    assert_eq!(normalize_url("http://localhost:3000"), Ok("http://localhost:3000/".to_string()));
    assert_eq!(
        normalize_url("//example.com"),
        Err("relative URL without a base".to_string())
    );
    assert_eq!(
        normalize_url("http://example.com:99999"),
        Err("invalid port number".to_string())
    );
}

#[test]
fn blank_frame_has_four_zero_bytes_for_each_pixel() {
    let frame = RenderedFrame::blank(3, 2);
    assert_eq!(frame.width, 3);
    assert_eq!(frame.height, 2);
    assert_eq!(frame.pixels, vec![0u8; 24]);
    assert!(!frame.is_empty());
    assert!(RenderedFrame::blank(0, 5).is_empty());
}

#[test]
fn schemes_of_addresses() {
    assert_eq!(scheme_of_url("https://example.com"), Some("https".to_string()));
    assert_eq!(scheme_of_url("HTTP://Example.com/"), Some("http".to_string()));
    assert_eq!(scheme_of_url("data:text/html,<p>x</p>"), Some("data".to_string()));
    assert_eq!(scheme_of_url("ftp://example.com"), Some("ftp".to_string()));
    assert_eq!(scheme_of_url("not a url"), None);
    assert_eq!(scheme_of_url(""), None);
}

#[test]
fn engine_takes_http_https_and_data_only() {
    for scheme in ["http", "https", "data"] {
        assert_eq!(accept_scheme("x".to_string(), scheme).unwrap(), "x");
    }
    for scheme in ["ftp", "file", "HTTP", "httpss", "", "dat"] {
        match accept_scheme("x".to_string(), scheme) {
            Err(RendererError::LoadFailed(reason)) => assert_eq!(
                reason,
                format!(
                    "Unsupported URL scheme '{}'. Only http, https, and data URLs are supported.",
                    scheme
                )
            ),
            other => panic!("expected a refusal, got {:?}", other),
        }
    }
}

#[test]
fn engine_load_is_planned_from_address_and_scheme() {
    assert_eq!(plan_engine_load("http://example.com").unwrap(), "http://example.com/");
    assert_eq!(
        plan_engine_load("https://www.wikipedia.org").unwrap(),
        "https://www.wikipedia.org/"
    );
    assert_eq!(
        plan_engine_load("data:text/html,<h1>Hello</h1>").unwrap(),
        "data:text/html,<h1>Hello</h1>"
    );
    assert_eq!(plan_engine_load("HTTPS://Example.com").unwrap(), "https://example.com/");
    match plan_engine_load("not a url") {
        Err(RendererError::LoadFailed(reason)) => {
            assert_eq!(reason, "Invalid URL 'not a url': relative URL without a base")
        }
        other => panic!("expected a refusal, got {:?}", other),
    }
    match plan_engine_load("ftp://example.com") {
        Err(RendererError::LoadFailed(reason)) => assert_eq!(
            reason,
            "Unsupported URL scheme 'ftp'. Only http, https, and data URLs are supported."
        ),
        other => panic!("expected a refusal, got {:?}", other),
    }
    let error = plan_engine_load("file:///tmp/page.html").unwrap_err();
    assert!(error.to_string().contains("Unsupported URL scheme"));
    let error = plan_engine_load("http://").unwrap_err();
    assert!(error.to_string().contains("Invalid URL"));
}
