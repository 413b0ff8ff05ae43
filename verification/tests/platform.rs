use slint_webview::disabled::{
    NativeWebView, initialize_platform, planned_capabilities, pump_platform_events,
};
use slint_webview::{CompositionTier, WebViewBackend, WebViewError, WebViewOptions};

#[test]
fn disabled_native_backend_reports_unsupported_composition() {
    assert_eq!(
        planned_capabilities().composition_tier,
        CompositionTier::Unsupported
    );
}

#[test]
fn disabled_native_backend_refuses_every_operation() {
    let (sender, _receiver) = std::sync::mpsc::channel();
    assert!(matches!(
        NativeWebView::attach(&(), WebViewOptions::default(), sender),
        Err(WebViewError::BackendDisabled)
    ));
    assert!(matches!(
        initialize_platform(),
        Err(WebViewError::BackendDisabled)
    ));
    pump_platform_events();
    let mut backend = NativeWebView::default();
    assert!(matches!(
        backend.set_visible(true),
        Err(WebViewError::BackendDisabled)
    ));
    assert!(matches!(backend.focus(), Err(WebViewError::BackendDisabled)));
}
