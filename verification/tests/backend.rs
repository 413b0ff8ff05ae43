use std::sync::mpsc;

use slint_webview::{
    BackendWebViewController, CompositionTier, ScriptRequestId, WebViewBackend, WebViewBounds,
    WebViewCapabilities, WebViewError, WebViewEvent, WebViewSource, validate_bounds,
};

fn bounds(x: f64, y: f64, width: f64, height: f64) -> WebViewBounds {
    WebViewBounds::from_bits(x.to_bits(), y.to_bits(), width.to_bits(), height.to_bits())
}

#[derive(Default)]
struct RecordingBackend {
    operations: Vec<String>,
}

impl RecordingBackend {
    fn operations(&self) -> Vec<String> {
        self.operations.clone()
    }
}

impl WebViewBackend for RecordingBackend {
    fn capabilities() -> WebViewCapabilities {
        WebViewCapabilities {
            backend_name: "recording",
            engine_name: "test",
            composition_tier: CompositionTier::SlintOwnedTexture,
            supports_transparency: true,
            supports_clipping: true,
            supports_overlays_above_webview: true,
            supports_script_eval: true,
            supports_host_messaging: true,
            supports_custom_user_agent: true,
            supports_download_interception: false,
            supports_permission_interception: false,
            requires_external_runtime: false,
        }
    }

    fn set_bounds(&mut self, bounds: WebViewBounds) -> Result<(), WebViewError> {
        self.operations.push(format!(
            "bounds:{}x{}",
            f64::from_bits(bounds.width_bits),
            f64::from_bits(bounds.height_bits)
        ));
        Ok(())
    }

    fn set_visible(&mut self, visible: bool) -> Result<(), WebViewError> {
        self.operations.push(format!("visible:{visible}"));
        Ok(())
    }

    fn load_html(&mut self, html: &str) -> Result<(), WebViewError> {
        self.operations.push(format!("html:{html}"));
        Ok(())
    }

    fn load_url(&mut self, url: &str) -> Result<(), WebViewError> {
        self.operations.push(format!("url:{url}"));
        Ok(())
    }

    fn evaluate_script(
        &mut self,
        script: &str,
        request_id: ScriptRequestId,
    ) -> Result<(), WebViewError> {
        self.operations
            .push(format!("script:{}:{script}", request_id.0));
        Ok(())
    }

    fn focus(&mut self) -> Result<(), WebViewError> {
        self.operations.push("focus".to_owned());
        Ok(())
    }

    fn set_keyboard_focus_enabled(&mut self, enabled: bool) -> Result<(), WebViewError> {
        self.operations.push(format!("keyboard:{enabled}"));
        Ok(())
    }

    fn focus_parent(&mut self) -> Result<(), WebViewError> {
        self.operations.push("focus-parent".to_owned());
        Ok(())
    }
}

#[test]
fn source_loading_is_backend_agnostic() {
    let (_sender, receiver) = mpsc::channel();
    let mut controller = BackendWebViewController::new(RecordingBackend::default(), receiver);

    controller.load_source(WebViewSource::Blank).unwrap();
    controller
        .load_source(WebViewSource::Html("<p>hello</p>".to_owned()))
        .unwrap();
    controller
        .load_source(WebViewSource::Url("https://example.com".to_owned()))
        .unwrap();

    assert_eq!(
        controller.backend().operations(),
        vec!["html:", "html:<p>hello</p>", "url:https://example.com"]
    );
}

#[test]
fn script_request_ids_are_allocated_by_core() {
    let (_sender, receiver) = mpsc::channel();
    let mut controller = BackendWebViewController::new(RecordingBackend::default(), receiver);

    assert_eq!(
        controller.evaluate_script("1 + 1").unwrap(),
        ScriptRequestId(1)
    );
    assert_eq!(
        controller.evaluate_script("2 + 2").unwrap(),
        ScriptRequestId(2)
    );
    assert_eq!(
        controller.backend().operations(),
        vec!["script:1:1 + 1", "script:2:2 + 2"]
    );
}

#[test]
fn events_are_drained_by_core() {
    let (sender, receiver) = mpsc::channel();
    sender
        .send(WebViewEvent::TitleChanged {
            title: "ready".to_owned(),
        })
        .unwrap();
    let controller = BackendWebViewController::new(RecordingBackend::default(), receiver);

    assert_eq!(
        controller.drain_events(),
        vec![WebViewEvent::TitleChanged {
            title: "ready".to_owned()
        }]
    );
    assert!(controller.drain_events().is_empty());
}

#[test]
fn invalid_bounds_are_rejected_before_backend_call() {
    let (_sender, receiver) = mpsc::channel();
    let mut controller = BackendWebViewController::new(RecordingBackend::default(), receiver);

    assert!(matches!(
        controller.set_bounds(bounds(0.0, 0.0, 0.0, 10.0)),
        Err(WebViewError::InvalidBounds(_))
    ));
    assert!(controller.backend().operations().is_empty());
}

#[test]
fn controller_forwards_every_operation_in_order() {
    let (sender, receiver) = mpsc::channel();
    let mut controller = BackendWebViewController::new(RecordingBackend::default(), receiver);

    controller.set_bounds(bounds(1.0, 2.0, 3.0, 4.0)).unwrap();
    controller.set_visible(false).unwrap();
    controller.load_url("app://index").unwrap();
    controller.focus().unwrap();
    controller.set_keyboard_focus_enabled(true).unwrap();
    controller.focus_parent().unwrap();

    assert_eq!(
        controller.backend().operations(),
        vec![
            "bounds:3x4",
            "visible:false",
            "url:app://index",
            "focus",
            "keyboard:true",
            "focus-parent"
        ]
    );
    assert!(controller.try_recv_event().is_none());
    sender.send(WebViewEvent::FocusRequested).unwrap();
    sender
        .send(WebViewEvent::FocusChanged { focused: true })
        .unwrap();
    assert_eq!(controller.try_recv_event(), Some(WebViewEvent::FocusRequested));
    assert_eq!(
        controller.drain_events(),
        vec![WebViewEvent::FocusChanged { focused: true }]
    );
    assert_eq!(
        BackendWebViewController::<RecordingBackend>::capabilities().backend_name,
        "recording"
    );
}

#[test]
fn validate_bounds_rejects_non_finite_and_non_positive_sizes() {
    assert!(validate_bounds(bounds(-5.0, -5.0, 1.0, 1.0)).is_ok());
    assert!(validate_bounds(bounds(f64::NAN, 0.0, 1.0, 1.0)).is_err());
    assert!(validate_bounds(bounds(0.0, f64::INFINITY, 1.0, 1.0)).is_err());
    assert!(validate_bounds(bounds(0.0, 0.0, -1.0, 1.0)).is_err());
    assert!(validate_bounds(bounds(0.0, 0.0, 1.0, -0.0)).is_err());
    assert!(validate_bounds(bounds(0.0, 0.0, f64::INFINITY, 1.0)).is_err());
    assert!(matches!(
        validate_bounds(bounds(0.0, 0.0, 1.0, f64::NAN)),
        Err(WebViewError::InvalidBounds(_))
    ));
}

#[test]
fn bounds_compare_as_floating_point_values() {
    assert_eq!(bounds(0.0, 1.0, 2.0, 3.0), bounds(-0.0, 1.0, 2.0, 3.0));
    assert_ne!(bounds(f64::NAN, 1.0, 2.0, 3.0), bounds(f64::NAN, 1.0, 2.0, 3.0));
    assert_ne!(bounds(1.0, 1.0, 2.0, 3.0), bounds(1.5, 1.0, 2.0, 3.0));
}
