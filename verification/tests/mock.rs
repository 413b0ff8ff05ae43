use slint_webview::mock::build_mock_frame;
use slint_webview::{
    BackendWebViewController, CompositionTier, MockRenderedWebView, RenderedWebViewBackend,
    RenderedWebViewDirtyRect, RenderedWebViewFrameId, RenderedWebViewFramePayload,
    RenderedWebViewFrameTransport, RenderedWebViewInputEvent, RenderedWebViewInputState,
    RenderedWebViewModifiers, RenderedWebViewPointerButton, RenderedWebViewSize,
    ScriptRequestId, WebViewBackend, WebViewBounds, WebViewError, WebViewEvent,
};

#[test]
fn mock_focus_events_round_trip() {
    let (backend, receiver) = MockRenderedWebView::new();
    let mut controller = BackendWebViewController::new(backend, receiver);

    controller.focus().unwrap();
    controller.focus_parent().unwrap();

    assert_eq!(
        controller.drain_events(),
        vec![
            WebViewEvent::FocusChanged { focused: true },
            WebViewEvent::FocusChanged { focused: false },
        ]
    );
}

#[test]
fn mock_records_loads_and_scripts() {
    let (backend, receiver) = MockRenderedWebView::new();
    let mut controller = BackendWebViewController::new(backend, receiver);

    controller.load_html("<p>fixture</p>").unwrap();
    controller.load_url("https://example.com").unwrap();
    let request_id = controller.evaluate_script("1 + 1").unwrap();
    controller.set_keyboard_focus_enabled(true).unwrap();
    controller.set_visible(false).unwrap();
    let bounds = WebViewBounds::from_bits(
        0.0f64.to_bits(),
        0.0f64.to_bits(),
        5.0f64.to_bits(),
        6.0f64.to_bits(),
    );
    controller.set_bounds(bounds).unwrap();

    assert_eq!(
        controller.backend().last_html().as_deref(),
        Some("<p>fixture</p>")
    );
    assert_eq!(
        controller.backend().last_url().as_deref(),
        Some("https://example.com")
    );
    assert_eq!(
        controller.backend().scripts(),
        vec![(ScriptRequestId(1), "1 + 1".to_owned())]
    );
    assert!(controller.backend().keyboard_focus_enabled());
    assert!(!controller.backend().is_visible());
    assert_eq!(controller.backend().last_bounds(), Some(bounds));
    assert_eq!(
        controller.drain_events(),
        vec![
            WebViewEvent::TitleChanged {
                title: "mock html".to_owned()
            },
            WebViewEvent::NavigationStarted {
                url: "https://example.com".to_owned()
            },
            WebViewEvent::NavigationFinished {
                url: "https://example.com".to_owned()
            },
            WebViewEvent::ScriptResult {
                request_id,
                value: "mock:1 + 1".to_owned()
            },
        ]
    );
    assert_eq!(
        <MockRenderedWebView as WebViewBackend>::capabilities().composition_tier,
        CompositionTier::SlintOwnedTexture
    );
}

#[test]
fn mock_frames_are_deterministic_gradients() {
    let frame = build_mock_frame(RenderedWebViewFrameId(2), 2, 2).unwrap();

    assert_eq!(frame.width, 2);
    assert_eq!(frame.height, 2);
    assert_eq!(frame.dirty_rects, vec![RenderedWebViewDirtyRect::new(0, 0, 2, 2)]);
    match frame.payload {
        RenderedWebViewFramePayload::CpuPixels { bytes, stride, .. } => {
            assert_eq!(stride, 8);
            assert_eq!(
                bytes,
                vec![0, 0, 2, 255, 3, 0, 2, 255, 0, 5, 2, 255, 3, 5, 2, 255]
            );
        }
        RenderedWebViewFramePayload::ExternalTexture { .. } => panic!("expected CPU pixels"),
    }
}

#[test]
fn mock_frames_over_the_size_limit_are_rejected() {
    assert!(matches!(
        build_mock_frame(RenderedWebViewFrameId(1), 4097, 4096),
        Err(WebViewError::InvalidRenderedFrame(_))
    ));
    assert!(build_mock_frame(RenderedWebViewFrameId(1), 1024, 1024).is_ok());
}

#[test]
fn mock_surface_frames_queue_in_order() {
    let (mut backend, _receiver) = MockRenderedWebView::new();

    backend.queue_surface_frame(4, 3).unwrap();
    backend.queue_surface_frame(1, 1).unwrap();
    assert_eq!(backend.queued_frame_count(), 2);

    let first = backend.next_frame().unwrap();
    let second = backend.next_frame().unwrap();
    assert_eq!((first.id, first.width, first.height), (RenderedWebViewFrameId(1), 4, 3));
    assert_eq!((second.id, second.width, second.height), (RenderedWebViewFrameId(2), 1, 1));
    assert!(backend.next_frame().is_none());
    assert!(backend.queue_surface_frame(10000, 10000).is_err());
}

#[test]
fn mock_rendered_backend_resizes_routes_input_and_frames() {
    let (mut backend, receiver) = MockRenderedWebView::new();
    let mut controller_events = Vec::new();

    backend
        .resize_render_surface(RenderedWebViewSize::new(4, 3, 1.0f64.to_bits()))
        .unwrap();
    let press = RenderedWebViewInputEvent::PointerButton {
        x_bits: 1.0f64.to_bits(),
        y_bits: 2.0f64.to_bits(),
        button: RenderedWebViewPointerButton::Primary,
        state: RenderedWebViewInputState::Pressed,
        click_count: 1,
        modifiers: RenderedWebViewModifiers::default(),
    };
    backend.send_input_event(press.clone()).unwrap();
    backend
        .send_input_event(RenderedWebViewInputEvent::FocusChanged { focused: false })
        .unwrap();
    backend
        .send_input_event(RenderedWebViewInputEvent::PointerMoved {
            x_bits: 3.0f64.to_bits(),
            y_bits: 4.0f64.to_bits(),
            modifiers: RenderedWebViewModifiers::default(),
        })
        .unwrap();
    while let Ok(event) = receiver.try_recv() {
        controller_events.push(event);
    }

    assert_eq!(
        backend.sizes(),
        vec![RenderedWebViewSize::new(4, 3, 1.0f64.to_bits())]
    );
    assert_eq!(backend.inputs().len(), 3);
    assert_eq!(backend.inputs()[0], press);
    assert_eq!(
        controller_events,
        vec![
            WebViewEvent::FocusRequested,
            WebViewEvent::FocusChanged { focused: false },
        ]
    );
    let frame = backend.next_frame().unwrap();
    assert_eq!((frame.id, frame.width, frame.height), (RenderedWebViewFrameId(1), 4, 3));
    assert!(backend.next_frame().is_none());
    assert_eq!(
        <MockRenderedWebView as RenderedWebViewBackend>::rendered_capabilities()
            .preferred_transport,
        RenderedWebViewFrameTransport::CpuPixels
    );
}

#[test]
fn mock_rendered_backend_records_oversized_surfaces_without_a_frame() {
    let (mut backend, _receiver) = MockRenderedWebView::new();

    let size = RenderedWebViewSize::new(10000, 10000, 2.0f64.to_bits());
    assert!(matches!(
        backend.resize_render_surface(size),
        Err(WebViewError::InvalidRenderedFrame(_))
    ));
    assert_eq!(backend.sizes(), vec![size]);
    assert_eq!(backend.queued_frame_count(), 0);
}
