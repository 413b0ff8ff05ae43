use slint_webview::{
    RenderedWebViewBackend, RenderedWebViewCapabilities, RenderedWebViewDirtyRect,
    RenderedWebViewFrame, RenderedWebViewFrameId, RenderedWebViewFramePayload,
    RenderedWebViewFrameTransport, RenderedWebViewInputEvent, RenderedWebViewInputState,
    RenderedWebViewModifiers, RenderedWebViewPixelFormat, RenderedWebViewSize,
    RenderedWebViewTextureApi, Result,
};

#[test]
fn cpu_frame_reports_expected_transport_and_format() {
    let frame = RenderedWebViewFrame::cpu_pixels(
        RenderedWebViewFrameId(7),
        2,
        2,
        RenderedWebViewPixelFormat::Bgra8Premultiplied,
        vec![0; 16],
    );

    assert_eq!(
        frame.payload.transport(),
        RenderedWebViewFrameTransport::CpuPixels
    );
    assert_eq!(
        frame.payload.format(),
        RenderedWebViewPixelFormat::Bgra8Premultiplied
    );
    assert_eq!(
        RenderedWebViewFrame::minimum_cpu_byte_len(
            2,
            2,
            RenderedWebViewPixelFormat::Bgra8Premultiplied
        ),
        16
    );
}

#[test]
fn cpu_frame_is_tightly_packed_without_dirty_rects() {
    let frame = RenderedWebViewFrame::cpu_pixels(
        RenderedWebViewFrameId(1),
        3,
        5,
        RenderedWebViewPixelFormat::Rgba8Unpremultiplied,
        vec![1; 60],
    );

    assert!(frame.dirty_rects.is_empty());
    assert!(frame.has_valid_dimensions());
    match frame.payload {
        RenderedWebViewFramePayload::CpuPixels { stride, bytes, .. } => {
            assert_eq!(stride, 12);
            assert_eq!(bytes.len(), 60);
        }
        RenderedWebViewFramePayload::ExternalTexture { .. } => panic!("expected CPU pixels"),
    }
    let empty = RenderedWebViewFrame::cpu_pixels(
        RenderedWebViewFrameId(2),
        0,
        5,
        RenderedWebViewPixelFormat::Rgba8Premultiplied,
        Vec::new(),
    );
    assert!(!empty.has_valid_dimensions());
    assert_eq!(
        RenderedWebViewFrame::minimum_cpu_byte_len(3, 5, RenderedWebViewPixelFormat::Rgba8Premultiplied),
        60
    );
}

#[test]
fn texture_payload_reports_texture_transport() {
    let payload = RenderedWebViewFramePayload::ExternalTexture {
        texture_id: 9,
        api: RenderedWebViewTextureApi::Vulkan,
        format: RenderedWebViewPixelFormat::Rgba8Premultiplied,
    };

    assert_eq!(
        payload.transport(),
        RenderedWebViewFrameTransport::ExternalTexture
    );
    assert_eq!(payload.format(), RenderedWebViewPixelFormat::Rgba8Premultiplied);
    assert_eq!(RenderedWebViewPixelFormat::Bgra8Premultiplied.bytes_per_pixel(), 4);
}

#[test]
fn dirty_rect_and_modifiers_are_plain_data() {
    let rect = RenderedWebViewDirtyRect::new(1, 2, 3, 4);
    assert_eq!((rect.x, rect.y, rect.width, rect.height), (1, 2, 3, 4));
    let modifiers = RenderedWebViewModifiers::default();
    assert!(!modifiers.shift && !modifiers.control && !modifiers.alt && !modifiers.meta);
}

#[test]
fn planned_engine_capabilities() {
    let servo = RenderedWebViewCapabilities::servo_texture();
    let cef = RenderedWebViewCapabilities::cef_offscreen();

    assert_eq!(
        servo.preferred_transport,
        RenderedWebViewFrameTransport::ExternalTexture
    );
    assert_eq!(cef.preferred_transport, RenderedWebViewFrameTransport::CpuPixels);
    assert!(servo.supports_cpu_pixels && cef.supports_external_textures);
}

#[test]
fn servo_shell_prefers_external_texture_frames() {
    assert_eq!(
        slint_webview::servo::planned_rendered_capabilities().preferred_transport,
        RenderedWebViewFrameTransport::ExternalTexture
    );
    assert!(slint_webview::servo::planned_rendered_capabilities().supports_cpu_pixels);
}

#[test]
fn cef_shell_prefers_cpu_pixel_frames() {
    assert_eq!(
        slint_webview::cef::planned_rendered_capabilities().preferred_transport,
        RenderedWebViewFrameTransport::CpuPixels
    );
    assert!(slint_webview::cef::planned_rendered_capabilities().supports_external_textures);
}

#[test]
fn rendered_size_requires_positive_dimensions_and_scale() {
    assert!(RenderedWebViewSize::new(100, 80, 1.5f64.to_bits()).is_valid());
    assert!(!RenderedWebViewSize::new(0, 80, 1.5f64.to_bits()).is_valid());
    assert!(!RenderedWebViewSize::new(100, 80, 0.0f64.to_bits()).is_valid());
}

#[test]
fn rendered_size_rejects_negative_and_non_finite_scales() {
    assert!(!RenderedWebViewSize::new(100, 80, (-1.0f64).to_bits()).is_valid());
    assert!(!RenderedWebViewSize::new(100, 80, f64::NAN.to_bits()).is_valid());
    assert!(!RenderedWebViewSize::new(100, 80, f64::INFINITY.to_bits()).is_valid());
    assert!(RenderedWebViewSize::new(1, 1, f64::MIN_POSITIVE.to_bits()).is_valid());
}

#[test]
fn rendered_values_compare_as_floats() {
    let zero = RenderedWebViewSize::new(1, 1, 0.0f64.to_bits());
    let negative_zero = RenderedWebViewSize::new(1, 1, (-0.0f64).to_bits());
    assert_eq!(zero, negative_zero);
    let nan = RenderedWebViewSize::new(1, 1, f64::NAN.to_bits());
    assert_ne!(nan, nan);
    let moved = |x: f64| RenderedWebViewInputEvent::PointerMoved {
        x_bits: x.to_bits(),
        y_bits: 0.0f64.to_bits(),
        modifiers: RenderedWebViewModifiers::default(),
    };
    assert_eq!(moved(0.0), moved(-0.0));
    assert_ne!(moved(f64::NAN), moved(f64::NAN));
    let key = |text: Option<&str>| RenderedWebViewInputEvent::Keyboard {
        key: "a".to_owned(),
        text: text.map(str::to_owned),
        state: RenderedWebViewInputState::Pressed,
        modifiers: RenderedWebViewModifiers::default(),
    };
    assert_eq!(key(Some("a")), key(Some("a")));
    assert_ne!(key(Some("a")), key(None));
    assert_ne!(
        RenderedWebViewInputEvent::ImeCommit { text: "x".to_owned() },
        RenderedWebViewInputEvent::FocusChanged { focused: true }
    );
}

#[derive(Default)]
struct RecordingRenderedBackend {
    inputs: Vec<RenderedWebViewInputEvent>,
    frames: Vec<RenderedWebViewFrame>,
    sizes: Vec<RenderedWebViewSize>,
}

impl RenderedWebViewBackend for RecordingRenderedBackend {
    fn rendered_capabilities() -> RenderedWebViewCapabilities {
        RenderedWebViewCapabilities::cef_offscreen()
    }

    fn resize_render_surface(&mut self, size: RenderedWebViewSize) -> Result<()> {
        self.sizes.push(size);
        Ok(())
    }

    fn send_input_event(&mut self, event: RenderedWebViewInputEvent) -> Result<()> {
        self.inputs.push(event);
        Ok(())
    }

    fn next_frame(&mut self) -> Option<RenderedWebViewFrame> {
        self.frames.pop()
    }
}

#[test]
fn rendered_backend_contract_routes_resize_input_and_frames() {
    let mut backend = RecordingRenderedBackend::default();
    let frame = RenderedWebViewFrame::cpu_pixels(
        RenderedWebViewFrameId(1),
        1,
        1,
        RenderedWebViewPixelFormat::Rgba8Premultiplied,
        vec![255; 4],
    );
    backend.frames.push(frame.clone());

    backend
        .resize_render_surface(RenderedWebViewSize::new(1, 1, 1.0f64.to_bits()))
        .unwrap();
    backend
        .send_input_event(RenderedWebViewInputEvent::FocusChanged { focused: true })
        .unwrap();

    assert_eq!(backend.sizes.len(), 1);
    assert_eq!(backend.inputs.len(), 1);
    assert_eq!(backend.next_frame(), Some(frame));
    assert!(backend.next_frame().is_none());
}
