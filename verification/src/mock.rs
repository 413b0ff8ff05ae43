//! Deterministic backend for tests and examples.
//!
//! This backend is intentionally not a browser engine. It implements the
//! shared backend contract with predictable events and CPU frames so Slint-side
//! composition and controller behavior can be exercised without a native
//! webview, CEF, or Servo runtime.
use vstd::prelude::*;

use crate::api::{ScriptRequestId, WebViewEvent};
use crate::backend::{BackendCall, WebViewBackend};
use crate::bounds::WebViewBounds;
use crate::capabilities::{CompositionTier, WebViewCapabilities};
use crate::error::WebViewError;
use crate::render::{
    RenderedWebViewBackend, RenderedWebViewCapabilities, RenderedWebViewDirtyRect,
    RenderedWebViewFrame, RenderedWebViewFrameId, RenderedWebViewFramePayload,
    RenderedWebViewFrameTransport, RenderedWebViewInputEvent, RenderedWebViewInputState,
    RenderedWebViewPixelFormat, RenderedWebViewSize,
};
use std::collections::VecDeque;
use vstd::string::StringExecFns;
use std::sync::mpsc::{Receiver, Sender};

verus! {

/// Largest CPU frame, in bytes, the mock backend produces (64 MiB).
pub const MAX_MOCK_FRAME_BYTES: usize = 67108864usize;

/// Calls `std::sync::mpsc::channel` and hands back both ends of a fresh,
/// empty channel.
#[verifier::external_body]
fn open_channel<T>() -> (Sender<T>, Receiver<T>) {
    std::sync::mpsc::channel()
}

/// Calls `Sender::send`; a send to a channel whose receiver is gone is
/// ignored. Nothing is stated: the value leaves this program's state.
#[verifier::external_body]
fn send_ignoring_disconnect<T>(sender: &Sender<T>, value: T) {
    let _ = sender.send(value);
}

/// The four RGBA bytes of pixel `index` in a mock frame `id` of width `width`:
/// a red/green gradient over the pixel position, blue from the frame ID, and
/// opaque alpha (all channels taken modulo 256, as `u8` wrapping arithmetic).
pub open spec fn mock_pixel(id: u64, width: u32, index: int) -> Seq<u8> {
    seq![
        ((((index % (width as int)) % 256) * 3) % 256) as u8,
        ((((index / (width as int)) % 256) * 5) % 256) as u8,
        (id % 256) as u8,
        255u8,
    ]
}

/// The bytes of the first `count` pixels of a mock frame.
pub open spec fn mock_frame_bytes(id: u64, width: u32, count: int) -> Seq<u8>
    decreases count,
{
    if count <= 0 {
        Seq::empty()
    } else {
        mock_frame_bytes(id, width, count - 1) + mock_pixel(id, width, count - 1)
    }
}

/// Whether `frame` is the deterministic mock frame `id` of the given size:
/// tightly packed premultiplied RGBA pixels from `mock_pixel`, one dirty
/// rectangle covering the whole frame.
pub open spec fn is_mock_frame(frame: RenderedWebViewFrame, id: u64, width: u32, height: u32) -> bool {
    &&& frame.id == RenderedWebViewFrameId(id)
    &&& frame.width == width
    &&& frame.height == height
    &&& frame.dirty_rects@ == seq![RenderedWebViewDirtyRect { x: 0, y: 0, width, height }]
    &&& (frame.payload matches RenderedWebViewFramePayload::CpuPixels { bytes, stride, format }
        && bytes@ == mock_frame_bytes(id, width, width * height) && stride == width * 4
        && format == RenderedWebViewPixelFormat::Rgba8Premultiplied)
}

/// Builds the deterministic CPU frame `id` of `width` x `height` pixels, or
/// fails when the frame would exceed `MAX_MOCK_FRAME_BYTES`.
pub fn build_mock_frame(id: RenderedWebViewFrameId, width: u32, height: u32) -> (r: Result<
    RenderedWebViewFrame,
    WebViewError,
>)
    requires
        height > 0 || width * 4 <= usize::MAX,
    ensures
        width * height * 4 > MAX_MOCK_FRAME_BYTES ==> r matches Err(
            WebViewError::InvalidRenderedFrame(_),
        ),
        width * height * 4 <= MAX_MOCK_FRAME_BYTES ==> (r matches Ok(frame) && is_mock_frame(
            frame,
            id.0,
            width,
            height,
        )),
{
    let format = RenderedWebViewPixelFormat::Rgba8Premultiplied;
    let w: usize = width as usize;
    let h: usize = height as usize;
    let pixel_count = match w.checked_mul(h) {
        Some(count) => count,
        None => {
            assert(width * height * 4 > MAX_MOCK_FRAME_BYTES) by (nonlinear_arith)
                requires
                    width * height > usize::MAX,
                    usize::MAX >= u32::MAX,
            ;
            return Err(WebViewError::InvalidRenderedFrame("mock frame dimensions overflow".to_owned()));
        },
    };
    let byte_len = match pixel_count.checked_mul(format.bytes_per_pixel()) {
        Some(len) => len,
        None => {
            return Err(WebViewError::InvalidRenderedFrame("mock frame bytes overflow".to_owned()));
        },
    };
    if byte_len > MAX_MOCK_FRAME_BYTES {
        return Err(
            WebViewError::InvalidRenderedFrame(
                "mock frame exceeds maximum test buffer size".to_owned(),
            ),
        );
    }
    let mut bytes: Vec<u8> = Vec::new();
    let mut index: usize = 0;
    while index < pixel_count
        invariant
            pixel_count == width * height,
            pixel_count <= MAX_MOCK_FRAME_BYTES,
            index <= pixel_count,
            w == width,
            bytes@ == mock_frame_bytes(id.0, width, index as int),
        decreases pixel_count - index,
    {
        let column: usize = index % w;
        let row: usize = index / w;
        let red: u8 = (((column % 256) * 3) % 256) as u8;
        let green: u8 = (((row % 256) * 5) % 256) as u8;
        let blue: u8 = (id.0 % 256) as u8;
        let ghost before = bytes@;
        bytes.push(red);
        bytes.push(green);
        bytes.push(blue);
        bytes.push(255u8);
        assert(bytes@ =~= before + mock_pixel(id.0, width, index as int));
        index = index + 1;
    }
    assert(width * 4 <= usize::MAX) by (nonlinear_arith)
        requires
            height > 0 || width * 4 <= usize::MAX,
            width * height * 4 <= 67108864,
            usize::MAX >= 67108864,
    ;
    let mut frame = RenderedWebViewFrame::cpu_pixels(id, width, height, format, bytes);
    frame.dirty_rects.push(RenderedWebViewDirtyRect::new(0, 0, width, height));
    assert(frame.dirty_rects@ =~= seq![RenderedWebViewDirtyRect { x: 0, y: 0, width, height }]);
    assert(pixel_count == width * height);
    Ok(frame)
}

/// A mock frame of this size is refused: it holds more than
/// `MAX_MOCK_FRAME_BYTES`, or it has no rows and one row of its pixels would
/// not fit in `usize` (possible only where `usize` has 32 bits).
pub open spec fn mock_frame_refused(width: u32, height: u32) -> bool {
    width * height * 4 > MAX_MOCK_FRAME_BYTES || (height == 0 && width * 4 > usize::MAX)
}

/// A backend that records operations and produces deterministic frames.
pub struct MockRenderedWebView {
    event_sender: Sender<WebViewEvent>,
    bounds: Option<WebViewBounds>,
    visible: bool,
    keyboard_focus_enabled: bool,
    html: Option<String>,
    url: Option<String>,
    scripts: Vec<(ScriptRequestId, String)>,
    sizes: Vec<RenderedWebViewSize>,
    inputs: Vec<RenderedWebViewInputEvent>,
    frames: VecDeque<RenderedWebViewFrame>,
    next_frame_id: u64,
    emitted: Ghost<Seq<WebViewEvent>>,
    received: Ghost<Seq<(BackendCall, Option<WebViewError>)>>,
}

impl MockRenderedWebView {
    /// Last bounds sent to the backend.
    pub closed spec fn spec_last_bounds(&self) -> Option<WebViewBounds> {
        self.bounds
    }

    /// Whether the surface is visible.
    pub closed spec fn spec_visible(&self) -> bool {
        self.visible
    }

    /// Whether the backend may claim keyboard focus.
    pub closed spec fn spec_keyboard_focus_enabled(&self) -> bool {
        self.keyboard_focus_enabled
    }

    /// Last HTML document loaded.
    pub closed spec fn spec_last_html(&self) -> Option<Seq<char>> {
        match self.html {
            Some(html) => Some(html@),
            None => None,
        }
    }

    /// Last URL loaded.
    pub closed spec fn spec_last_url(&self) -> Option<Seq<char>> {
        match self.url {
            Some(url) => Some(url@),
            None => None,
        }
    }

    /// Script evaluations received, oldest first.
    pub closed spec fn spec_scripts(&self) -> Seq<(ScriptRequestId, Seq<char>)> {
        self.scripts@.map_values(|entry: (ScriptRequestId, String)| (entry.0, entry.1@))
    }

    /// Rendered-surface sizes received, oldest first.
    pub closed spec fn spec_sizes(&self) -> Seq<RenderedWebViewSize> {
        self.sizes@
    }

    /// Rendered input events received, oldest first.
    pub closed spec fn spec_inputs(&self) -> Seq<RenderedWebViewInputEvent> {
        self.inputs@
    }

    /// Frames waiting to be taken, oldest first.
    pub closed spec fn spec_frames(&self) -> Seq<RenderedWebViewFrame> {
        self.frames@
    }

    /// The ID the next produced frame receives.
    pub closed spec fn spec_next_frame_id(&self) -> u64 {
        self.next_frame_id
    }

    /// Every backend operation this mock has received, oldest first, each
    /// with the error it answered (always `None`).
    pub closed spec fn spec_received(&self) -> Seq<(BackendCall, Option<WebViewError>)> {
        self.received@
    }

    /// Every event this backend has sent, oldest first.
    pub closed spec fn emitted(&self) -> Seq<WebViewEvent> {
        self.emitted@
    }

    /// Creates a mock backend and a matching event receiver.
    pub fn new() -> (r: (Self, Receiver<WebViewEvent>))
        ensures
            r.0.spec_last_bounds() is None,
            r.0.spec_visible(),
            !r.0.spec_keyboard_focus_enabled(),
            r.0.spec_last_html() is None,
            r.0.spec_last_url() is None,
            r.0.spec_scripts().len() == 0,
            r.0.spec_sizes().len() == 0,
            r.0.spec_inputs().len() == 0,
            r.0.spec_frames().len() == 0,
            r.0.spec_next_frame_id() == 1,
            r.0.emitted().len() == 0,
            r.0.spec_received().len() == 0,
    {
        let (event_sender, receiver) = open_channel();
        let backend = MockRenderedWebView {
            event_sender,
            bounds: None,
            visible: true,
            keyboard_focus_enabled: false,
            html: None,
            url: None,
            scripts: Vec::new(),
            sizes: Vec::new(),
            inputs: Vec::new(),
            frames: VecDeque::new(),
            next_frame_id: 1,
            emitted: Ghost(Seq::empty()),
            received: Ghost(Seq::empty()),
        };
        assert(backend.spec_scripts() =~= Seq::empty());
        (backend, receiver)
    }

    /// Returns the last logical bounds sent to the backend.
    pub fn last_bounds(&self) -> (r: Option<WebViewBounds>)
        ensures
            r == self.spec_last_bounds(),
    {
        self.bounds
    }

    /// Returns whether the mock surface is currently visible.
    pub fn is_visible(&self) -> (r: bool)
        ensures
            r == self.spec_visible(),
    {
        self.visible
    }

    /// Returns whether the mock backend may claim keyboard focus.
    pub fn keyboard_focus_enabled(&self) -> (r: bool)
        ensures
            r == self.spec_keyboard_focus_enabled(),
    {
        self.keyboard_focus_enabled
    }

    /// Returns the last HTML string loaded by the controller.
    pub fn last_html(&self) -> (r: Option<String>)
        ensures
            r matches Some(html) ==> self.spec_last_html() == Some(html@),
            r is None ==> self.spec_last_html() is None,
    {
        match &self.html {
            Some(html) => Some(html.clone()),
            None => None,
        }
    }

    /// Returns the last URL loaded by the controller.
    pub fn last_url(&self) -> (r: Option<String>)
        ensures
            r matches Some(url) ==> self.spec_last_url() == Some(url@),
            r is None ==> self.spec_last_url() is None,
    {
        match &self.url {
            Some(url) => Some(url.clone()),
            None => None,
        }
    }

    /// Returns recorded script evaluations.
    pub fn scripts(&self) -> (r: Vec<(ScriptRequestId, String)>)
        ensures
            r@.map_values(|entry: (ScriptRequestId, String)| (entry.0, entry.1@))
                == self.spec_scripts(),
    {
        let mut copy: Vec<(ScriptRequestId, String)> = Vec::new();
        let mut i: usize = 0;
        while i < self.scripts.len()
            invariant
                i <= self.scripts@.len(),
                copy@.len() == i,
                forall|j: int|
                    0 <= j < i ==> #[trigger] copy@[j].0 == self.scripts@[j].0 && copy@[j].1@
                        == self.scripts@[j].1@,
            decreases self.scripts.len() - i,
        {
            let entry = &self.scripts[i];
            copy.push((entry.0, entry.1.clone()));
            i = i + 1;
        }
        assert(copy@.map_values(|entry: (ScriptRequestId, String)| (entry.0, entry.1@))
            =~= self.spec_scripts());
        copy
    }

    /// Returns recorded rendered-surface sizes.
    pub fn sizes(&self) -> (r: Vec<RenderedWebViewSize>)
        ensures
            r@ == self.spec_sizes(),
    {
        let mut copy: Vec<RenderedWebViewSize> = Vec::new();
        let mut i: usize = 0;
        while i < self.sizes.len()
            invariant
                i <= self.sizes@.len(),
                copy@ == self.sizes@.take(i as int),
            decreases self.sizes.len() - i,
        {
            copy.push(self.sizes[i]);
            proof {
                assert(self.sizes@.take(i + 1) =~= self.sizes@.take(i as int).push(self.sizes@[i as int]));
            }
            i = i + 1;
        }
        assert(self.sizes@.take(self.sizes@.len() as int) =~= self.sizes@);
        copy
    }

    /// Returns recorded rendered input events.
    pub fn inputs(&self) -> (r: Vec<RenderedWebViewInputEvent>)
        ensures
            r@ == self.spec_inputs(),
    {
        let mut copy: Vec<RenderedWebViewInputEvent> = Vec::new();
        let mut i: usize = 0;
        while i < self.inputs.len()
            invariant
                i <= self.inputs@.len(),
                copy@ == self.inputs@.take(i as int),
            decreases self.inputs.len() - i,
        {
            copy.push(copy_input_event(&self.inputs[i]));
            proof {
                assert(self.inputs@.take(i + 1) =~= self.inputs@.take(i as int).push(self.inputs@[i as int]));
            }
            i = i + 1;
        }
        assert(self.inputs@.take(self.inputs@.len() as int) =~= self.inputs@);
        copy
    }

    /// Returns the number of frames currently waiting to be drained.
    pub fn queued_frame_count(&self) -> (r: usize)
        ensures
            r == self.spec_frames().len(),
    {
        self.frames.len()
    }

    /// Produces the next deterministic frame for a surface of
    /// `width` x `height` physical pixels and queues it.
    pub fn queue_surface_frame(&mut self, width: u32, height: u32) -> (r: Result<(), WebViewError>)
        ensures
            final(self).spec_next_frame_id() == next_frame_id_after(old(self).spec_next_frame_id()),
            mock_frame_refused(width, height) ==> (r matches Err(
                WebViewError::InvalidRenderedFrame(_),
            ) && final(self).spec_frames() == old(self).spec_frames()),
            !mock_frame_refused(width, height) ==> r is Ok && final(self).spec_frames().len()
                == old(self).spec_frames().len() + 1 && final(self).spec_frames().drop_last()
                == old(self).spec_frames() && is_mock_frame(
                final(self).spec_frames().last(),
                old(self).spec_next_frame_id(),
                width,
                height,
            ),
            final(self).spec_last_bounds() == old(self).spec_last_bounds(),
            final(self).emitted() == old(self).emitted(),
            final(self).spec_sizes() == old(self).spec_sizes(),
            final(self).spec_inputs() == old(self).spec_inputs(),
    {
        let id = self.take_frame_id();
        if height == 0 && width as usize > usize::MAX / 4 {
            return Err(WebViewError::InvalidRenderedFrame("mock frame dimensions overflow".to_owned()));
        }
        let frame = build_mock_frame(id, width, height)?;
        self.frames.push_back(frame);
        Ok(())
    }

    /// Sends an event to the controller's receiver.
    pub fn emit(&mut self, event: WebViewEvent)
        ensures
            final(self).emitted() == old(self).emitted().push(event),
            final(self).spec_frames() == old(self).spec_frames(),
            final(self).spec_next_frame_id() == old(self).spec_next_frame_id(),
            final(self).spec_last_bounds() == old(self).spec_last_bounds(),
            final(self).spec_visible() == old(self).spec_visible(),
            final(self).spec_keyboard_focus_enabled() == old(self).spec_keyboard_focus_enabled(),
            final(self).spec_last_html() == old(self).spec_last_html(),
            final(self).spec_last_url() == old(self).spec_last_url(),
            final(self).spec_scripts() == old(self).spec_scripts(),
            final(self).spec_sizes() == old(self).spec_sizes(),
            final(self).spec_inputs() == old(self).spec_inputs(),
            final(self).spec_received() == old(self).spec_received(),
    {
        proof {
            self.emitted@ = self.emitted@.push(event);
        }
        send_ignoring_disconnect(&self.event_sender, event);
    }

    fn take_frame_id(&mut self) -> (r: RenderedWebViewFrameId)
        ensures
            r == RenderedWebViewFrameId(old(self).spec_next_frame_id()),
            final(self).spec_next_frame_id() == next_frame_id_after(old(self).spec_next_frame_id()),
            final(self).spec_frames() == old(self).spec_frames(),
            final(self).spec_last_bounds() == old(self).spec_last_bounds(),
            final(self).emitted() == old(self).emitted(),
            final(self).spec_sizes() == old(self).spec_sizes(),
            final(self).spec_inputs() == old(self).spec_inputs(),
    {
        let id = self.next_frame_id;
        let next = id.saturating_add(1);
        self.next_frame_id = if next == 0 {
            1
        } else {
            next
        };
        RenderedWebViewFrameId(id)
    }
}

impl WebViewBackend for MockRenderedWebView {
    closed spec fn received(&self) -> Seq<(BackendCall, Option<WebViewError>)> {
        self.spec_received()
    }

    fn capabilities() -> (r: WebViewCapabilities)
        ensures
            r.backend_name@ == "mock-rendered"@,
            r.engine_name@ == "mock"@,
            r.composition_tier == CompositionTier::SlintOwnedTexture,
            r.supports_transparency,
            r.supports_clipping,
            r.supports_overlays_above_webview,
            r.supports_script_eval,
            r.supports_host_messaging,
            r.supports_custom_user_agent,
            !r.supports_download_interception,
            !r.supports_permission_interception,
            !r.requires_external_runtime,
    {
        WebViewCapabilities {
            backend_name: "mock-rendered",
            engine_name: "mock",
            composition_tier: CompositionTier::SlintOwnedTexture,
            supports_transparency: true,
            supports_clipping: true,
            supports_overlays_above_webview: true,
            supports_script_eval: true,
            supports_host_messaging: true,
            supports_custom_user_agent: true,
            supports_download_interception: false,
            supports_permission_interception: false,
            requires_external_runtime: false,
        }
    }

    fn set_bounds(&mut self, bounds: WebViewBounds) -> (r: Result<(), WebViewError>)
        ensures
            r is Ok,
            final(self).spec_last_bounds() == Some(bounds),
            final(self).emitted() == old(self).emitted(),
    {
        self.bounds = Some(bounds);
        proof {
            self.received@ = self.received@.push((BackendCall::SetBounds(bounds), None));
        }
        Ok(())
    }

    fn set_visible(&mut self, visible: bool) -> (r: Result<(), WebViewError>)
        ensures
            r is Ok,
            final(self).spec_visible() == visible,
            final(self).emitted() == old(self).emitted(),
    {
        self.visible = visible;
        proof {
            self.received@ = self.received@.push((BackendCall::SetVisible(visible), None));
        }
        Ok(())
    }

    fn load_html(&mut self, html: &str) -> (r: Result<(), WebViewError>)
        ensures
            r is Ok,
            final(self).spec_last_html() == Some(html@),
            final(self).emitted().len() == old(self).emitted().len() + 1,
            final(self).emitted().drop_last() == old(self).emitted(),
            final(self).emitted().last() matches WebViewEvent::TitleChanged { title } && title@
                == "mock html"@,
    {
        self.html = Some(html.to_owned());
        self.emit(WebViewEvent::TitleChanged { title: "mock html".to_owned() });
        proof {
            self.received@ = self.received@.push((BackendCall::LoadHtml(html@), None));
        }
        Ok(())
    }

    fn load_url(&mut self, url: &str) -> (r: Result<(), WebViewError>)
        ensures
            r is Ok,
            final(self).spec_last_url() == Some(url@),
            final(self).emitted().len() == old(self).emitted().len() + 2,
            final(self).emitted().take(old(self).emitted().len() as int) == old(self).emitted(),
            final(self).emitted()[old(self).emitted().len() as int] matches WebViewEvent::NavigationStarted {
                url: started,
            } && started@ == url@,
            final(self).emitted().last() matches WebViewEvent::NavigationFinished {
                url: finished,
            } && finished@ == url@,
    {
        self.url = Some(url.to_owned());
        self.emit(WebViewEvent::NavigationStarted { url: url.to_owned() });
        self.emit(WebViewEvent::NavigationFinished { url: url.to_owned() });
        proof {
            assert(self.emitted@.take(old(self).emitted@.len() as int) =~= old(self).emitted@);
        }
        proof {
            self.received@ = self.received@.push((BackendCall::LoadUrl(url@), None));
        }
        Ok(())
    }

    fn evaluate_script(&mut self, script: &str, request_id: ScriptRequestId) -> (r: Result<
        (),
        WebViewError,
    >)
        ensures
            r is Ok,
            final(self).spec_scripts() == old(self).spec_scripts().push((request_id, script@)),
            final(self).emitted().len() == old(self).emitted().len() + 1,
            final(self).emitted().drop_last() == old(self).emitted(),
            final(self).emitted().last() matches WebViewEvent::ScriptResult { request_id: id, value }
                && id == request_id && value@ == "mock:"@ + script@,
    {
        self.scripts.push((request_id, script.to_owned()));
        proof {
            assert(self.spec_scripts() =~= old(self).spec_scripts().push((request_id, script@)));
        }
        let value = "mock:".to_owned().concat(script);
        self.emit(WebViewEvent::ScriptResult { request_id, value });
        proof {
            self.received@ = self.received@.push((BackendCall::EvaluateScript(script@, request_id), None));
        }
        Ok(())
    }

    fn focus(&mut self) -> (r: Result<(), WebViewError>)
        ensures
            r is Ok,
            final(self).emitted() == old(self).emitted().push(
                WebViewEvent::FocusChanged { focused: true },
            ),
    {
        self.emit(WebViewEvent::FocusChanged { focused: true });
        proof {
            self.received@ = self.received@.push((BackendCall::Focus, None));
        }
        Ok(())
    }

    fn set_keyboard_focus_enabled(&mut self, enabled: bool) -> (r: Result<(), WebViewError>)
        ensures
            r is Ok,
            final(self).spec_keyboard_focus_enabled() == enabled,
            final(self).emitted() == old(self).emitted(),
    {
        self.keyboard_focus_enabled = enabled;
        proof {
            self.received@ = self.received@.push((BackendCall::SetKeyboardFocusEnabled(enabled), None));
        }
        Ok(())
    }

    fn focus_parent(&mut self) -> (r: Result<(), WebViewError>)
        ensures
            r is Ok,
            final(self).emitted() == old(self).emitted().push(
                WebViewEvent::FocusChanged { focused: false },
            ),
    {
        self.emit(WebViewEvent::FocusChanged { focused: false });
        proof {
            self.received@ = self.received@.push((BackendCall::FocusParent, None));
        }
        Ok(())
    }
}


/// The event the mock emits for a rendered input: a focus change is echoed,
/// a pressed pointer button requests focus, other input emits nothing.
pub open spec fn input_focus_event(event: RenderedWebViewInputEvent) -> Option<WebViewEvent> {
    match event {
        RenderedWebViewInputEvent::FocusChanged { focused } => Some(
            WebViewEvent::FocusChanged { focused },
        ),
        RenderedWebViewInputEvent::PointerButton { state, .. } => if state
            == RenderedWebViewInputState::Pressed {
            Some(WebViewEvent::FocusRequested)
        } else {
            None
        },
        _ => None,
    }
}

/// Returns an equal copy of a rendered input event.
fn copy_input_event(event: &RenderedWebViewInputEvent) -> (r: RenderedWebViewInputEvent)
    ensures
        r == *event,
{
    match event {
        RenderedWebViewInputEvent::PointerMoved { x_bits, y_bits, modifiers } => {
            RenderedWebViewInputEvent::PointerMoved {
                x_bits: *x_bits,
                y_bits: *y_bits,
                modifiers: *modifiers,
            }
        },
        RenderedWebViewInputEvent::PointerButton {
            x_bits,
            y_bits,
            button,
            state,
            click_count,
            modifiers,
        } => RenderedWebViewInputEvent::PointerButton {
            x_bits: *x_bits,
            y_bits: *y_bits,
            button: *button,
            state: *state,
            click_count: *click_count,
            modifiers: *modifiers,
        },
        RenderedWebViewInputEvent::Wheel { x_bits, y_bits, delta_x_bits, delta_y_bits, modifiers } => {
            RenderedWebViewInputEvent::Wheel {
                x_bits: *x_bits,
                y_bits: *y_bits,
                delta_x_bits: *delta_x_bits,
                delta_y_bits: *delta_y_bits,
                modifiers: *modifiers,
            }
        },
        RenderedWebViewInputEvent::Keyboard { key, text, state, modifiers } => {
            let text_copy = match text {
                Some(t) => Some(t.clone()),
                None => None,
            };
            RenderedWebViewInputEvent::Keyboard {
                key: key.clone(),
                text: text_copy,
                state: *state,
                modifiers: *modifiers,
            }
        },
        RenderedWebViewInputEvent::ImeCommit { text } => RenderedWebViewInputEvent::ImeCommit {
            text: text.clone(),
        },
        RenderedWebViewInputEvent::FocusChanged { focused } => {
            RenderedWebViewInputEvent::FocusChanged { focused: *focused }
        },
    }
}

impl RenderedWebViewBackend for MockRenderedWebView {
    fn rendered_capabilities() -> (r: RenderedWebViewCapabilities)
        ensures
            r == (RenderedWebViewCapabilities {
                preferred_transport: RenderedWebViewFrameTransport::CpuPixels,
                supports_cpu_pixels: true,
                supports_external_textures: false,
                supports_transparency: true,
                supports_slint_input: true,
                supports_ime: true,
            }),
    {
        RenderedWebViewCapabilities {
            preferred_transport: RenderedWebViewFrameTransport::CpuPixels,
            supports_cpu_pixels: true,
            supports_external_textures: false,
            supports_transparency: true,
            supports_slint_input: true,
            supports_ime: true,
        }
    }

    /// Records the size, then takes the next frame ID and queues the
    /// deterministic frame of that size, unless it is refused as too large.
    fn resize_render_surface(&mut self, size: RenderedWebViewSize) -> (r: Result<(), WebViewError>)
        ensures
            final(self).spec_sizes() == old(self).spec_sizes().push(size),
            final(self).spec_inputs() == old(self).spec_inputs(),
            final(self).emitted() == old(self).emitted(),
            final(self).spec_next_frame_id() == next_frame_id_after(
                old(self).spec_next_frame_id(),
            ),
            mock_frame_refused(size.width, size.height) ==> (r matches Err(
                WebViewError::InvalidRenderedFrame(_),
            )) && final(self).spec_frames() == old(self).spec_frames(),
            !mock_frame_refused(size.width, size.height) ==> r is Ok && final(self).spec_frames().drop_last() == old(self).spec_frames()
                && final(self).spec_frames().len() == old(self).spec_frames().len() + 1
                && is_mock_frame(
                final(self).spec_frames().last(),
                old(self).spec_next_frame_id(),
                size.width,
                size.height,
            ),
    {
        self.sizes.push(size);
        self.queue_surface_frame(size.width, size.height)
    }

    /// Emits the focus event an input implies, then records the input.
    fn send_input_event(&mut self, event: RenderedWebViewInputEvent) -> (r: Result<(), WebViewError>)
        ensures
            r is Ok,
            final(self).spec_inputs() == old(self).spec_inputs().push(event),
            final(self).spec_sizes() == old(self).spec_sizes(),
            final(self).spec_frames() == old(self).spec_frames(),
            input_focus_event(event) matches Some(emitted) ==> final(self).emitted() == old(
                self,
            ).emitted().push(emitted),
            input_focus_event(event) is None ==> final(self).emitted() == old(self).emitted(),
    {
        match &event {
            RenderedWebViewInputEvent::FocusChanged { focused } => {
                self.emit(WebViewEvent::FocusChanged { focused: *focused });
            },
            RenderedWebViewInputEvent::PointerButton { state, .. } => {
                if *state == RenderedWebViewInputState::Pressed {
                    self.emit(WebViewEvent::FocusRequested);
                }
            },
            _ => {},
        }
        self.inputs.push(event);
        Ok(())
    }

    /// Returns the oldest queued frame, if any.
    fn next_frame(&mut self) -> (r: Option<RenderedWebViewFrame>)
        ensures
            old(self).spec_frames().len() == 0 ==> r is None && final(self).spec_frames()
                == old(self).spec_frames(),
            old(self).spec_frames().len() > 0 ==> r == Some(old(self).spec_frames()[0])
                && final(self).spec_frames() == old(self).spec_frames().drop_first(),
            final(self).emitted() == old(self).emitted(),
            final(self).spec_sizes() == old(self).spec_sizes(),
            final(self).spec_inputs() == old(self).spec_inputs(),
    {
        let frame = self.frames.pop_front();
        proof {
            if old(self).frames@.len() > 0 {
                assert(self.frames@ =~= old(self).frames@.drop_first());
            }
        }
        frame
    }

}

/// The frame ID produced after `id`: the next integer, saturating at
/// `u64::MAX`.
pub open spec fn next_frame_id_after(id: u64) -> u64 {
    if id == u64::MAX {
        u64::MAX
    } else {
        (id + 1) as u64
    }
}

} // verus!
