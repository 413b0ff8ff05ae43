//! Frame, pixel and input description types for Slint-owned rendered backends.
//!
//! Floating-point values (the device scale factor and logical pointer
//! coordinates) are carried as the bit patterns of their binary64 values, as
//! in [`crate::bounds`].
use vstd::prelude::*;
use vstd::std_specs::cmp::PartialEqSpecImpl;

use crate::bounds::{bits_are_finite, bits_are_positive, bits_float_eq, float_eq, float_is_finite, float_is_positive};
use crate::error::WebViewError;

verus! {

/// Pixel transport used by a Slint-owned rendered backend.
#[derive(Debug, Clone, Copy, PartialEq, Eq, Structural)]
pub enum RenderedWebViewFrameTransport {
    /// Backend sends CPU pixel buffers to the host.
    CpuPixels,
    /// Backend exposes an external GPU texture handle or identifier.
    ExternalTexture,
}

/// CPU or texture pixel format for rendered webview frames.
#[derive(Debug, Clone, Copy, PartialEq, Eq, Structural)]
pub enum RenderedWebViewPixelFormat {
    /// Four bytes per pixel in BGRA order with premultiplied alpha.
    Bgra8Premultiplied,
    /// Four bytes per pixel in RGBA order with premultiplied alpha.
    Rgba8Premultiplied,
    /// Four bytes per pixel in RGBA order without premultiplied alpha.
    Rgba8Unpremultiplied,
}

impl RenderedWebViewPixelFormat {
    /// Number of bytes of one pixel in this format.
    pub open spec fn spec_bytes_per_pixel(self) -> usize {
        4usize
    }

    /// Returns the number of bytes used by one pixel in this format.
    #[verifier::when_used_as_spec(spec_bytes_per_pixel)]
    pub fn bytes_per_pixel(self) -> (r: usize)
        ensures
            r == self.spec_bytes_per_pixel(),
    {
        match self {
            RenderedWebViewPixelFormat::Bgra8Premultiplied => 4,
            RenderedWebViewPixelFormat::Rgba8Premultiplied => 4,
            RenderedWebViewPixelFormat::Rgba8Unpremultiplied => 4,
        }
    }
}

/// Graphics API that owns an external webview texture.
#[derive(Debug, Clone, Copy, PartialEq, Eq, Structural)]
pub enum RenderedWebViewTextureApi {
    /// Direct3D 11 texture.
    D3d11,
    /// Direct3D 12 texture.
    D3d12,
    /// Metal texture.
    Metal,
    /// OpenGL texture.
    OpenGl,
    /// Vulkan image.
    Vulkan,
    /// Platform-specific texture handle not covered by a stable variant yet.
    Platform,
}

/// Dirty rectangle in physical pixels inside a rendered frame.
#[derive(Debug, Clone, Copy, PartialEq, Eq, Structural)]
pub struct RenderedWebViewDirtyRect {
    /// Left pixel coordinate.
    pub x: u32,
    /// Top pixel coordinate.
    pub y: u32,
    /// Dirty width in pixels.
    pub width: u32,
    /// Dirty height in pixels.
    pub height: u32,
}

impl RenderedWebViewDirtyRect {
    /// Creates a dirty rectangle in physical pixels.
    pub fn new(x: u32, y: u32, width: u32, height: u32) -> (r: Self)
        ensures
            r == (RenderedWebViewDirtyRect { x, y, width, height }),
    {
        RenderedWebViewDirtyRect { x, y, width, height }
    }
}

/// Monotonic identifier for rendered frames.
#[derive(Debug, Clone, Copy, PartialEq, Eq, Hash, Structural)]
pub struct RenderedWebViewFrameId(pub u64);

/// Pixel payload for a rendered webview frame.
#[derive(Debug, Clone, PartialEq, Eq)]
pub enum RenderedWebViewFramePayload {
    /// CPU pixel data owned by the frame.
    CpuPixels {
        /// Pixel bytes.
        bytes: Vec<u8>,
        /// Number of bytes between the start of two adjacent rows.
        stride: usize,
        /// Pixel format.
        format: RenderedWebViewPixelFormat,
    },
    /// External texture produced by the backend.
    ExternalTexture {
        /// Opaque backend texture identifier.
        texture_id: u64,
        /// Graphics API that owns the texture.
        api: RenderedWebViewTextureApi,
        /// Pixel format.
        format: RenderedWebViewPixelFormat,
    },
}

impl RenderedWebViewFramePayload {
    /// Pixel format of the payload.
    pub open spec fn spec_format(&self) -> RenderedWebViewPixelFormat {
        match self {
            RenderedWebViewFramePayload::CpuPixels { format, .. } => *format,
            RenderedWebViewFramePayload::ExternalTexture { format, .. } => *format,
        }
    }

    /// Transport of the payload.
    pub open spec fn spec_transport(&self) -> RenderedWebViewFrameTransport {
        match self {
            RenderedWebViewFramePayload::CpuPixels { .. } => RenderedWebViewFrameTransport::CpuPixels,
            RenderedWebViewFramePayload::ExternalTexture {
                ..
            } => RenderedWebViewFrameTransport::ExternalTexture,
        }
    }

    /// Returns the pixel format for this payload.
    pub fn format(&self) -> (r: RenderedWebViewPixelFormat)
        ensures
            r == self.spec_format(),
    {
        match self {
            RenderedWebViewFramePayload::CpuPixels { format, .. } => *format,
            RenderedWebViewFramePayload::ExternalTexture { format, .. } => *format,
        }
    }

    /// Returns the frame transport used by this payload.
    pub fn transport(&self) -> (r: RenderedWebViewFrameTransport)
        ensures
            r == self.spec_transport(),
    {
        match self {
            RenderedWebViewFramePayload::CpuPixels { .. } => RenderedWebViewFrameTransport::CpuPixels,
            RenderedWebViewFramePayload::ExternalTexture {
                ..
            } => RenderedWebViewFrameTransport::ExternalTexture,
        }
    }
}

/// Rendered webview frame produced by a Slint-owned backend.
#[derive(Debug, Clone, PartialEq, Eq)]
pub struct RenderedWebViewFrame {
    /// Frame identifier.
    pub id: RenderedWebViewFrameId,
    /// Surface width in physical pixels.
    pub width: u32,
    /// Surface height in physical pixels.
    pub height: u32,
    /// Dirty rectangles changed by this frame. Empty means the whole frame.
    pub dirty_rects: Vec<RenderedWebViewDirtyRect>,
    /// Pixel or texture payload.
    pub payload: RenderedWebViewFramePayload,
}

/// Number of bytes of a tightly packed CPU frame of the given size.
pub open spec fn tight_byte_len(width: u32, height: u32, format: RenderedWebViewPixelFormat) -> int {
    width * height * format.spec_bytes_per_pixel()
}

impl RenderedWebViewFrame {
    /// Creates a frame from owned CPU pixels, with a tightly packed row
    /// stride and no dirty rectangles (the whole frame changed).
    pub fn cpu_pixels(
        id: RenderedWebViewFrameId,
        width: u32,
        height: u32,
        format: RenderedWebViewPixelFormat,
        bytes: Vec<u8>,
    ) -> (r: Self)
        requires
            width * format.spec_bytes_per_pixel() <= usize::MAX,
        ensures
            r.id == id,
            r.width == width,
            r.height == height,
            r.dirty_rects@.len() == 0,
            r.payload == (RenderedWebViewFramePayload::CpuPixels {
                bytes,
                stride: (width * format.spec_bytes_per_pixel()) as usize,
                format,
            }),
    {
        let bpp = format.bytes_per_pixel();
        let w: usize = width as usize;
        let stride = w * bpp;
        RenderedWebViewFrame {
            id,
            width,
            height,
            dirty_rects: Vec::new(),
            payload: RenderedWebViewFramePayload::CpuPixels { bytes, stride, format },
        }
    }

    /// Returns the minimum number of bytes required for a tightly packed CPU
    /// frame of this size and format.
    pub fn minimum_cpu_byte_len(width: u32, height: u32, format: RenderedWebViewPixelFormat) -> (r:
        usize)
        requires
            tight_byte_len(width, height, format) <= usize::MAX,
        ensures
            r == tight_byte_len(width, height, format),
    {
        let w: usize = width as usize;
        let h: usize = height as usize;
        let bpp = format.bytes_per_pixel();
        assert(w * h <= w * h * 4) by (nonlinear_arith);
        w * h * bpp
    }

    /// Returns true when this frame has positive dimensions.
    pub fn has_valid_dimensions(&self) -> (r: bool)
        ensures
            r == (self.width > 0 && self.height > 0),
    {
        self.width > 0 && self.height > 0
    }
}

/// Keyboard modifier state for rendered backend input events.
#[derive(Debug, Clone, Copy, PartialEq, Eq, Structural)]
pub struct RenderedWebViewModifiers {
    /// Shift is pressed.
    pub shift: bool,
    /// Control is pressed.
    pub control: bool,
    /// Alt or Option is pressed.
    pub alt: bool,
    /// Meta, Command, or Windows key is pressed.
    pub meta: bool,
}

impl Default for RenderedWebViewModifiers {
    fn default() -> (r: Self)
        ensures
            !r.shift && !r.control && !r.alt && !r.meta,
    {
        RenderedWebViewModifiers { shift: false, control: false, alt: false, meta: false }
    }
}

/// Button or key transition state.
#[derive(Debug, Clone, Copy, PartialEq, Eq, Structural)]
pub enum RenderedWebViewInputState {
    /// Input was pressed.
    Pressed,
    /// Input was released.
    Released,
}

/// Pointer button used by rendered backend input events.
#[derive(Debug, Clone, Copy, PartialEq, Eq, Structural)]
pub enum RenderedWebViewPointerButton {
    /// Primary pointer button.
    Primary,
    /// Secondary pointer button.
    Secondary,
    /// Middle pointer button.
    Middle,
    /// Other platform button number.
    Other(u16),
}

/// Capabilities specific to a Slint-owned rendered backend.
#[derive(Debug, Clone, Copy, PartialEq, Eq, Structural)]
pub struct RenderedWebViewCapabilities {
    /// Preferred frame transport for this backend.
    pub preferred_transport: RenderedWebViewFrameTransport,
    /// Whether CPU pixel frames are supported.
    pub supports_cpu_pixels: bool,
    /// Whether external texture frames are supported.
    pub supports_external_textures: bool,
    /// Whether transparent frame output is supported.
    pub supports_transparency: bool,
    /// Whether keyboard and pointer input from Slint events can be delivered.
    pub supports_slint_input: bool,
    /// Whether input method editor text composition can be forwarded.
    pub supports_ime: bool,
}

impl RenderedWebViewCapabilities {
    /// The planned Servo capabilities.
    pub open spec fn spec_servo_texture() -> Self {
        RenderedWebViewCapabilities {
            preferred_transport: RenderedWebViewFrameTransport::ExternalTexture,
            supports_cpu_pixels: true,
            supports_external_textures: true,
            supports_transparency: true,
            supports_slint_input: true,
            supports_ime: true,
        }
    }

    /// The planned CEF capabilities.
    pub open spec fn spec_cef_offscreen() -> Self {
        RenderedWebViewCapabilities {
            preferred_transport: RenderedWebViewFrameTransport::CpuPixels,
            supports_cpu_pixels: true,
            supports_external_textures: true,
            supports_transparency: true,
            supports_slint_input: true,
            supports_ime: true,
        }
    }

    /// Planned rendered capabilities for Servo: external textures preferred,
    /// CPU pixels as a fallback, every other capability on.
    pub fn servo_texture() -> (r: Self)
        ensures
            r == (RenderedWebViewCapabilities {
                preferred_transport: RenderedWebViewFrameTransport::ExternalTexture,
                supports_cpu_pixels: true,
                supports_external_textures: true,
                supports_transparency: true,
                supports_slint_input: true,
                supports_ime: true,
            }),
    {
        RenderedWebViewCapabilities {
            preferred_transport: RenderedWebViewFrameTransport::ExternalTexture,
            supports_cpu_pixels: true,
            supports_external_textures: true,
            supports_transparency: true,
            supports_slint_input: true,
            supports_ime: true,
        }
    }

    /// Planned rendered capabilities for CEF: CPU pixels preferred, external
    /// textures supported, every other capability on.
    pub fn cef_offscreen() -> (r: Self)
        ensures
            r == (RenderedWebViewCapabilities {
                preferred_transport: RenderedWebViewFrameTransport::CpuPixels,
                supports_cpu_pixels: true,
                supports_external_textures: true,
                supports_transparency: true,
                supports_slint_input: true,
                supports_ime: true,
            }),
    {
        RenderedWebViewCapabilities {
            preferred_transport: RenderedWebViewFrameTransport::CpuPixels,
            supports_cpu_pixels: true,
            supports_external_textures: true,
            supports_transparency: true,
            supports_slint_input: true,
            supports_ime: true,
        }
    }
}

/// Integer pixel size for a rendered webview surface.
#[derive(Debug, Clone, Copy)]
pub struct RenderedWebViewSize {
    /// Surface width in physical pixels.
    pub width: u32,
    /// Surface height in physical pixels.
    pub height: u32,
    /// Device scale factor between Slint logical pixels and physical pixels
    /// (binary64 bits).
    pub scale_factor_bits: u64,
}

impl RenderedWebViewSize {
    /// Creates a rendered surface size from the bit pattern of its scale
    /// factor.
    pub fn new(width: u32, height: u32, scale_factor_bits: u64) -> (r: Self)
        ensures
            r == (RenderedWebViewSize { width, height, scale_factor_bits }),
    {
        RenderedWebViewSize { width, height, scale_factor_bits }
    }

    /// Width and height are positive and the scale factor is finite and
    /// positive.
    pub open spec fn spec_is_valid(self) -> bool {
        &&& self.width > 0
        &&& self.height > 0
        &&& float_is_finite(self.scale_factor_bits)
        &&& float_is_positive(self.scale_factor_bits)
    }

    /// Returns true when width, height, and scale are usable for rendering.
    #[verifier::when_used_as_spec(spec_is_valid)]
    pub fn is_valid(self) -> (r: bool)
        ensures
            r == self.spec_is_valid(),
    {
        self.width > 0 && self.height > 0 && bits_are_finite(self.scale_factor_bits)
            && bits_are_positive(self.scale_factor_bits)
    }
}

impl PartialEq for RenderedWebViewSize {
    fn eq(&self, other: &Self) -> (r: bool) {
        self.width == other.width && self.height == other.height && bits_float_eq(
            self.scale_factor_bits,
            other.scale_factor_bits,
        )
    }
}

impl PartialEqSpecImpl for RenderedWebViewSize {
    open spec fn obeys_eq_spec() -> bool {
        true
    }

    open spec fn eq_spec(&self, other: &RenderedWebViewSize) -> bool {
        &&& self.width == other.width
        &&& self.height == other.height
        &&& float_eq(self.scale_factor_bits, other.scale_factor_bits)
    }
}

/// Input event sent from Slint into a rendered webview backend. Logical
/// coordinates and wheel deltas are binary64 bit patterns.
#[derive(Debug, Clone)]
pub enum RenderedWebViewInputEvent {
    /// Pointer moved over the rendered surface.
    PointerMoved {
        /// Logical x coordinate within the webview area (binary64 bits).
        x_bits: u64,
        /// Logical y coordinate within the webview area (binary64 bits).
        y_bits: u64,
        /// Active modifiers.
        modifiers: RenderedWebViewModifiers,
    },
    /// Pointer button changed state.
    PointerButton {
        /// Logical x coordinate within the webview area (binary64 bits).
        x_bits: u64,
        /// Logical y coordinate within the webview area (binary64 bits).
        y_bits: u64,
        /// Button that changed state.
        button: RenderedWebViewPointerButton,
        /// Button state.
        state: RenderedWebViewInputState,
        /// Consecutive click count reported by the host.
        click_count: u8,
        /// Active modifiers.
        modifiers: RenderedWebViewModifiers,
    },
    /// Wheel or trackpad scroll input.
    Wheel {
        /// Logical x coordinate within the webview area (binary64 bits).
        x_bits: u64,
        /// Logical y coordinate within the webview area (binary64 bits).
        y_bits: u64,
        /// Horizontal wheel delta (binary64 bits).
        delta_x_bits: u64,
        /// Vertical wheel delta (binary64 bits).
        delta_y_bits: u64,
        /// Active modifiers.
        modifiers: RenderedWebViewModifiers,
    },
    /// Keyboard input.
    Keyboard {
        /// Backend-neutral key name.
        key: String,
        /// Text produced by the key, when applicable.
        text: Option<String>,
        /// Key state.
        state: RenderedWebViewInputState,
        /// Active modifiers.
        modifiers: RenderedWebViewModifiers,
    },
    /// Text committed by the platform input method editor.
    ImeCommit {
        /// Committed UTF-8 text.
        text: String,
    },
    /// Host focus changed.
    FocusChanged {
        /// True when the rendered webview owns focus.
        focused: bool,
    },
}

/// Optional texts are equal: both absent, or both present with equal
/// characters.
pub open spec fn same_optional_text(a: Option<String>, b: Option<String>) -> bool {
    match (a, b) {
        (None, None) => true,
        (Some(x), Some(y)) => x@ == y@,
        _ => false,
    }
}

/// `==` on input events: the same variant with equal fields, coordinates
/// compared as binary64 values.
pub open spec fn same_input_event(a: RenderedWebViewInputEvent, b: RenderedWebViewInputEvent) -> bool {
    match (a, b) {
        (
            RenderedWebViewInputEvent::PointerMoved { x_bits, y_bits, modifiers },
            RenderedWebViewInputEvent::PointerMoved { x_bits: x2, y_bits: y2, modifiers: m2 },
        ) => float_eq(x_bits, x2) && float_eq(y_bits, y2) && modifiers == m2,
        (
            RenderedWebViewInputEvent::PointerButton {
                x_bits,
                y_bits,
                button,
                state,
                click_count,
                modifiers,
            },
            RenderedWebViewInputEvent::PointerButton {
                x_bits: x2,
                y_bits: y2,
                button: b2,
                state: s2,
                click_count: c2,
                modifiers: m2,
            },
        ) => float_eq(x_bits, x2) && float_eq(y_bits, y2) && button == b2 && state == s2
            && click_count == c2 && modifiers == m2,
        (
            RenderedWebViewInputEvent::Wheel { x_bits, y_bits, delta_x_bits, delta_y_bits, modifiers },
            RenderedWebViewInputEvent::Wheel {
                x_bits: x2,
                y_bits: y2,
                delta_x_bits: dx2,
                delta_y_bits: dy2,
                modifiers: m2,
            },
        ) => float_eq(x_bits, x2) && float_eq(y_bits, y2) && float_eq(delta_x_bits, dx2)
            && float_eq(delta_y_bits, dy2) && modifiers == m2,
        (
            RenderedWebViewInputEvent::Keyboard { key, text, state, modifiers },
            RenderedWebViewInputEvent::Keyboard { key: k2, text: t2, state: s2, modifiers: m2 },
        ) => key@ == k2@ && same_optional_text(text, t2) && state == s2 && modifiers == m2,
        (
            RenderedWebViewInputEvent::ImeCommit { text },
            RenderedWebViewInputEvent::ImeCommit { text: t2 },
        ) => text@ == t2@,
        (
            RenderedWebViewInputEvent::FocusChanged { focused },
            RenderedWebViewInputEvent::FocusChanged { focused: f2 },
        ) => focused == f2,
        _ => false,
    }
}

fn optional_text_eq(a: &Option<String>, b: &Option<String>) -> (r: bool)
    ensures
        r == same_optional_text(*a, *b),
{
    match (a, b) {
        (None, None) => true,
        (Some(x), Some(y)) => x.eq(y),
        _ => false,
    }
}

impl PartialEq for RenderedWebViewInputEvent {
    fn eq(&self, other: &Self) -> (r: bool) {
        match (self, other) {
            (
                RenderedWebViewInputEvent::PointerMoved { x_bits, y_bits, modifiers },
                RenderedWebViewInputEvent::PointerMoved { x_bits: x2, y_bits: y2, modifiers: m2 },
            ) => bits_float_eq(*x_bits, *x2) && bits_float_eq(*y_bits, *y2) && *modifiers == *m2,
            (
                RenderedWebViewInputEvent::PointerButton {
                    x_bits,
                    y_bits,
                    button,
                    state,
                    click_count,
                    modifiers,
                },
                RenderedWebViewInputEvent::PointerButton {
                    x_bits: x2,
                    y_bits: y2,
                    button: b2,
                    state: s2,
                    click_count: c2,
                    modifiers: m2,
                },
            ) => bits_float_eq(*x_bits, *x2) && bits_float_eq(*y_bits, *y2) && *button == *b2
                && *state == *s2 && *click_count == *c2 && *modifiers == *m2,
            (
                RenderedWebViewInputEvent::Wheel {
                    x_bits,
                    y_bits,
                    delta_x_bits,
                    delta_y_bits,
                    modifiers,
                },
                RenderedWebViewInputEvent::Wheel {
                    x_bits: x2,
                    y_bits: y2,
                    delta_x_bits: dx2,
                    delta_y_bits: dy2,
                    modifiers: m2,
                },
            ) => bits_float_eq(*x_bits, *x2) && bits_float_eq(*y_bits, *y2) && bits_float_eq(
                *delta_x_bits,
                *dx2,
            ) && bits_float_eq(*delta_y_bits, *dy2) && *modifiers == *m2,
            (
                RenderedWebViewInputEvent::Keyboard { key, text, state, modifiers },
                RenderedWebViewInputEvent::Keyboard { key: k2, text: t2, state: s2, modifiers: m2 },
            ) => key.eq(k2) && optional_text_eq(text, t2) && *state == *s2 && *modifiers == *m2,
            (
                RenderedWebViewInputEvent::ImeCommit { text },
                RenderedWebViewInputEvent::ImeCommit { text: t2 },
            ) => text.eq(t2),
            (
                RenderedWebViewInputEvent::FocusChanged { focused },
                RenderedWebViewInputEvent::FocusChanged { focused: f2 },
            ) => *focused == *f2,
            _ => false,
        }
    }
}

impl PartialEqSpecImpl for RenderedWebViewInputEvent {
    open spec fn obeys_eq_spec() -> bool {
        true
    }

    open spec fn eq_spec(&self, other: &RenderedWebViewInputEvent) -> bool {
        same_input_event(*self, *other)
    }
}

/// Additional contract implemented by Slint-owned rendered backends.
///
/// Servo and CEF backends are expected to implement both
/// [`crate::backend::WebViewBackend`] for browser operations and this trait
/// for frame production and input routing.
pub trait RenderedWebViewBackend {
    /// Returns rendered-backend capabilities.
    fn rendered_capabilities() -> RenderedWebViewCapabilities where Self: Sized;

    /// Resizes the rendered surface in physical pixels.
    fn resize_render_surface(&mut self, size: RenderedWebViewSize) -> Result<(), WebViewError>;

    /// Sends a Slint-originated input event to the rendered webview.
    fn send_input_event(&mut self, event: RenderedWebViewInputEvent) -> Result<(), WebViewError>;

    /// Returns the next produced frame, if one is ready.
    fn next_frame(&mut self) -> Option<RenderedWebViewFrame>;
}

} // verus!
