//! Verified policy and controller core for embedding webviews in Slint windows.
//!
//! The webview is a native child view (or a Slint-owned rendered surface), not
//! a normal Slint scene-graph item. This crate holds the backend-independent
//! parts: option and event types, navigation policy, IPC body bounding, the
//! shared backend controller with its script request IDs, the placeholder
//! area policy that parks, hides and focuses the webview around Slint overlays,
//! the native callbacks' decisions and keyboard focus gate, and the X11
//! window-tree decisions behind Linux placement and focus.
pub mod api;
pub mod area;
pub mod backend;
pub mod bounds;
pub mod capabilities;
pub mod cef;
pub mod disabled;
pub mod error;
pub mod fixture;
pub mod ipc;
pub mod laws;
pub mod mock;
pub mod native;
pub mod regression;
pub mod render;
pub mod servo;
pub mod x11;

pub use api::{
    NavigationDecision, NavigationPolicy, ScriptRequestId, WebViewEvent, WebViewOptions,
    WebViewSource,
};
pub use area::{
    BackendWebViewAreaController, ControllerCall, HiddenWebViewStrategy, WebViewAreaPlacement,
    WebViewAreaPolicy, WebViewAreaState, WebViewAreaStatus, WebViewControllerLike,
};
pub use backend::{BackendCall, BackendWebViewController, WebViewBackend, validate_bounds};
pub use bounds::{WebViewBounds, default_park_bounds};
pub use capabilities::{CompositionTier, NativePlatform, WebViewCapabilities};
pub use error::{Result, WebViewError};
pub use ipc::truncate_ipc_body;
pub use mock::MockRenderedWebView;
pub use render::{
    RenderedWebViewBackend, RenderedWebViewCapabilities, RenderedWebViewDirtyRect,
    RenderedWebViewFrame, RenderedWebViewFrameId, RenderedWebViewFramePayload,
    RenderedWebViewFrameTransport, RenderedWebViewInputEvent, RenderedWebViewInputState,
    RenderedWebViewModifiers, RenderedWebViewPixelFormat, RenderedWebViewPointerButton,
    RenderedWebViewSize, RenderedWebViewTextureApi,
};
