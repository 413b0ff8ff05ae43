//! Errors returned by webview operations.
use vstd::prelude::*;

use crate::bounds::WebViewBounds;

verus! {

/// Error returned by webview operations.
#[derive(Debug, Clone)]
pub enum WebViewError {
    /// The selected backend was not compiled in.
    BackendDisabled,
    /// A native window handle is not available yet.
    WindowHandle(String),
    /// Bounds are invalid.
    InvalidBounds(WebViewBounds),
    /// Navigation was blocked by policy.
    NavigationBlocked(String),
    /// A native backend operation failed.
    Native(String),
    /// Platform setup failed.
    Platform(String),
    /// A rendered frame could not be produced or is malformed.
    InvalidRenderedFrame(String),
}

/// Result type used by this crate.
pub type Result<T> = core::result::Result<T, WebViewError>;

} // verus!
