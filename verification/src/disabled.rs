//! The native backend as it stands when no platform webview engine is
//! compiled in: every operation reports `WebViewError::BackendDisabled`.
use vstd::prelude::*;

use crate::api::{ScriptRequestId, WebViewEvent, WebViewOptions};
use crate::backend::{BackendCall, WebViewBackend};
use crate::bounds::WebViewBounds;
use crate::capabilities::WebViewCapabilities;
use crate::error::WebViewError;
use std::sync::mpsc::Sender;

verus! {

/// Disabled native backend used when no webview engine is available.
pub struct NativeWebView {
    received: Ghost<Seq<(BackendCall, Option<WebViewError>)>>,
}

impl NativeWebView {
    /// Attempts to attach the native backend; always fails.
    pub fn attach<W>(_window: &W, _options: WebViewOptions, _event_sender: Sender<WebViewEvent>) -> (r:
        Result<Self, WebViewError>)
        ensures
            r matches Err(WebViewError::BackendDisabled),
    {
        Err(WebViewError::BackendDisabled)
    }

    /// Returns unsupported capabilities for the disabled backend.
    pub fn capabilities() -> (r: WebViewCapabilities)
        ensures
            r.is_unsupported(),
    {
        WebViewCapabilities::unsupported()
    }
}

impl Default for NativeWebView {
    fn default() -> (r: Self)
        ensures
            r.received() == Seq::<(BackendCall, Option<WebViewError>)>::empty(),
    {
        NativeWebView { received: Ghost(Seq::empty()) }
    }
}

impl WebViewBackend for NativeWebView {
    closed spec fn received(&self) -> Seq<(BackendCall, Option<WebViewError>)> {
        self.received@
    }

    fn capabilities() -> (r: WebViewCapabilities)
        ensures
            r.is_unsupported(),
    {
        WebViewCapabilities::unsupported()
    }

    fn set_bounds(&mut self, _bounds: WebViewBounds) -> (r: Result<(), WebViewError>)
        ensures
            r matches Err(WebViewError::BackendDisabled),
    {
        proof {
            self.received@ = self.received@.push(
                (BackendCall::SetBounds(_bounds), Some(WebViewError::BackendDisabled)),
            );
        }
        Err(WebViewError::BackendDisabled)
    }

    fn set_visible(&mut self, _visible: bool) -> (r: Result<(), WebViewError>)
        ensures
            r matches Err(WebViewError::BackendDisabled),
    {
        proof {
            self.received@ = self.received@.push(
                (BackendCall::SetVisible(_visible), Some(WebViewError::BackendDisabled)),
            );
        }
        Err(WebViewError::BackendDisabled)
    }

    fn load_html(&mut self, _html: &str) -> (r: Result<(), WebViewError>)
        ensures
            r matches Err(WebViewError::BackendDisabled),
    {
        proof {
            self.received@ = self.received@.push(
                (BackendCall::LoadHtml(_html@), Some(WebViewError::BackendDisabled)),
            );
        }
        Err(WebViewError::BackendDisabled)
    }

    fn load_url(&mut self, _url: &str) -> (r: Result<(), WebViewError>)
        ensures
            r matches Err(WebViewError::BackendDisabled),
    {
        proof {
            self.received@ = self.received@.push(
                (BackendCall::LoadUrl(_url@), Some(WebViewError::BackendDisabled)),
            );
        }
        Err(WebViewError::BackendDisabled)
    }

    fn evaluate_script(&mut self, _script: &str, _request_id: ScriptRequestId) -> (r: Result<
        (),
        WebViewError,
    >)
        ensures
            r matches Err(WebViewError::BackendDisabled),
    {
        proof {
            self.received@ = self.received@.push(
                (BackendCall::EvaluateScript(_script@, _request_id), Some(WebViewError::BackendDisabled)),
            );
        }
        Err(WebViewError::BackendDisabled)
    }

    fn focus(&mut self) -> (r: Result<(), WebViewError>)
        ensures
            r matches Err(WebViewError::BackendDisabled),
    {
        proof {
            self.received@ = self.received@.push(
                (BackendCall::Focus, Some(WebViewError::BackendDisabled)),
            );
        }
        Err(WebViewError::BackendDisabled)
    }

    fn set_keyboard_focus_enabled(&mut self, _enabled: bool) -> (r: Result<(), WebViewError>)
        ensures
            r matches Err(WebViewError::BackendDisabled),
    {
        proof {
            self.received@ = self.received@.push(
                (BackendCall::SetKeyboardFocusEnabled(_enabled), Some(WebViewError::BackendDisabled)),
            );
        }
        Err(WebViewError::BackendDisabled)
    }

    fn focus_parent(&mut self) -> (r: Result<(), WebViewError>)
        ensures
            r matches Err(WebViewError::BackendDisabled),
    {
        proof {
            self.received@ = self.received@.push(
                (BackendCall::FocusParent, Some(WebViewError::BackendDisabled)),
            );
        }
        Err(WebViewError::BackendDisabled)
    }
}

/// Initializes platform-specific webview prerequisites; without an engine
/// this always fails.
pub fn initialize_platform() -> (r: Result<(), WebViewError>)
    ensures
        r matches Err(WebViewError::BackendDisabled),
{
    Err(WebViewError::BackendDisabled)
}

/// Pumps platform-specific webview events; without an engine there are none.
pub fn pump_platform_events() {
}

/// Returns the capabilities of the disabled native backend.
pub fn planned_capabilities() -> (r: WebViewCapabilities)
    ensures
        r.is_unsupported(),
{
    NativeWebView::capabilities()
}

} // verus!
