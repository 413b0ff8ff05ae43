//! Decisions of the native child webview's engine callbacks: the event each
//! callback reports and the answer it gives the engine, and the keyboard
//! focus gate that keeps a webview without focus permission from taking
//! typing.
use vstd::prelude::*;
use vstd::utf8::encode_utf8;

use crate::api::{NavigationDecision, NavigationPolicy, WebViewEvent, decide_spec};
use crate::ipc::{last_boundary_at_most, truncate_ipc_body};

verus! {

/// `event` reports an IPC message from `uri` whose body is `body` bounded to
/// `limit` UTF-8 bytes at a character boundary, flagged when it was cut.
pub open spec fn is_bounded_ipc_event(
    event: WebViewEvent,
    uri: Seq<char>,
    body: Seq<char>,
    limit: usize,
) -> bool {
    match event {
        WebViewEvent::IpcMessage { uri: u, body: b, truncated } => {
            let bytes = encode_utf8(body);
            &&& u@ == uri
            &&& truncated == (bytes.len() > limit)
            &&& if bytes.len() <= limit {
                b@ == body
            } else {
                encode_utf8(b@) == bytes.take(last_boundary_at_most(bytes, limit as int))
            }
        },
        _ => false,
    }
}

/// The event reported for an IPC message that web content at `uri` sent.
pub fn ipc_message_event(uri: String, body: &str, limit: usize) -> (r: WebViewEvent)
    ensures
        is_bounded_ipc_event(r, uri@, body@, limit),
{
    let (body, truncated) = truncate_ipc_body(body, limit);
    WebViewEvent::IpcMessage { uri, body, truncated }
}

/// The engine asks whether it may navigate to `url`: the policy's decision
/// is reported, and only `Allow` lets the navigation go on.
pub fn navigation_request(policy: &NavigationPolicy, url: String) -> (r: (WebViewEvent, bool))
    ensures
        r.0 == (WebViewEvent::NavigationRequested { url, decision: decide_spec(*policy, url@) }),
        r.1 == (decide_spec(*policy, url@) is Allow),
{
    let decision = policy.decide(url.as_str());
    let allow = decision == NavigationDecision::Allow;
    (WebViewEvent::NavigationRequested { url, decision }, allow)
}

/// The engine asks whether a download of `url` to `suggested_path` may
/// start: it may when downloads are enabled, and the request is reported
/// with that answer.
pub fn download_request(url: String, suggested_path: String, downloads_enabled: bool) -> (r: (
    WebViewEvent,
    bool,
))
    ensures
        r.0 == (WebViewEvent::DownloadRequested {
            url,
            suggested_path: Some(suggested_path),
            allowed: downloads_enabled,
        }),
        r.1 == downloads_enabled,
{
    (
        WebViewEvent::DownloadRequested {
            url,
            suggested_path: Some(suggested_path),
            allowed: downloads_enabled,
        },
        downloads_enabled,
    )
}

/// The engine asks whether web content may open a new window for `url`: it
/// may when popups are allowed, and the request is reported with that
/// answer.
pub fn new_window_request(url: String, allow_popups: bool) -> (r: (WebViewEvent, bool))
    ensures
        r.0 == (WebViewEvent::NewWindowRequested { url, allowed: allow_popups }),
        r.1 == allow_popups,
{
    (WebViewEvent::NewWindowRequested { url, allowed: allow_popups }, allow_popups)
}

/// A widget signal the keyboard focus gate reacts to.
#[derive(Debug, Clone, Copy, PartialEq, Eq, Structural)]
pub enum FocusGateSignal {
    /// The pointer entered the webview widget.
    PointerEntered,
    /// The webview widget received keyboard focus.
    FocusIn,
    /// The webview widget lost keyboard focus.
    FocusOut,
    /// A key was pressed while the webview widget had focus.
    KeyPress,
    /// A pointer button was pressed on the webview widget.
    ButtonPress,
}

/// What the focus gate does for one signal.
#[derive(Debug, Clone, PartialEq)]
pub struct FocusGateAction {
    /// Whether the webview may take keyboard focus after the signal.
    pub keyboard_focus_enabled: bool,
    /// Make the widget unfocusable and hand keyboard focus back to the host.
    pub deny_focus: bool,
    /// Make the widget focusable again.
    pub grant_focus: bool,
    /// The event reported to the controller, if any.
    pub event: Option<WebViewEvent>,
    /// Keep the signal from reaching the web content.
    pub stop_propagation: bool,
}

/// What the focus gate does for `signal` while focus permission is
/// `enabled`: a button press grants focus and requests it; focus leaving
/// withdraws the permission; without permission, pointer entry, focus and
/// typing are denied and reported as lost focus, and the key press is
/// swallowed.
pub open spec fn focus_gate_spec(enabled: bool, signal: FocusGateSignal) -> FocusGateAction {
    let refused = FocusGateAction {
        keyboard_focus_enabled: enabled,
        deny_focus: true,
        grant_focus: false,
        event: Some(WebViewEvent::FocusChanged { focused: false }),
        stop_propagation: false,
    };
    let quiet = FocusGateAction {
        keyboard_focus_enabled: enabled,
        deny_focus: false,
        grant_focus: false,
        event: None,
        stop_propagation: false,
    };
    match signal {
        FocusGateSignal::PointerEntered => if enabled {
            quiet
        } else {
            refused
        },
        FocusGateSignal::FocusIn => if enabled {
            FocusGateAction { event: Some(WebViewEvent::FocusChanged { focused: true }), ..quiet }
        } else {
            refused
        },
        FocusGateSignal::FocusOut => FocusGateAction {
            keyboard_focus_enabled: false,
            event: Some(WebViewEvent::FocusChanged { focused: false }),
            ..quiet
        },
        FocusGateSignal::KeyPress => if enabled {
            quiet
        } else {
            FocusGateAction { stop_propagation: true, ..refused }
        },
        FocusGateSignal::ButtonPress => FocusGateAction {
            keyboard_focus_enabled: true,
            grant_focus: true,
            event: Some(WebViewEvent::FocusRequested),
            ..quiet
        },
    }
}

/// Returns what the focus gate does for `signal` while focus permission is
/// `enabled`.
pub fn focus_gate_step(enabled: bool, signal: FocusGateSignal) -> (r: FocusGateAction)
    ensures
        r == focus_gate_spec(enabled, signal),
{
    match signal {
        FocusGateSignal::PointerEntered => {
            if enabled {
                FocusGateAction {
                    keyboard_focus_enabled: enabled,
                    deny_focus: false,
                    grant_focus: false,
                    event: None,
                    stop_propagation: false,
                }
            } else {
                refuse_focus(enabled, false)
            }
        },
        FocusGateSignal::FocusIn => {
            if enabled {
                FocusGateAction {
                    keyboard_focus_enabled: enabled,
                    deny_focus: false,
                    grant_focus: false,
                    event: Some(WebViewEvent::FocusChanged { focused: true }),
                    stop_propagation: false,
                }
            } else {
                refuse_focus(enabled, false)
            }
        },
        FocusGateSignal::FocusOut => FocusGateAction {
            keyboard_focus_enabled: false,
            deny_focus: false,
            grant_focus: false,
            event: Some(WebViewEvent::FocusChanged { focused: false }),
            stop_propagation: false,
        },
        FocusGateSignal::KeyPress => {
            if enabled {
                FocusGateAction {
                    keyboard_focus_enabled: enabled,
                    deny_focus: false,
                    grant_focus: false,
                    event: None,
                    stop_propagation: false,
                }
            } else {
                refuse_focus(enabled, true)
            }
        },
        FocusGateSignal::ButtonPress => FocusGateAction {
            keyboard_focus_enabled: true,
            deny_focus: false,
            grant_focus: true,
            event: Some(WebViewEvent::FocusRequested),
            stop_propagation: false,
        },
    }
}

fn refuse_focus(enabled: bool, stop_propagation: bool) -> (r: FocusGateAction)
    ensures
        r == (FocusGateAction {
            keyboard_focus_enabled: enabled,
            deny_focus: true,
            grant_focus: false,
            event: Some(WebViewEvent::FocusChanged { focused: false }),
            stop_propagation,
        }),
{
    FocusGateAction {
        keyboard_focus_enabled: enabled,
        deny_focus: true,
        grant_focus: false,
        event: Some(WebViewEvent::FocusChanged { focused: false }),
        stop_propagation,
    }
}

} // verus!
