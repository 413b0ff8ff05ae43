//! The shared low-level controller over a concrete webview backend.
use vstd::prelude::*;

use crate::api::{ScriptRequestId, WebViewEvent, WebViewSource};
use crate::area::{ControllerCall, WebViewControllerLike};
use crate::bounds::WebViewBounds;
use crate::capabilities::WebViewCapabilities;
use crate::error::WebViewError;
use std::sync::mpsc::{Receiver, Sender};

verus! {

/// The receiving end of a `std::sync::mpsc` channel; what it yields is
/// decided by the sending side.
#[verifier::external_type_specification]
#[verifier::external_body]
#[verifier::reject_recursive_types(T)]
pub struct ExReceiver<T>(Receiver<T>);

/// The sending end of a `std::sync::mpsc` channel.
#[verifier::external_type_specification]
#[verifier::external_body]
#[verifier::reject_recursive_types(T)]
pub struct ExSender<T>(Sender<T>);

/// Calls `Receiver::try_recv` and keeps the value, if one was queued.
/// Whether a value is queued, and which, depends on the senders: nothing is
/// stated of the result.
#[verifier::external_body]
fn receive_queued<T>(events: &Receiver<T>) -> Option<T> {
    events.try_recv().ok()
}

/// Browser-engine operations required by the shared controller.
///
/// Backend crates implement this trait for their concrete native, Servo, or CEF
/// webview instance. The shared controller owns event draining, script request
/// IDs, source dispatch, and bounds validation so those behaviors stay uniform
/// across backends.
pub trait WebViewBackend {
    /// Every operation this backend has received, oldest first, each with
    /// the error it answered (`None` when it succeeded). Implementations in
    /// this crate define it from their own state; one written outside
    /// verified code keeps this default and is trusted to meet the method
    /// contracts below.
    closed spec fn received(&self) -> Seq<(BackendCall, Option<WebViewError>)> {
        Seq::empty()
    }

    /// Returns static capabilities for this backend.
    fn capabilities() -> WebViewCapabilities where Self: Sized;

    /// Updates backend bounds in Slint logical window coordinates.
    fn set_bounds(&mut self, bounds: WebViewBounds) -> (r: Result<(), WebViewError>)
        ensures
            final(self).received() == old(self).received().push(
                (BackendCall::SetBounds(bounds), error_of(r)),
            ),
    ;

    /// Shows or hides the backend surface.
    fn set_visible(&mut self, visible: bool) -> (r: Result<(), WebViewError>)
        ensures
            final(self).received() == old(self).received().push(
                (BackendCall::SetVisible(visible), error_of(r)),
            ),
    ;

    /// Loads an HTML string.
    fn load_html(&mut self, html: &str) -> (r: Result<(), WebViewError>)
        ensures
            final(self).received() == old(self).received().push(
                (BackendCall::LoadHtml(html@), error_of(r)),
            ),
    ;

    /// Loads a URL.
    fn load_url(&mut self, url: &str) -> (r: Result<(), WebViewError>)
        ensures
            final(self).received() == old(self).received().push(
                (BackendCall::LoadUrl(url@), error_of(r)),
            ),
    ;

    /// Evaluates JavaScript and reports the result through the shared event
    /// stream using the provided request ID.
    fn evaluate_script(&mut self, script: &str, request_id: ScriptRequestId) -> (r: Result<
        (),
        WebViewError,
    >)
        ensures
            final(self).received() == old(self).received().push(
                (BackendCall::EvaluateScript(script@, request_id), error_of(r)),
            ),
    ;

    /// Requests keyboard focus for the backend.
    fn focus(&mut self) -> (r: Result<(), WebViewError>)
        ensures
            final(self).received() == old(self).received().push((BackendCall::Focus, error_of(r))),
    ;

    /// Enables or disables whether the backend may take keyboard focus.
    fn set_keyboard_focus_enabled(&mut self, enabled: bool) -> (r: Result<(), WebViewError>)
        ensures
            final(self).received() == old(self).received().push(
                (BackendCall::SetKeyboardFocusEnabled(enabled), error_of(r)),
            ),
    ;

    /// Returns focus to the host shell where supported.
    fn focus_parent(&mut self) -> (r: Result<(), WebViewError>)
        ensures
            final(self).received() == old(self).received().push(
                (BackendCall::FocusParent, error_of(r)),
            ),
    ;
}

/// One operation a backend received.
pub enum BackendCall {
    /// `set_bounds` with these bounds.
    SetBounds(WebViewBounds),
    /// `set_visible` with this flag.
    SetVisible(bool),
    /// `load_html` with this document.
    LoadHtml(Seq<char>),
    /// `load_url` with this URL.
    LoadUrl(Seq<char>),
    /// `evaluate_script` with this script and request ID.
    EvaluateScript(Seq<char>, ScriptRequestId),
    /// `focus`.
    Focus,
    /// `set_keyboard_focus_enabled` with this flag.
    SetKeyboardFocusEnabled(bool),
    /// `focus_parent`.
    FocusParent,
}

/// The backend call that loading `source` makes: an empty document for
/// `Blank`, the URL for `Url`, the markup for `Html`.
pub open spec fn source_call(source: WebViewSource) -> BackendCall {
    match source {
        WebViewSource::Blank => BackendCall::LoadHtml(""@),
        WebViewSource::Url(url) => BackendCall::LoadUrl(url@),
        WebViewSource::Html(html) => BackendCall::LoadHtml(html@),
    }
}

/// The error a call's result carries: `None` when it succeeded.
pub open spec fn error_of<T>(result: Result<T, WebViewError>) -> Option<WebViewError> {
    match result {
        Ok(_) => None,
        Err(error) => Some(error),
    }
}

/// The request ID allocated after `id`: the next integer, saturating at
/// `u64::MAX`.
pub open spec fn next_request_id_after(id: u64) -> u64 {
    if id == u64::MAX {
        u64::MAX
    } else {
        (id + 1) as u64
    }
}

/// Validation result for bounds handed to a backend.
pub open spec fn validate_bounds_spec(bounds: WebViewBounds) -> Result<(), WebViewError> {
    if bounds.spec_is_valid() {
        Ok(())
    } else {
        Err(WebViewError::InvalidBounds(bounds))
    }
}

/// Validates webview bounds before they are handed to backend implementations.
pub fn validate_bounds(bounds: WebViewBounds) -> (r: Result<(), WebViewError>)
    ensures
        r == validate_bounds_spec(bounds),
{
    if bounds.is_valid() {
        Ok(())
    } else {
        Err(WebViewError::InvalidBounds(bounds))
    }
}

/// Shared controller for a concrete webview backend.
///
/// This controller intentionally has no Slint or platform-window dependency.
/// Backend crates are responsible for creation/attachment, then hand the
/// backend instance and event receiver to this type.
pub struct BackendWebViewController<B> {
    backend: B,
    events: Receiver<WebViewEvent>,
    next_script_request_id: u64,
    received: Ghost<Seq<(ControllerCall, Option<WebViewError>)>>,
}

impl<B: WebViewBackend> BackendWebViewController<B> {
    /// The wrapped backend.
    pub closed spec fn spec_backend(&self) -> B {
        self.backend
    }

    /// The operations the wrapped backend has received, as it states them.
    pub open spec fn backend_calls(&self) -> Seq<(BackendCall, Option<WebViewError>)> {
        self.spec_backend().received()
    }

    /// Every operation this controller has received, oldest first, each with
    /// the error it answered (`None` when it succeeded).
    pub closed spec fn controller_received(&self) -> Seq<(ControllerCall, Option<WebViewError>)> {
        self.received@
    }

    /// The request ID the next script evaluation will receive.
    pub closed spec fn next_request_id(&self) -> u64 {
        self.next_script_request_id
    }

    /// Well-formedness: request IDs are never 0.
    pub open spec fn wf(&self) -> bool {
        self.next_request_id() >= 1
    }

    /// Creates a controller from a backend instance and its event receiver.
    pub fn new(backend: B, events: Receiver<WebViewEvent>) -> (r: Self)
        ensures
            r.wf(),
            r.spec_backend() == backend,
            r.controller_received() == Seq::<(ControllerCall, Option<WebViewError>)>::empty(),
            r.next_request_id() == 1,
    {
        BackendWebViewController {
            backend,
            events,
            next_script_request_id: 1,
            received: Ghost(Seq::empty()),
        }
    }

    /// Returns the capabilities of the selected backend.
    pub fn capabilities() -> WebViewCapabilities {
        B::capabilities()
    }

    /// Returns the underlying backend instance.
    pub fn backend(&self) -> (r: &B)
        ensures
            *r == self.spec_backend(),
    {
        &self.backend
    }

    /// Attempts to receive one pending event.
    pub fn try_recv_event(&self) -> Option<WebViewEvent> {
        receive_queued(&self.events)
    }

    /// Drains all events currently queued for this controller, in the order
    /// they were sent. (A vector of `usize::MAX` events cannot exist, so the
    /// bound on the loop is never what ends it.)
    pub fn drain_events(&self) -> Vec<WebViewEvent> {
        let mut events: Vec<WebViewEvent> = Vec::new();
        loop
            invariant
                events@.len() <= usize::MAX,
            decreases usize::MAX - events@.len(),
        {
            if events.len() == usize::MAX {
                return events;
            }
            match self.try_recv_event() {
                Some(event) => events.push(event),
                None => return events,
            }
        }
    }

    /// Updates webview bounds in Slint logical window coordinates. Invalid
    /// bounds are refused with `InvalidBounds` before the backend is called;
    /// valid bounds go to the backend once, and its answer is returned.
    pub fn set_bounds(&mut self, bounds: WebViewBounds) -> (r: Result<(), WebViewError>)
        ensures
            final(self).next_request_id() == old(self).next_request_id(),
            final(self).controller_received() == old(self).controller_received().push(
                (ControllerCall::SetBounds(bounds), error_of(r)),
            ),
            !bounds.spec_is_valid() ==> r == validate_bounds_spec(bounds)
                && final(self).spec_backend() == old(self).spec_backend(),
            bounds.spec_is_valid() ==> final(self).backend_calls() == old(
                self,
            ).backend_calls().push((BackendCall::SetBounds(bounds), error_of(r))),
    {
        let result = match validate_bounds(bounds) {
            Ok(()) => self.backend.set_bounds(bounds),
            Err(error) => Err(error),
        };
        proof {
            self.received@ = self.received@.push((ControllerCall::SetBounds(bounds), error_of(result)));
        }
        result
    }

    /// Shows or hides the backend surface; the backend's answer is returned.
    pub fn set_visible(&mut self, visible: bool) -> (r: Result<(), WebViewError>)
        ensures
            final(self).next_request_id() == old(self).next_request_id(),
            final(self).controller_received() == old(self).controller_received().push(
                (ControllerCall::SetVisible(visible), error_of(r)),
            ),
            final(self).backend_calls() == old(self).backend_calls().push(
                (BackendCall::SetVisible(visible), error_of(r)),
            ),
    {
        let result = self.backend.set_visible(visible);
        proof {
            self.received@ = self.received@.push((ControllerCall::SetVisible(visible), error_of(result)));
        }
        result
    }

    /// Loads a source into the webview: an empty document for `Blank`, the
    /// URL for `Url`, the markup for `Html`; the backend's answer is returned.
    pub fn load_source(&mut self, source: WebViewSource) -> (r: Result<(), WebViewError>)
        ensures
            final(self).next_request_id() == old(self).next_request_id(),
            final(self).controller_received() == old(self).controller_received().push(
                (ControllerCall::LoadSource(source), error_of(r)),
            ),
            final(self).backend_calls() == old(self).backend_calls().push(
                (source_call(source), error_of(r)),
            ),
    {
        let ghost call = ControllerCall::LoadSource(source);
        let result = match source {
            WebViewSource::Blank => self.backend.load_html(""),
            WebViewSource::Url(url) => self.backend.load_url(url.as_str()),
            WebViewSource::Html(html) => self.backend.load_html(html.as_str()),
        };
        proof {
            self.received@ = self.received@.push((call, error_of(result)));
        }
        result
    }

    /// Loads an HTML string into the webview; the backend's answer is
    /// returned.
    pub fn load_html(&mut self, html: &str) -> (r: Result<(), WebViewError>)
        ensures
            final(self).next_request_id() == old(self).next_request_id(),
            final(self).controller_received() == old(self).controller_received().push(
                (ControllerCall::LoadHtml(html@), error_of(r)),
            ),
            final(self).backend_calls() == old(self).backend_calls().push(
                (BackendCall::LoadHtml(html@), error_of(r)),
            ),
    {
        let result = self.backend.load_html(html);
        proof {
            self.received@ = self.received@.push((ControllerCall::LoadHtml(html@), error_of(result)));
        }
        result
    }

    /// Loads a URL into the webview; the backend's answer is returned.
    pub fn load_url(&mut self, url: &str) -> (r: Result<(), WebViewError>)
        ensures
            final(self).next_request_id() == old(self).next_request_id(),
            final(self).controller_received() == old(self).controller_received().push(
                (ControllerCall::LoadUrl(url@), error_of(r)),
            ),
            final(self).backend_calls() == old(self).backend_calls().push(
                (BackendCall::LoadUrl(url@), error_of(r)),
            ),
    {
        let result = self.backend.load_url(url);
        proof {
            self.received@ = self.received@.push((ControllerCall::LoadUrl(url@), error_of(result)));
        }
        result
    }

    /// Evaluates JavaScript and returns the request ID that will appear on the
    /// matching `WebViewEvent::ScriptResult` event: the backend is handed
    /// that same ID, and its error, if any, is returned instead. The ID is
    /// allocated before the backend is called, so a failed evaluation still
    /// consumes it.
    pub fn evaluate_script(&mut self, script: &str) -> (r: Result<ScriptRequestId, WebViewError>)
        ensures
            final(self).wf(),
            final(self).next_request_id() == next_request_id_after(old(self).next_request_id()),
            final(self).controller_received() == old(self).controller_received().push(
                (ControllerCall::EvaluateScript(script@), error_of(r)),
            ),
            final(self).backend_calls() == old(self).backend_calls().push(
                (
                    BackendCall::EvaluateScript(
                        script@,
                        ScriptRequestId(old(self).next_request_id()),
                    ),
                    error_of(r),
                ),
            ),
            r is Ok ==> r == Ok::<ScriptRequestId, WebViewError>(
                ScriptRequestId(old(self).next_request_id()),
            ),
    {
        let request_id = self.allocate_script_request_id();
        let result = match self.backend.evaluate_script(script, request_id) {
            Ok(()) => Ok(request_id),
            Err(error) => Err(error),
        };
        proof {
            self.received@ = self.received@.push((ControllerCall::EvaluateScript(script@), error_of(result)));
        }
        result
    }

    /// Requests keyboard focus for the backend; its answer is returned.
    pub fn focus(&mut self) -> (r: Result<(), WebViewError>)
        ensures
            final(self).next_request_id() == old(self).next_request_id(),
            final(self).controller_received() == old(self).controller_received().push(
                (ControllerCall::Focus, error_of(r)),
            ),
            final(self).backend_calls() == old(self).backend_calls().push(
                (BackendCall::Focus, error_of(r)),
            ),
    {
        let result = self.backend.focus();
        proof {
            self.received@ = self.received@.push((ControllerCall::Focus, error_of(result)));
        }
        result
    }

    /// Enables or disables whether the backend may take keyboard focus; the
    /// backend's answer is returned.
    pub fn set_keyboard_focus_enabled(&mut self, enabled: bool) -> (r: Result<(), WebViewError>)
        ensures
            final(self).next_request_id() == old(self).next_request_id(),
            final(self).controller_received() == old(self).controller_received().push(
                (ControllerCall::SetKeyboardFocusEnabled(enabled), error_of(r)),
            ),
            final(self).backend_calls() == old(self).backend_calls().push(
                (BackendCall::SetKeyboardFocusEnabled(enabled), error_of(r)),
            ),
    {
        let result = self.backend.set_keyboard_focus_enabled(enabled);
        proof {
            self.received@ = self.received@.push(
                (ControllerCall::SetKeyboardFocusEnabled(enabled), error_of(result)),
            );
        }
        result
    }

    /// Returns focus to the host shell where supported; the backend's answer
    /// is returned.
    pub fn focus_parent(&mut self) -> (r: Result<(), WebViewError>)
        ensures
            final(self).next_request_id() == old(self).next_request_id(),
            final(self).controller_received() == old(self).controller_received().push(
                (ControllerCall::FocusParent, error_of(r)),
            ),
            final(self).backend_calls() == old(self).backend_calls().push(
                (BackendCall::FocusParent, error_of(r)),
            ),
    {
        let result = self.backend.focus_parent();
        proof {
            self.received@ = self.received@.push((ControllerCall::FocusParent, error_of(result)));
        }
        result
    }

    fn allocate_script_request_id(&mut self) -> (r: ScriptRequestId)
        ensures
            final(self).wf(),
            r == ScriptRequestId(old(self).next_request_id()),
            final(self).next_request_id() == next_request_id_after(old(self).next_request_id()),
            final(self).spec_backend() == old(self).spec_backend(),
            final(self).controller_received() == old(self).controller_received(),
    {
        let id = self.next_script_request_id;
        let next = id.saturating_add(1);
        self.next_script_request_id = if next == 0 {
            1
        } else {
            next
        };
        ScriptRequestId(id)
    }
}

impl<B: WebViewBackend> WebViewControllerLike for BackendWebViewController<B> {
    open spec fn received(&self) -> Seq<(ControllerCall, Option<WebViewError>)> {
        self.controller_received()
    }

    fn capabilities() -> WebViewCapabilities {
        BackendWebViewController::<B>::capabilities()
    }

    fn drain_events(&mut self) -> (r: Vec<WebViewEvent>)
        ensures
            final(self).next_request_id() == old(self).next_request_id(),
            final(self).spec_backend() == old(self).spec_backend(),
    {
        let events = BackendWebViewController::drain_events(self);
        proof {
            self.received@ = self.received@.push((ControllerCall::DrainEvents(events@), None));
        }
        events
    }

    fn set_bounds(&mut self, bounds: WebViewBounds) -> (r: Result<(), WebViewError>)
        ensures
            final(self).next_request_id() == old(self).next_request_id(),
            !bounds.spec_is_valid() ==> r == validate_bounds_spec(bounds)
                && final(self).spec_backend() == old(self).spec_backend(),
            bounds.spec_is_valid() ==> final(self).backend_calls() == old(
                self,
            ).backend_calls().push((BackendCall::SetBounds(bounds), error_of(r))),
    {
        BackendWebViewController::set_bounds(self, bounds)
    }

    fn set_visible(&mut self, visible: bool) -> (r: Result<(), WebViewError>)
        ensures
            final(self).next_request_id() == old(self).next_request_id(),
            final(self).backend_calls() == old(self).backend_calls().push((BackendCall::SetVisible(visible), error_of(r))),
    {
        BackendWebViewController::set_visible(self, visible)
    }

    fn load_source(&mut self, source: WebViewSource) -> (r: Result<(), WebViewError>)
        ensures
            final(self).next_request_id() == old(self).next_request_id(),
            final(self).backend_calls() == old(self).backend_calls().push((source_call(source), error_of(r))),
    {
        BackendWebViewController::load_source(self, source)
    }

    fn load_html(&mut self, html: &str) -> (r: Result<(), WebViewError>)
        ensures
            final(self).next_request_id() == old(self).next_request_id(),
            final(self).backend_calls() == old(self).backend_calls().push((BackendCall::LoadHtml(html@), error_of(r))),
    {
        BackendWebViewController::load_html(self, html)
    }

    fn load_url(&mut self, url: &str) -> (r: Result<(), WebViewError>)
        ensures
            final(self).next_request_id() == old(self).next_request_id(),
            final(self).backend_calls() == old(self).backend_calls().push((BackendCall::LoadUrl(url@), error_of(r))),
    {
        BackendWebViewController::load_url(self, url)
    }

    fn evaluate_script(&mut self, script: &str) -> (r: Result<ScriptRequestId, WebViewError>)
        ensures
            final(self).wf(),
            final(self).next_request_id() == next_request_id_after(old(self).next_request_id()),
            final(self).backend_calls() == old(self).backend_calls().push(
                (
                    BackendCall::EvaluateScript(
                        script@,
                        ScriptRequestId(old(self).next_request_id()),
                    ),
                    error_of(r),
                ),
            ),
            r is Ok ==> r == Ok::<ScriptRequestId, WebViewError>(
                ScriptRequestId(old(self).next_request_id()),
            ),
    {
        BackendWebViewController::evaluate_script(self, script)
    }

    fn focus(&mut self) -> (r: Result<(), WebViewError>)
        ensures
            final(self).next_request_id() == old(self).next_request_id(),
            final(self).backend_calls() == old(self).backend_calls().push((BackendCall::Focus, error_of(r))),
    {
        BackendWebViewController::focus(self)
    }

    fn set_keyboard_focus_enabled(&mut self, enabled: bool) -> (r: Result<(), WebViewError>)
        ensures
            final(self).next_request_id() == old(self).next_request_id(),
            final(self).backend_calls() == old(self).backend_calls().push((BackendCall::SetKeyboardFocusEnabled(enabled), error_of(r))),
    {
        BackendWebViewController::set_keyboard_focus_enabled(self, enabled)
    }

    fn focus_parent(&mut self) -> (r: Result<(), WebViewError>)
        ensures
            final(self).next_request_id() == old(self).next_request_id(),
            final(self).backend_calls() == old(self).backend_calls().push((BackendCall::FocusParent, error_of(r))),
    {
        BackendWebViewController::focus_parent(self)
    }
}

} // verus!
