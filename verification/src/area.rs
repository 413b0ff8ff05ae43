//! Slint placeholder-area policy: parking, overlay suppression, and keyboard
//! focus ownership for a webview drawn outside the Slint scene graph.
use vstd::prelude::*;

use crate::api::{ScriptRequestId, WebViewEvent, WebViewOptions, WebViewSource};
use crate::backend::error_of;
use crate::bounds::{WebViewBounds, default_bounds, default_park_bounds, park_bounds_default};
use crate::capabilities::WebViewCapabilities;
use crate::error::WebViewError;

verus! {

/// Strategy used when the Slint area should not expose the webview.
#[derive(Debug, Clone, Copy, PartialEq, Eq, Structural)]
pub enum HiddenWebViewStrategy {
    /// Keep the last real bounds but call the native visibility API.
    Hide,
    /// Move the webview surface offscreen while leaving native visibility on.
    Park,
    /// Move the webview surface offscreen and call the native visibility API.
    HideAndPark,
}

impl HiddenWebViewStrategy {
    /// The strategy moves the webview offscreen.
    pub open spec fn spec_parks(self) -> bool {
        self is Park || self is HideAndPark
    }

    /// The native visibility flag kept while the area is hidden.
    pub open spec fn spec_native_visible_when_hidden(self) -> bool {
        self is Park
    }

    /// Returns true when the hidden strategy moves the webview offscreen.
    #[verifier::when_used_as_spec(spec_parks)]
    pub fn parks(self) -> (r: bool)
        ensures
            r == self.spec_parks(),
    {
        match self {
            HiddenWebViewStrategy::Hide => false,
            HiddenWebViewStrategy::Park => true,
            HiddenWebViewStrategy::HideAndPark => true,
        }
    }

    /// Returns the native visibility flag to use while the area is hidden.
    #[verifier::when_used_as_spec(spec_native_visible_when_hidden)]
    pub fn native_visible_when_hidden(self) -> (r: bool)
        ensures
            r == self.spec_native_visible_when_hidden(),
    {
        match self {
            HiddenWebViewStrategy::Park => true,
            HiddenWebViewStrategy::Hide => false,
            HiddenWebViewStrategy::HideAndPark => false,
        }
    }
}

/// Policy for mapping a Slint placeholder area to backend operations.
#[derive(Debug, Clone, Copy, PartialEq)]
pub struct WebViewAreaPolicy {
    /// Hides the webview whenever a Slint overlay, modal, menu, or tooltip
    /// needs to draw above the area.
    pub hide_when_overlay_active: bool,
    /// Hides the webview until the area reports finite positive bounds.
    pub hide_until_bounds_valid: bool,
    /// Operation used when the area is hidden.
    pub hidden_strategy: HiddenWebViewStrategy,
    /// Offscreen bounds used by parking strategies.
    pub park_bounds: WebViewBounds,
    /// Releases webview keyboard ownership when the webview is hidden.
    pub release_focus_when_hidden: bool,
    /// Releases webview keyboard ownership when a Slint input owns shell focus.
    pub release_focus_when_shell_focused: bool,
}

/// Slint-side state for a webview placeholder area.
#[derive(Debug, Clone, Copy, PartialEq)]
pub struct WebViewAreaState {
    /// Placeholder bounds in Slint logical window coordinates.
    pub bounds: WebViewBounds,
    /// Whether the application wants the webview exposed.
    pub requested_visible: bool,
    /// Whether Slint UI above the webview needs z-order priority.
    pub overlay_active: bool,
    /// Whether a Slint/native shell input currently owns keyboard typing.
    pub shell_focus_active: bool,
}

/// Resolved backend placement for a webview area.
#[derive(Debug, Clone, Copy, PartialEq)]
pub struct WebViewAreaPlacement {
    /// Bounds that should be applied to the backend.
    pub bounds: WebViewBounds,
    /// Native visibility flag that should be applied to child-view backends.
    pub native_visible: bool,
    /// True when the webview should be visible inside the Slint area.
    pub effective_visible: bool,
    /// True when the webview should be moved offscreen.
    pub parked: bool,
    /// True when an active Slint overlay suppressed the webview.
    pub blocked_by_overlay: bool,
    /// True when invalid area bounds suppressed the webview.
    pub blocked_by_invalid_bounds: bool,
}

/// Current status reported by a webview area controller.
#[derive(Debug, Clone, Copy, PartialEq)]
pub struct WebViewAreaStatus {
    /// Last Slint-side area state passed to the controller.
    pub state: WebViewAreaState,
    /// Last resolved backend placement.
    pub placement: WebViewAreaPlacement,
    /// True when the backend may accept keyboard focus.
    pub keyboard_focus_enabled: bool,
}

impl Default for WebViewAreaPolicy {
    fn default() -> (r: Self)
        ensures
            r == (WebViewAreaPolicy {
                hide_when_overlay_active: true,
                hide_until_bounds_valid: true,
                hidden_strategy: HiddenWebViewStrategy::Park,
                park_bounds: park_bounds_default(),
                release_focus_when_hidden: true,
                release_focus_when_shell_focused: true,
            }),
    {
        WebViewAreaPolicy {
            hide_when_overlay_active: true,
            hide_until_bounds_valid: true,
            hidden_strategy: HiddenWebViewStrategy::Park,
            park_bounds: default_park_bounds(),
            release_focus_when_hidden: true,
            release_focus_when_shell_focused: true,
        }
    }
}

impl WebViewAreaPolicy {
    /// Bounds used while parked: the policy's parking bounds when they are
    /// valid, the default parking bounds otherwise.
    pub open spec fn fallback_bounds(self) -> WebViewBounds {
        if self.park_bounds.spec_is_valid() {
            self.park_bounds
        } else {
            park_bounds_default()
        }
    }

    /// The placement this policy assigns to `state`.
    pub open spec fn spec_resolve(self, state: WebViewAreaState) -> WebViewAreaPlacement {
        let bounds_valid = state.bounds.spec_is_valid();
        let blocked_by_overlay = self.hide_when_overlay_active && state.overlay_active;
        let blocked_by_invalid_bounds = self.hide_until_bounds_valid && !bounds_valid;
        let effective_visible = state.requested_visible && !blocked_by_overlay
            && !blocked_by_invalid_bounds;
        let parked = !effective_visible && self.hidden_strategy.spec_parks();
        let native_visible = effective_visible
            || self.hidden_strategy.spec_native_visible_when_hidden();
        WebViewAreaPlacement {
            bounds: if parked || !bounds_valid {
                self.fallback_bounds()
            } else {
                state.bounds
            },
            native_visible,
            effective_visible,
            parked,
            blocked_by_overlay,
            blocked_by_invalid_bounds,
        }
    }

    /// Returns a policy with a different hidden webview strategy.
    pub fn with_hidden_strategy(self, strategy: HiddenWebViewStrategy) -> (r: Self)
        ensures
            r == (WebViewAreaPolicy { hidden_strategy: strategy, ..self }),
    {
        WebViewAreaPolicy { hidden_strategy: strategy, ..self }
    }

    /// Returns a policy with different parking bounds.
    pub fn with_park_bounds(self, bounds: WebViewBounds) -> (r: Self)
        ensures
            r == (WebViewAreaPolicy { park_bounds: bounds, ..self }),
    {
        WebViewAreaPolicy { park_bounds: bounds, ..self }
    }

    /// Returns a policy with overlay-driven hiding enabled or disabled.
    pub fn with_hide_when_overlay_active(self, enabled: bool) -> (r: Self)
        ensures
            r == (WebViewAreaPolicy { hide_when_overlay_active: enabled, ..self }),
    {
        WebViewAreaPolicy { hide_when_overlay_active: enabled, ..self }
    }

    /// Returns a policy with invalid-bounds hiding enabled or disabled.
    pub fn with_hide_until_bounds_valid(self, enabled: bool) -> (r: Self)
        ensures
            r == (WebViewAreaPolicy { hide_until_bounds_valid: enabled, ..self }),
    {
        WebViewAreaPolicy { hide_until_bounds_valid: enabled, ..self }
    }

    /// Resolves Slint-side state into backend placement.
    #[verifier::when_used_as_spec(spec_resolve)]
    pub fn resolve(self, state: WebViewAreaState) -> (r: WebViewAreaPlacement)
        ensures
            r == self.spec_resolve(state),
    {
        let bounds_valid = state.bounds.is_valid();
        let blocked_by_overlay = self.hide_when_overlay_active && state.overlay_active;
        let blocked_by_invalid_bounds = self.hide_until_bounds_valid && !bounds_valid;
        let effective_visible = state.requested_visible && !blocked_by_overlay
            && !blocked_by_invalid_bounds;
        let parked = !effective_visible && self.hidden_strategy.parks();
        let native_visible = effective_visible || self.hidden_strategy.native_visible_when_hidden();
        let fallback_bounds = self.valid_park_bounds();
        let bounds = if parked || !bounds_valid {
            fallback_bounds
        } else {
            state.bounds
        };
        WebViewAreaPlacement {
            bounds,
            native_visible,
            effective_visible,
            parked,
            blocked_by_overlay,
            blocked_by_invalid_bounds,
        }
    }

    /// Adapts creation options to the placement this policy gives `state`:
    /// the webview is created at the placement's bounds and native
    /// visibility, and takes keyboard focus only when the options ask for it,
    /// the area is effectively visible and no shell input owns typing.
    pub fn placed_options(self, options: WebViewOptions, state: WebViewAreaState) -> (r:
        WebViewOptions)
        ensures
            r == (WebViewOptions {
                bounds: self.spec_resolve(state).bounds,
                visible: self.spec_resolve(state).native_visible,
                focused: options.focused && self.spec_resolve(state).effective_visible
                    && !state.shell_focus_active,
                ..options
            }),
    {
        let placement = self.resolve(state);
        let mut options = options;
        options.focused = options.focused && placement.effective_visible
            && !state.shell_focus_active;
        options.bounds = placement.bounds;
        options.visible = placement.native_visible;
        options
    }

    fn valid_park_bounds(self) -> (r: WebViewBounds)
        ensures
            r == self.fallback_bounds(),
    {
        if self.park_bounds.is_valid() {
            self.park_bounds
        } else {
            default_park_bounds()
        }
    }
}

impl Default for WebViewAreaState {
    fn default() -> (r: Self)
        ensures
            r == (WebViewAreaState {
                bounds: default_bounds(),
                requested_visible: true,
                overlay_active: false,
                shell_focus_active: false,
            }),
    {
        WebViewAreaState {
            bounds: WebViewBounds::default(),
            requested_visible: true,
            overlay_active: false,
            shell_focus_active: false,
        }
    }
}

impl WebViewAreaState {
    /// Creates state for a visible webview area with no overlay or shell focus.
    pub fn new(bounds: WebViewBounds) -> (r: Self)
        ensures
            r == (WebViewAreaState {
                bounds,
                requested_visible: true,
                overlay_active: false,
                shell_focus_active: false,
            }),
    {
        WebViewAreaState {
            bounds,
            requested_visible: true,
            overlay_active: false,
            shell_focus_active: false,
        }
    }

    /// Returns state with different bounds.
    pub fn with_bounds(self, bounds: WebViewBounds) -> (r: Self)
        ensures
            r == (WebViewAreaState { bounds, ..self }),
    {
        WebViewAreaState { bounds, ..self }
    }

    /// Returns state with requested visibility changed.
    pub fn with_requested_visible(self, visible: bool) -> (r: Self)
        ensures
            r == (WebViewAreaState { requested_visible: visible, ..self }),
    {
        WebViewAreaState { requested_visible: visible, ..self }
    }

    /// Returns state with overlay activity changed.
    pub fn with_overlay_active(self, active: bool) -> (r: Self)
        ensures
            r == (WebViewAreaState { overlay_active: active, ..self }),
    {
        WebViewAreaState { overlay_active: active, ..self }
    }

    /// Returns state with shell focus activity changed.
    pub fn with_shell_focus_active(self, active: bool) -> (r: Self)
        ensures
            r == (WebViewAreaState { shell_focus_active: active, ..self }),
    {
        WebViewAreaState { shell_focus_active: active, ..self }
    }
}

/// Portable controller operations required by [`BackendWebViewAreaController`].
///
/// Backend crates can implement this trait directly for their public
/// controller type. The shared area controller then owns the policy for
/// geometry, visibility, focus release, and focus-request events without
/// knowing whether the underlying engine is native, Servo, or CEF.
pub trait WebViewControllerLike {
    /// Every operation this controller has received, oldest first, each with
    /// the error it answered (`None` when it succeeded). Implementations in
    /// this crate define it from their own state; one written outside
    /// verified code keeps this default and is trusted to meet the method
    /// contracts below.
    closed spec fn received(&self) -> Seq<(ControllerCall, Option<WebViewError>)> {
        Seq::empty()
    }

    /// Returns static capabilities for this controller backend.
    fn capabilities() -> WebViewCapabilities where Self: Sized;

    /// Drains all events currently queued for this controller.
    fn drain_events(&mut self) -> (r: Vec<WebViewEvent>)
        ensures
            final(self).received() == old(self).received().push(
                (ControllerCall::DrainEvents(r@), None),
            ),
    ;

    /// Updates webview bounds in Slint logical window coordinates.
    fn set_bounds(&mut self, bounds: WebViewBounds) -> (r: Result<(), WebViewError>)
        ensures
            final(self).received() == old(self).received().push(
                (ControllerCall::SetBounds(bounds), error_of(r)),
            ),
    ;

    /// Shows or hides the backend surface.
    fn set_visible(&mut self, visible: bool) -> (r: Result<(), WebViewError>)
        ensures
            final(self).received() == old(self).received().push(
                (ControllerCall::SetVisible(visible), error_of(r)),
            ),
    ;

    /// Loads a source into the webview.
    fn load_source(&mut self, source: WebViewSource) -> (r: Result<(), WebViewError>)
        ensures
            final(self).received() == old(self).received().push(
                (ControllerCall::LoadSource(source), error_of(r)),
            ),
    ;

    /// Loads an HTML string into the webview.
    fn load_html(&mut self, html: &str) -> (r: Result<(), WebViewError>)
        ensures
            final(self).received() == old(self).received().push(
                (ControllerCall::LoadHtml(html@), error_of(r)),
            ),
    ;

    /// Loads a URL into the webview.
    fn load_url(&mut self, url: &str) -> (r: Result<(), WebViewError>)
        ensures
            final(self).received() == old(self).received().push(
                (ControllerCall::LoadUrl(url@), error_of(r)),
            ),
    ;

    /// Evaluates JavaScript and returns the matching request ID.
    fn evaluate_script(&mut self, script: &str) -> (r: Result<ScriptRequestId, WebViewError>)
        ensures
            final(self).received() == old(self).received().push(
                (ControllerCall::EvaluateScript(script@), error_of(r)),
            ),
    ;

    /// Requests keyboard focus for the backend.
    fn focus(&mut self) -> (r: Result<(), WebViewError>)
        ensures
            final(self).received() == old(self).received().push(
                (ControllerCall::Focus, error_of(r)),
            ),
    ;

    /// Enables or disables whether the backend may take keyboard focus.
    fn set_keyboard_focus_enabled(&mut self, enabled: bool) -> (r: Result<(), WebViewError>)
        ensures
            final(self).received() == old(self).received().push(
                (ControllerCall::SetKeyboardFocusEnabled(enabled), error_of(r)),
            ),
    ;

    /// Returns focus to the host shell where supported.
    fn focus_parent(&mut self) -> (r: Result<(), WebViewError>)
        ensures
            final(self).received() == old(self).received().push(
                (ControllerCall::FocusParent, error_of(r)),
            ),
    ;
}

/// One operation a controller received.
pub enum ControllerCall {
    /// `set_bounds` with these bounds.
    SetBounds(WebViewBounds),
    /// `set_visible` with this flag.
    SetVisible(bool),
    /// `load_source` with this source.
    LoadSource(WebViewSource),
    /// `load_html` with this document.
    LoadHtml(Seq<char>),
    /// `load_url` with this URL.
    LoadUrl(Seq<char>),
    /// `evaluate_script` with this script.
    EvaluateScript(Seq<char>),
    /// `focus`.
    Focus,
    /// `set_keyboard_focus_enabled` with this flag.
    SetKeyboardFocusEnabled(bool),
    /// `focus_parent`.
    FocusParent,
    /// `drain_events`, which handed back these events.
    DrainEvents(Seq<WebViewEvent>),
}

/// The calls of `plan`, each recorded as having succeeded.
pub open spec fn succeeded(plan: Seq<ControllerCall>) -> Seq<(ControllerCall, Option<WebViewError>)> {
    plan.map_values(|call: ControllerCall| (call, None::<WebViewError>))
}

/// `after` is `before` followed by the calls of `plan` up to the first one
/// that failed, which failed with `error`: the calls before it succeeded and
/// none after it was made.
pub open spec fn failed_during(
    before: Seq<(ControllerCall, Option<WebViewError>)>,
    after: Seq<(ControllerCall, Option<WebViewError>)>,
    plan: Seq<ControllerCall>,
    error: WebViewError,
) -> bool {
    exists|k: int|
        #![trigger plan.take(k)]
        0 <= k < plan.len() && after == (before + succeeded(plan.take(k))).push(
            (plan[k], Some(error)),
        )
}

/// Whether policy asks to take keyboard focus away from the webview for this
/// placement and state.
pub open spec fn should_release_focus(
    policy: WebViewAreaPolicy,
    placement: WebViewAreaPlacement,
    state: WebViewAreaState,
) -> bool {
    (policy.release_focus_when_hidden && !placement.effective_visible) || (
    policy.release_focus_when_shell_focused && state.shell_focus_active)
}

/// The calls that release keyboard focus: disable focusability, then hand
/// focus back to the parent window.
pub open spec fn release_calls() -> Seq<ControllerCall> {
    seq![ControllerCall::SetKeyboardFocusEnabled(false), ControllerCall::FocusParent]
}

/// The calls a synchronization to `state` makes: new bounds when they
/// differ, new native visibility when it differs, and a focus release when
/// policy asks for one while keyboard focus is enabled.
pub open spec fn sync_calls(
    policy: WebViewAreaPolicy,
    status: WebViewAreaStatus,
    state: WebViewAreaState,
) -> Seq<ControllerCall> {
    let placement = policy.spec_resolve(state);
    (if !status.placement.bounds.same_as(placement.bounds) {
        seq![ControllerCall::SetBounds(placement.bounds)]
    } else {
        Seq::empty()
    }) + (if status.placement.native_visible != placement.native_visible {
        seq![ControllerCall::SetVisible(placement.native_visible)]
    } else {
        Seq::empty()
    }) + (if should_release_focus(policy, placement, state) && status.keyboard_focus_enabled {
        release_calls()
    } else {
        Seq::empty()
    })
}

/// The status after a synchronization to `state`.
pub open spec fn synced_status(
    policy: WebViewAreaPolicy,
    status: WebViewAreaStatus,
    state: WebViewAreaState,
) -> WebViewAreaStatus {
    let placement = policy.spec_resolve(state);
    WebViewAreaStatus {
        state,
        placement,
        keyboard_focus_enabled: status.keyboard_focus_enabled && !should_release_focus(
            policy,
            placement,
            state,
        ),
    }
}

/// The area may hand keyboard focus to the webview: it is effectively visible
/// and no shell input owns typing.
pub open spec fn may_focus_webview(status: WebViewAreaStatus) -> bool {
    status.placement.effective_visible && !status.state.shell_focus_active
}

/// The calls made by an explicit request to focus the webview.
pub open spec fn focus_webview_calls(status: WebViewAreaStatus) -> Seq<ControllerCall> {
    if may_focus_webview(status) {
        seq![ControllerCall::SetKeyboardFocusEnabled(true), ControllerCall::Focus]
    } else {
        release_calls()
    }
}

/// The calls with which the area reacts to one drained event.
pub open spec fn event_calls(status: WebViewAreaStatus, event: WebViewEvent) -> Seq<
    ControllerCall,
> {
    match event {
        WebViewEvent::FocusRequested => if may_focus_webview(status) {
            focus_webview_calls(status)
        } else {
            Seq::empty()
        },
        WebViewEvent::FocusChanged { focused } => if focused {
            Seq::empty()
        } else {
            seq![ControllerCall::SetKeyboardFocusEnabled(false)]
        },
        _ => Seq::empty(),
    }
}

/// The status after the area reacts to one drained event.
pub open spec fn event_status(status: WebViewAreaStatus, event: WebViewEvent) -> WebViewAreaStatus {
    match event {
        WebViewEvent::FocusRequested => if may_focus_webview(status) {
            WebViewAreaStatus { keyboard_focus_enabled: true, ..status }
        } else {
            status
        },
        WebViewEvent::FocusChanged { focused } => WebViewAreaStatus {
            keyboard_focus_enabled: focused,
            ..status
        },
        _ => status,
    }
}

/// The status after the area reacts to each event of `events` in order.
pub open spec fn events_status(status: WebViewAreaStatus, events: Seq<WebViewEvent>) -> WebViewAreaStatus
    decreases events.len(),
{
    if events.len() == 0 {
        status
    } else {
        event_status(events_status(status, events.drop_last()), events.last())
    }
}

/// The calls with which the area reacts to each event of `events` in order.
pub open spec fn events_calls(status: WebViewAreaStatus, events: Seq<WebViewEvent>) -> Seq<
    ControllerCall,
>
    decreases events.len(),
{
    if events.len() == 0 {
        Seq::empty()
    } else {
        events_calls(status, events.drop_last()) + event_calls(
            events_status(status, events.drop_last()),
            events.last(),
        )
    }
}

/// The calls of draining events: one `drain_events` that handed back
/// `events`, then the reaction to each of them in order.
pub open spec fn drain_calls(status: WebViewAreaStatus, events: Seq<WebViewEvent>) -> Seq<
    ControllerCall,
> {
    seq![ControllerCall::DrainEvents(events)] + events_calls(status, events)
}

/// The status left when reacting to `event` fails: a focus change has
/// already been recorded in the status; otherwise it is unchanged.
pub open spec fn event_failure_status(status: WebViewAreaStatus, event: WebViewEvent) -> WebViewAreaStatus {
    match event {
        WebViewEvent::FocusChanged { focused } => WebViewAreaStatus {
            keyboard_focus_enabled: focused,
            ..status
        },
        _ => status,
    }
}

/// Draining handed out `events` and failed while reacting to the one at
/// `k`: the calls were the drain, the reactions to the events before `k`,
/// then the reaction to the event at `k` up to its first failing call, which
/// failed with `error`; the status is the one that failure left.
pub open spec fn drain_failed_at(
    status_before: WebViewAreaStatus,
    calls_before: Seq<(ControllerCall, Option<WebViewError>)>,
    calls_after: Seq<(ControllerCall, Option<WebViewError>)>,
    status_after: WebViewAreaStatus,
    events: Seq<WebViewEvent>,
    k: int,
    error: WebViewError,
) -> bool {
    let handled = events.take(k);
    let reached = events_status(status_before, handled);
    &&& 0 <= k < events.len()
    &&& failed_during(
        calls_before + succeeded(
            seq![ControllerCall::DrainEvents(events)] + events_calls(status_before, handled),
        ),
        calls_after,
        event_calls(reached, events[k]),
        error,
    )
    &&& status_after == event_failure_status(reached, events[k])
}

/// Shared area controller for a backend-specific webview controller.
///
/// This is the backend-agnostic composition layer for a Slint `WebViewArea`
/// placeholder. It synchronizes native or rendered webview placement with the
/// Slint-side area state, hides or parks the webview behind Slint overlays, and
/// applies shared keyboard-focus policy.
pub struct BackendWebViewAreaController<C> {
    controller: C,
    policy: WebViewAreaPolicy,
    status: WebViewAreaStatus,
}

impl<C: WebViewControllerLike> BackendWebViewAreaController<C> {
    /// The wrapped controller.
    pub closed spec fn spec_controller(&self) -> C {
        self.controller
    }

    /// The active area policy.
    pub closed spec fn spec_policy(&self) -> WebViewAreaPolicy {
        self.policy
    }

    /// The latest synchronized status.
    pub closed spec fn spec_status(&self) -> WebViewAreaStatus {
        self.status
    }

    /// The operations the wrapped controller has received, as it states
    /// them.
    pub open spec fn controller_calls(&self) -> Seq<(ControllerCall, Option<WebViewError>)> {
        self.spec_controller().received()
    }

    /// Wraps an existing controller and applies area policy with keyboard focus
    /// disabled.
    pub fn from_controller(
        controller: C,
        state: WebViewAreaState,
        policy: WebViewAreaPolicy,
    ) -> (r: Result<Self, WebViewError>)
        ensures
            r matches Ok(area) ==> {
                let placement = policy.spec_resolve(state);
                &&& area.spec_policy() == policy
                &&& area.spec_status() == (WebViewAreaStatus {
                    state,
                    placement,
                    keyboard_focus_enabled: false,
                })
                &&& area.controller_calls() == controller.received() + succeeded(
                    seq![
                        ControllerCall::SetBounds(placement.bounds),
                        ControllerCall::SetVisible(placement.native_visible),
                        ControllerCall::SetKeyboardFocusEnabled(false),
                    ],
                )
            },
    {
        Self::from_controller_with_keyboard_focus(controller, state, policy, false)
    }

    /// Wraps an existing controller and applies area policy with optional
    /// initial keyboard focus.
    ///
    /// Initial keyboard focus is only retained when the resolved placement is
    /// effectively visible and no shell input owns focus.
    pub fn from_controller_with_keyboard_focus(
        controller: C,
        state: WebViewAreaState,
        policy: WebViewAreaPolicy,
        keyboard_focus_enabled: bool,
    ) -> (r: Result<Self, WebViewError>)
        ensures
            r matches Ok(area) ==> {
                let placement = policy.spec_resolve(state);
                let focus = keyboard_focus_enabled && placement.effective_visible
                    && !state.shell_focus_active;
                &&& area.spec_policy() == policy
                &&& area.spec_status() == (WebViewAreaStatus {
                    state,
                    placement,
                    keyboard_focus_enabled: focus,
                })
                &&& area.controller_calls() == controller.received() + succeeded(
                    seq![
                        ControllerCall::SetBounds(placement.bounds),
                        ControllerCall::SetVisible(placement.native_visible),
                        ControllerCall::SetKeyboardFocusEnabled(focus),
                    ],
                )
            },
    {
        let ghost start = controller.received();
        let mut controller = controller;
        let placement = policy.resolve(state);
        let keyboard_focus_enabled = keyboard_focus_enabled && placement.effective_visible
            && !state.shell_focus_active;
        match controller.set_bounds(placement.bounds) {
            Ok(()) => {},
            Err(error) => {
                return Err(error);
            },
        }
        match controller.set_visible(placement.native_visible) {
            Ok(()) => {},
            Err(error) => {
                return Err(error);
            },
        }
        match controller.set_keyboard_focus_enabled(keyboard_focus_enabled) {
            Ok(()) => {},
            Err(error) => {
                return Err(error);
            },
        }
        let ghost calls = succeeded(
            seq![
                ControllerCall::SetBounds(placement.bounds),
                ControllerCall::SetVisible(placement.native_visible),
                ControllerCall::SetKeyboardFocusEnabled(keyboard_focus_enabled),
            ],
        );
        assert(controller.received() =~= start + calls);
        Ok(BackendWebViewAreaController {
            controller,
            policy,
            status: WebViewAreaStatus { state, placement, keyboard_focus_enabled },
        })
    }

    /// Returns the capabilities of the selected backend.
    pub fn capabilities() -> WebViewCapabilities {
        C::capabilities()
    }

    /// Returns the active area policy.
    pub fn policy(&self) -> (r: WebViewAreaPolicy)
        ensures
            r == self.spec_policy(),
    {
        self.policy
    }

    /// Returns the latest synchronized status.
    pub fn status(&self) -> (r: WebViewAreaStatus)
        ensures
            r == self.spec_status(),
    {
        self.status
    }

    /// Returns the wrapped backend-specific controller.
    pub fn controller(&self) -> (r: &C)
        ensures
            *r == self.spec_controller(),
    {
        &self.controller
    }

    /// Disables webview keyboard focus and returns focus to the parent window
    /// where the backend supports it. The first failing call ends it with
    /// that call's error.
    pub fn release_keyboard_focus(&mut self) -> (r: Result<(), WebViewError>)
        ensures
            final(self).spec_policy() == old(self).spec_policy(),
            r is Ok ==> final(self).spec_status() == (WebViewAreaStatus {
                keyboard_focus_enabled: false,
                ..old(self).spec_status()
            }) && final(self).controller_calls() == old(self).controller_calls() + succeeded(
                release_calls(),
            ),
            r matches Err(error) ==> final(self).spec_status() == old(self).spec_status()
                && failed_during(
                old(self).controller_calls(),
                final(self).controller_calls(),
                release_calls(),
                error,
            ),
    {
        let ghost before = self.controller.received();
        let first = self.controller.set_keyboard_focus_enabled(false);
        match first {
            Ok(()) => {},
            Err(error) => {
                proof {
                    lemma_fail_first(before, release_calls(), error);
                }
                return Err(error);
            },
        }
        let ghost mid = self.controller.received();
        let second = self.controller.focus_parent();
        let ghost head = seq![ControllerCall::SetKeyboardFocusEnabled(false)];
        let ghost tail = seq![ControllerCall::FocusParent];
        proof {
            assert(head + tail =~= release_calls());
            assert(mid =~= before + succeeded(head));
        }
        match second {
            Ok(()) => {},
            Err(error) => {
                proof {
                    lemma_fail_first(mid, tail, error);
                    lemma_fail_after(before, mid, self.controller.received(), head, tail, error);
                }
                return Err(error);
            },
        }
        proof {
            assert(self.controller.received() =~= before + succeeded(release_calls()));
        }
        self.status.keyboard_focus_enabled = false;
        Ok(())
    }

    /// Allows keyboard focus and requests focus for the webview when the area is
    /// effectively visible and no shell input owns focus; otherwise releases
    /// keyboard focus. The first failing call ends it with that call's error.
    pub fn focus_webview(&mut self) -> (r: Result<(), WebViewError>)
        ensures
            final(self).spec_policy() == old(self).spec_policy(),
            r is Ok ==> final(self).spec_status() == (WebViewAreaStatus {
                keyboard_focus_enabled: may_focus_webview(old(self).spec_status()),
                ..old(self).spec_status()
            }) && final(self).controller_calls() == old(self).controller_calls() + succeeded(
                focus_webview_calls(old(self).spec_status()),
            ),
            r matches Err(error) ==> final(self).spec_status() == old(self).spec_status()
                && failed_during(
                old(self).controller_calls(),
                final(self).controller_calls(),
                focus_webview_calls(old(self).spec_status()),
                error,
            ),
    {
        if !self.status.placement.effective_visible || self.status.state.shell_focus_active {
            return match self.release_keyboard_focus() {
                Ok(()) => Ok(()),
                Err(error) => Err(error),
            };
        }
        let ghost before = self.controller.received();
        let first = self.controller.set_keyboard_focus_enabled(true);
        let ghost head = seq![ControllerCall::SetKeyboardFocusEnabled(true)];
        let ghost tail = seq![ControllerCall::Focus];
        proof {
            assert(head + tail =~= focus_webview_calls(self.status));
        }
        match first {
            Ok(()) => {},
            Err(error) => {
                proof {
                    lemma_fail_first(before, head + tail, error);
                }
                return Err(error);
            },
        }
        let ghost mid = self.controller.received();
        let second = self.controller.focus();
        proof {
            assert(mid =~= before + succeeded(head));
        }
        match second {
            Ok(()) => {},
            Err(error) => {
                proof {
                    lemma_fail_first(mid, tail, error);
                    lemma_fail_after(before, mid, self.controller.received(), head, tail, error);
                }
                return Err(error);
            },
        }
        proof {
            assert(self.controller.received() =~= before + succeeded(head + tail));
        }
        self.status.keyboard_focus_enabled = true;
        Ok(())
    }

    /// Synchronizes bounds, visibility, parking, and focus policy.
    ///
    /// Bounds and native visibility are only sent when they differ from the
    /// last synchronized placement; keyboard focus is released when policy
    /// asks for it and the webview may currently take focus. The first
    /// failing call ends it with that call's error and the status unchanged.
    pub fn sync(&mut self, state: WebViewAreaState) -> (r: Result<WebViewAreaStatus, WebViewError>)
        ensures
            final(self).spec_policy() == old(self).spec_policy(),
            r is Ok ==> r == Ok::<WebViewAreaStatus, WebViewError>(
                synced_status(old(self).spec_policy(), old(self).spec_status(), state),
            ) && final(self).spec_status() == synced_status(
                old(self).spec_policy(),
                old(self).spec_status(),
                state,
            ) && final(self).controller_calls() == old(self).controller_calls() + succeeded(
                sync_calls(old(self).spec_policy(), old(self).spec_status(), state),
            ),
            r matches Err(error) ==> final(self).spec_status() == old(self).spec_status()
                && failed_during(
                old(self).controller_calls(),
                final(self).controller_calls(),
                sync_calls(old(self).spec_policy(), old(self).spec_status(), state),
                error,
            ),
    {
        let ghost before = self.controller.received();
        let ghost old_status = self.status;
        let placement = self.policy.resolve(state);
        let ghost bounds_part: Seq<ControllerCall> = if !old_status.placement.bounds.same_as(
            placement.bounds,
        ) {
            seq![ControllerCall::SetBounds(placement.bounds)]
        } else {
            Seq::empty()
        };
        let ghost visible_part: Seq<ControllerCall> = if old_status.placement.native_visible
            != placement.native_visible {
            seq![ControllerCall::SetVisible(placement.native_visible)]
        } else {
            Seq::empty()
        };
        let ghost focus_part: Seq<ControllerCall> = if should_release_focus(
            self.policy,
            placement,
            state,
        ) && old_status.keyboard_focus_enabled {
            release_calls()
        } else {
            Seq::empty()
        };
        assert(sync_calls(self.policy, old_status, state) == bounds_part + visible_part
            + focus_part);
        if self.status.placement.bounds != placement.bounds {
            let result = self.controller.set_bounds(placement.bounds);
            match result {
                Ok(()) => {},
                Err(error) => {
                    proof {
                        lemma_fail_first(before, bounds_part, error);
                        lemma_fail_extends(
                            before,
                            self.controller.received(),
                            bounds_part,
                            visible_part,
                            error,
                        );
                        lemma_fail_extends(
                            before,
                            self.controller.received(),
                            bounds_part + visible_part,
                            focus_part,
                            error,
                        );
                    }
                    return Err(error);
                },
            }
        }
        assert(self.controller.received() =~= before + succeeded(bounds_part));
        let ghost after_bounds = self.controller.received();
        if self.status.placement.native_visible != placement.native_visible {
            let result = self.controller.set_visible(placement.native_visible);
            match result {
                Ok(()) => {},
                Err(error) => {
                    proof {
                        lemma_fail_first(after_bounds, visible_part, error);
                        lemma_fail_after(
                            before,
                            after_bounds,
                            self.controller.received(),
                            bounds_part,
                            visible_part,
                            error,
                        );
                        lemma_fail_extends(
                            before,
                            self.controller.received(),
                            bounds_part + visible_part,
                            focus_part,
                            error,
                        );
                    }
                    return Err(error);
                },
            }
        }
        proof {
            lemma_succeeded_concat(bounds_part, visible_part);
            assert(self.controller.received() =~= before + succeeded(bounds_part + visible_part));
        }
        let ghost after_visible = self.controller.received();
        let should_release_focus = (self.policy.release_focus_when_hidden
            && !placement.effective_visible) || (self.policy.release_focus_when_shell_focused
            && state.shell_focus_active);
        let mut keyboard_focus_enabled = self.status.keyboard_focus_enabled;
        if should_release_focus && keyboard_focus_enabled {
            match self.release_keyboard_focus() {
                Ok(()) => {},
                Err(error) => {
                    proof {
                        lemma_fail_after(
                            before,
                            after_visible,
                            self.controller.received(),
                            bounds_part + visible_part,
                            focus_part,
                            error,
                        );
                    }
                    return Err(error);
                },
            }
            keyboard_focus_enabled = false;
        }
        proof {
            lemma_succeeded_concat(bounds_part + visible_part, focus_part);
            assert(self.controller.received() =~= before + succeeded(
                bounds_part + visible_part + focus_part,
            ));
        }
        self.status = WebViewAreaStatus { state, placement, keyboard_focus_enabled };
        Ok(self.status)
    }

    /// Replaces the active area policy and reapplies it to the current state.
    pub fn set_policy(&mut self, policy: WebViewAreaPolicy) -> (r: Result<
        WebViewAreaStatus,
        WebViewError,
    >)
        ensures
            final(self).spec_policy() == policy,
            r is Ok ==> r == Ok::<WebViewAreaStatus, WebViewError>(
                synced_status(policy, old(self).spec_status(), old(self).spec_status().state),
            ) && final(self).spec_status() == synced_status(
                policy,
                old(self).spec_status(),
                old(self).spec_status().state,
            ) && final(self).controller_calls() == old(self).controller_calls() + succeeded(
                sync_calls(policy, old(self).spec_status(), old(self).spec_status().state),
            ),
            r matches Err(error) ==> final(self).spec_status() == old(self).spec_status()
                && failed_during(
                old(self).controller_calls(),
                final(self).controller_calls(),
                sync_calls(policy, old(self).spec_status(), old(self).spec_status().state),
                error,
            ),
    {
        self.policy = policy;
        let state = self.status.state;
        self.sync(state)
    }

    fn apply_event_policy(&mut self, event: &WebViewEvent) -> (r: Result<(), WebViewError>)
        ensures
            final(self).spec_policy() == old(self).spec_policy(),
            r is Ok ==> final(self).spec_status() == event_status(old(self).spec_status(), *event)
                && final(self).controller_calls() == old(self).controller_calls() + succeeded(
                event_calls(old(self).spec_status(), *event),
            ),
            r matches Err(error) ==> final(self).spec_status() == event_failure_status(
                old(self).spec_status(),
                *event,
            ) && failed_during(
                old(self).controller_calls(),
                final(self).controller_calls(),
                event_calls(old(self).spec_status(), *event),
                error,
            ),
    {
        let ghost before = self.controller.received();
        match event {
            WebViewEvent::FocusRequested => {
                if self.status.placement.effective_visible && !self.status.state.shell_focus_active {
                    match self.focus_webview() {
                        Ok(()) => {},
                        Err(error) => {
                            return Err(error);
                        },
                    }
                } else {
                    assert(self.controller.received() =~= before + succeeded(
                        event_calls(self.status, *event),
                    ));
                }
            },
            WebViewEvent::FocusChanged { focused } => {
                self.status.keyboard_focus_enabled = *focused;
                if !*focused {
                    let result = self.controller.set_keyboard_focus_enabled(false);
                    match result {
                        Ok(()) => {},
                        Err(error) => {
                            proof {
                                lemma_fail_first(
                                    before,
                                    event_calls(old(self).status, *event),
                                    error,
                                );
                            }
                            return Err(error);
                        },
                    }
                }
                assert(self.controller.received() =~= before + succeeded(
                    event_calls(old(self).status, *event),
                ));
            },
            _ => {
                assert(self.controller.received() =~= before + succeeded(
                    event_calls(self.status, *event),
                ));
            },
        }
        Ok(())
    }

    /// Drains pending events and applies built-in focus policy for focus
    /// events: a focus request hands keyboard focus to the webview when the
    /// area may take it, and a lost focus disables webview focusability. The
    /// first failing call ends it with that call's error.
    pub fn drain_events(&mut self) -> (r: Result<Vec<WebViewEvent>, WebViewError>)
        ensures
            final(self).spec_policy() == old(self).spec_policy(),
            r matches Ok(events) ==> final(self).spec_status() == events_status(
                old(self).spec_status(),
                events@,
            ) && final(self).controller_calls() == old(self).controller_calls() + succeeded(
                drain_calls(old(self).spec_status(), events@),
            ),
            r matches Err(error) ==> exists|events: Seq<WebViewEvent>, k: int|
                #[trigger] drain_failed_at(
                    old(self).spec_status(),
                    old(self).controller_calls(),
                    final(self).controller_calls(),
                    final(self).spec_status(),
                    events,
                    k,
                    error,
                ),
    {
        let ghost start_calls = self.controller.received();
        let ghost start_status = self.status;
        let events = self.controller.drain_events();
        let ghost drained = seq![ControllerCall::DrainEvents(events@)];
        let ghost base = self.controller.received();
        assert(base =~= start_calls + succeeded(drained));
        let mut i: usize = 0;
        assert(events@.take(0) =~= Seq::<WebViewEvent>::empty());
        assert(base =~= base + succeeded(events_calls(start_status, events@.take(0))));
        while i < events.len()
            invariant
                i <= events@.len(),
                self.policy == old(self).policy,
                start_calls == old(self).controller.received(),
                start_status == old(self).status,
                drained == seq![ControllerCall::DrainEvents(events@)],
                base == start_calls + succeeded(drained),
                self.status == events_status(start_status, events@.take(i as int)),
                self.controller.received() == base + succeeded(
                    events_calls(start_status, events@.take(i as int)),
                ),
            decreases events.len() - i,
        {
            let ghost mid = self.controller.received();
            let ghost prefix = events@.take(i as int);
            let ghost next = events@.take(i + 1);
            assert(next.drop_last() =~= prefix);
            assert(next.last() == events@[i as int]);
            let ghost step = event_calls(events_status(start_status, prefix), events@[i as int]);
            assert(events_calls(start_status, next) == events_calls(start_status, prefix) + step);
            match self.apply_event_policy(&events[i]) {
                Ok(()) => {},
                Err(error) => {
                    proof {
                        let done_before = drained + events_calls(start_status, prefix);
                        lemma_succeeded_concat(drained, events_calls(start_status, prefix));
                        assert(mid =~= start_calls + succeeded(done_before));
                        assert(drain_failed_at(
                            start_status,
                            start_calls,
                            self.controller.received(),
                            self.status,
                            events@,
                            i as int,
                            error,
                        ));
                        assert(old(self).spec_status() == start_status);
                        assert(old(self).controller_calls() == start_calls);
                        assert(self.controller_calls() == self.controller.received());
                        assert(self.spec_status() == self.status);
                    }
                    return Err(error);
                },
            }
            proof {
                lemma_succeeded_concat(events_calls(start_status, prefix), step);
                assert(self.controller.received() =~= base + succeeded(
                    events_calls(start_status, next),
                ));
            }
            i = i + 1;
        }
        proof {
            assert(events@.take(events@.len() as int) =~= events@);
            lemma_succeeded_concat(drained, events_calls(start_status, events@));
            assert(self.controller.received() =~= start_calls + succeeded(
                drain_calls(start_status, events@),
            ));
        }
        Ok(events)
    }

    /// Runs a caller-provided event pump, synchronizes the area, drains webview
    /// events, and applies built-in focus policy for those events. The pump
    /// runs once, first; a failing synchronization ends it before any event
    /// is drained.
    pub fn tick_with<F: FnOnce()>(&mut self, state: WebViewAreaState, pump_events: F) -> (r:
        Result<Vec<WebViewEvent>, WebViewError>)
        requires
            call_requires(pump_events, ()),
        ensures
            call_ensures(pump_events, (), ()),
            final(self).spec_policy() == old(self).spec_policy(),
            r matches Ok(events) ==> {
                let synced = synced_status(old(self).spec_policy(), old(self).spec_status(), state);
                &&& final(self).spec_status() == events_status(synced, events@)
                &&& final(self).controller_calls() == old(self).controller_calls() + succeeded(
                    sync_calls(old(self).spec_policy(), old(self).spec_status(), state)
                        + drain_calls(synced, events@),
                )
            },
            r matches Err(error) ==> {
                let plan = sync_calls(old(self).spec_policy(), old(self).spec_status(), state);
                let synced = synced_status(old(self).spec_policy(), old(self).spec_status(), state);
                ||| final(self).spec_status() == old(self).spec_status() && failed_during(
                    old(self).controller_calls(),
                    final(self).controller_calls(),
                    plan,
                    error,
                )
                ||| exists|events: Seq<WebViewEvent>, k: int|
                    #[trigger] drain_failed_at(
                        synced,
                        old(self).controller_calls() + succeeded(plan),
                        final(self).controller_calls(),
                        final(self).spec_status(),
                        events,
                        k,
                        error,
                    )
            },
    {
        let ghost start_calls = self.controller.received();
        let ghost plan = sync_calls(self.policy, self.status, state);
        pump_events();
        match self.sync(state) {
            Ok(_) => {},
            Err(error) => {
                return Err(error);
            },
        }
        let ghost mid = self.controller.received();
        match self.drain_events() {
            Ok(events) => {
                proof {
                    let synced = synced_status(old(self).spec_policy(), old(self).spec_status(), state);
                    lemma_succeeded_concat(plan, drain_calls(synced, events@));
                    assert(self.controller.received() =~= start_calls + succeeded(
                        plan + drain_calls(synced, events@),
                    ));
                }
                Ok(events)
            },
            Err(error) => Err(error),
        }
    }

    /// Loads a source into the webview.
    pub fn load_source(&mut self, source: WebViewSource) -> (r: Result<(), WebViewError>)
        ensures
            final(self).spec_policy() == old(self).spec_policy(),
            final(self).spec_status() == old(self).spec_status(),
            final(self).controller_calls() == old(self).controller_calls().push(
                (ControllerCall::LoadSource(source), error_of(r)),
            ),
    {
        self.controller.load_source(source)
    }

    /// Loads an HTML string into the webview.
    pub fn load_html(&mut self, html: &str) -> (r: Result<(), WebViewError>)
        ensures
            final(self).spec_policy() == old(self).spec_policy(),
            final(self).spec_status() == old(self).spec_status(),
            final(self).controller_calls() == old(self).controller_calls().push(
                (ControllerCall::LoadHtml(html@), error_of(r)),
            ),
    {
        self.controller.load_html(html)
    }

    /// Loads a URL into the webview.
    pub fn load_url(&mut self, url: &str) -> (r: Result<(), WebViewError>)
        ensures
            final(self).spec_policy() == old(self).spec_policy(),
            final(self).spec_status() == old(self).spec_status(),
            final(self).controller_calls() == old(self).controller_calls().push(
                (ControllerCall::LoadUrl(url@), error_of(r)),
            ),
    {
        self.controller.load_url(url)
    }

    /// Evaluates JavaScript in the webview.
    pub fn evaluate_script(&mut self, script: &str) -> (r: Result<ScriptRequestId, WebViewError>)
        ensures
            final(self).spec_policy() == old(self).spec_policy(),
            final(self).spec_status() == old(self).spec_status(),
            final(self).controller_calls() == old(self).controller_calls().push(
                (ControllerCall::EvaluateScript(script@), error_of(r)),
            ),
    {
        self.controller.evaluate_script(script)
    }
}

/// Recording the calls of two plans as succeeded is recording their
/// concatenation as succeeded.
proof fn lemma_succeeded_concat(p: Seq<ControllerCall>, q: Seq<ControllerCall>)
    ensures
        succeeded(p + q) == succeeded(p) + succeeded(q),
{
    assert(succeeded(p + q) =~= succeeded(p) + succeeded(q));
}

/// The first call of a plan failing is the plan failing at its first call.
proof fn lemma_fail_first(
    before: Seq<(ControllerCall, Option<WebViewError>)>,
    plan: Seq<ControllerCall>,
    error: WebViewError,
)
    requires
        plan.len() >= 1,
    ensures
        failed_during(before, before.push((plan[0], Some(error))), plan, error),
{
    assert(succeeded(plan.take(0)) =~= Seq::<(ControllerCall, Option<WebViewError>)>::empty());
    assert(before + succeeded(plan.take(0)) =~= before);
}

/// A plan that failed partway also failed partway through any longer plan
/// that starts with it.
proof fn lemma_fail_extends(
    before: Seq<(ControllerCall, Option<WebViewError>)>,
    after: Seq<(ControllerCall, Option<WebViewError>)>,
    p: Seq<ControllerCall>,
    q: Seq<ControllerCall>,
    error: WebViewError,
)
    requires
        failed_during(before, after, p, error),
    ensures
        failed_during(before, after, p + q, error),
{
    let k = choose|k: int|
        #![trigger p.take(k)]
        0 <= k < p.len() && after == (before + succeeded(p.take(k))).push((p[k], Some(error)));
    assert((p + q).take(k) =~= p.take(k));
    assert((p + q)[k] == p[k]);
}

/// Carrying out all of `p` and then failing partway through `q` is failing
/// partway through `p + q`.
proof fn lemma_fail_after(
    before: Seq<(ControllerCall, Option<WebViewError>)>,
    mid: Seq<(ControllerCall, Option<WebViewError>)>,
    after: Seq<(ControllerCall, Option<WebViewError>)>,
    p: Seq<ControllerCall>,
    q: Seq<ControllerCall>,
    error: WebViewError,
)
    requires
        mid == before + succeeded(p),
        failed_during(mid, after, q, error),
    ensures
        failed_during(before, after, p + q, error),
{
    let k = choose|k: int|
        #![trigger q.take(k)]
        0 <= k < q.len() && after == (mid + succeeded(q.take(k))).push((q[k], Some(error)));
    let n = p.len() + k;
    assert((p + q).take(n) =~= p + q.take(k));
    assert((p + q)[n] == q[k]);
    lemma_succeeded_concat(p, q.take(k));
    assert(before + succeeded((p + q).take(n)) =~= mid + succeeded(q.take(k)));
}

} // verus!
