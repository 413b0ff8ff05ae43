use std::cell::{Cell, RefCell};

use slint_webview::{
    BackendWebViewAreaController, CompositionTier, HiddenWebViewStrategy, ScriptRequestId,
    WebViewAreaPolicy, WebViewAreaState, WebViewBounds, WebViewCapabilities,
    WebViewControllerLike, WebViewError, WebViewEvent, WebViewOptions, WebViewSource,
    default_park_bounds,
};

fn bounds(x: f64, y: f64, width: f64, height: f64) -> WebViewBounds {
    WebViewBounds::from_bits(x.to_bits(), y.to_bits(), width.to_bits(), height.to_bits())
}

#[derive(Default)]
struct RecordingController {
    operations: Vec<String>,
    events: RefCell<Vec<WebViewEvent>>,
    next_script_request_id: Cell<u64>,
    fail_focus_parent: bool,
}

impl RecordingController {
    fn operations(&self) -> Vec<String> {
        self.operations.clone()
    }

    fn queue_event(&self, event: WebViewEvent) {
        self.events.borrow_mut().push(event);
    }
}

impl WebViewControllerLike for RecordingController {
    fn capabilities() -> WebViewCapabilities {
        WebViewCapabilities {
            backend_name: "recording",
            engine_name: "test",
            composition_tier: CompositionTier::SlintOwnedTexture,
            supports_transparency: true,
            supports_clipping: true,
            supports_overlays_above_webview: true,
            supports_script_eval: true,
            supports_host_messaging: true,
            supports_custom_user_agent: true,
            supports_download_interception: false,
            supports_permission_interception: false,
            requires_external_runtime: false,
        }
    }

    fn drain_events(&mut self) -> Vec<WebViewEvent> {
        self.events.borrow_mut().drain(..).collect()
    }

    fn set_bounds(&mut self, bounds: WebViewBounds) -> Result<(), WebViewError> {
        self.operations.push(format!(
            "bounds:{}x{}",
            f64::from_bits(bounds.width_bits),
            f64::from_bits(bounds.height_bits)
        ));
        Ok(())
    }

    fn set_visible(&mut self, visible: bool) -> Result<(), WebViewError> {
        self.operations.push(format!("visible:{visible}"));
        Ok(())
    }

    fn load_source(&mut self, source: WebViewSource) -> Result<(), WebViewError> {
        self.operations.push(format!("source:{source:?}"));
        Ok(())
    }

    fn load_html(&mut self, html: &str) -> Result<(), WebViewError> {
        self.operations.push(format!("html:{html}"));
        Ok(())
    }

    fn load_url(&mut self, url: &str) -> Result<(), WebViewError> {
        self.operations.push(format!("url:{url}"));
        Ok(())
    }

    fn evaluate_script(&mut self, script: &str) -> Result<ScriptRequestId, WebViewError> {
        let request_id = ScriptRequestId(self.next_script_request_id.get());
        self.next_script_request_id
            .set(request_id.0.saturating_add(1).max(1));
        self.operations
            .push(format!("script:{}:{script}", request_id.0));
        Ok(request_id)
    }

    fn focus(&mut self) -> Result<(), WebViewError> {
        self.operations.push("focus".to_owned());
        Ok(())
    }

    fn set_keyboard_focus_enabled(&mut self, enabled: bool) -> Result<(), WebViewError> {
        self.operations.push(format!("keyboard:{enabled}"));
        Ok(())
    }

    fn focus_parent(&mut self) -> Result<(), WebViewError> {
        self.operations.push("focus-parent".to_owned());
        if self.fail_focus_parent {
            Err(WebViewError::Native("focus parent failed".to_owned()))
        } else {
            Ok(())
        }
    }
}

#[test]
fn default_policy_parks_when_overlay_is_active() {
    let state = WebViewAreaState::new(bounds(10.0, 20.0, 300.0, 200.0)).with_overlay_active(true);
    let placement = WebViewAreaPolicy::default().resolve(state);

    assert!(!placement.effective_visible);
    assert!(placement.native_visible);
    assert!(placement.parked);
    assert!(placement.blocked_by_overlay);
    assert_eq!(placement.bounds, default_park_bounds());
}

#[test]
fn hide_strategy_uses_native_visibility_without_parking() {
    let policy = WebViewAreaPolicy::default().with_hidden_strategy(HiddenWebViewStrategy::Hide);
    let state =
        WebViewAreaState::new(bounds(10.0, 20.0, 300.0, 200.0)).with_requested_visible(false);
    let placement = policy.resolve(state);

    assert!(!placement.effective_visible);
    assert!(!placement.native_visible);
    assert!(!placement.parked);
    assert_eq!(placement.bounds, state.bounds);
}

#[test]
fn invalid_bounds_are_never_applied_to_backend() {
    let state = WebViewAreaState::new(bounds(1.0, 2.0, 0.0, 4.0));
    let placement = WebViewAreaPolicy::default().resolve(state);

    assert!(!placement.effective_visible);
    assert!(placement.blocked_by_invalid_bounds);
    assert_eq!(placement.bounds, default_park_bounds());
}

#[test]
fn invalid_custom_park_bounds_fall_back_to_default() {
    let policy = WebViewAreaPolicy::default().with_park_bounds(bounds(-1.0, -1.0, 0.0, 0.0));
    let state = WebViewAreaState::default().with_requested_visible(false);
    let placement = policy.resolve(state);

    assert_eq!(placement.bounds, default_park_bounds());
}

#[test]
fn area_controller_applies_initial_placement() {
    let state = WebViewAreaState::new(bounds(10.0, 20.0, 300.0, 200.0));
    let area = BackendWebViewAreaController::from_controller(
        RecordingController::default(),
        state,
        WebViewAreaPolicy::default(),
    )
    .unwrap();

    assert_eq!(
        area.controller().operations(),
        vec!["bounds:300x200", "visible:true", "keyboard:false"]
    );
    assert!(area.status().placement.effective_visible);
    assert!(!area.status().keyboard_focus_enabled);
}

#[test]
fn area_controller_releases_focus_when_hidden() {
    let state = WebViewAreaState::new(bounds(10.0, 20.0, 300.0, 200.0));
    let mut area = BackendWebViewAreaController::from_controller_with_keyboard_focus(
        RecordingController::default(),
        state,
        WebViewAreaPolicy::default(),
        true,
    )
    .unwrap();

    area.sync(state.with_overlay_active(true)).unwrap();

    assert_eq!(
        area.controller().operations(),
        vec![
            "bounds:300x200",
            "visible:true",
            "keyboard:true",
            "bounds:1x1",
            "keyboard:false",
            "focus-parent",
        ]
    );
    assert!(!area.status().placement.effective_visible);
    assert!(!area.status().keyboard_focus_enabled);
}

#[test]
fn area_controller_applies_focus_requested_event_policy() {
    let state = WebViewAreaState::new(bounds(10.0, 20.0, 300.0, 200.0));
    let mut area = BackendWebViewAreaController::from_controller(
        RecordingController::default(),
        state,
        WebViewAreaPolicy::default(),
    )
    .unwrap();
    area.controller().queue_event(WebViewEvent::FocusRequested);

    assert_eq!(
        area.drain_events().unwrap(),
        vec![WebViewEvent::FocusRequested]
    );
    assert_eq!(
        area.controller().operations(),
        vec![
            "bounds:300x200",
            "visible:true",
            "keyboard:false",
            "keyboard:true",
            "focus",
        ]
    );
    assert!(area.status().keyboard_focus_enabled);
}

#[test]
fn area_controller_uses_caller_event_pump() {
    let pumped = Cell::new(false);
    let state = WebViewAreaState::new(bounds(10.0, 20.0, 300.0, 200.0));
    let mut area = BackendWebViewAreaController::from_controller(
        RecordingController::default(),
        state,
        WebViewAreaPolicy::default(),
    )
    .unwrap();

    area.tick_with(state, || pumped.set(true)).unwrap();

    assert!(pumped.get());
}

#[test]
fn repeated_sync_makes_no_backend_calls() {
    let state = WebViewAreaState::new(bounds(10.0, 20.0, 300.0, 200.0));
    let mut area = BackendWebViewAreaController::from_controller_with_keyboard_focus(
        RecordingController::default(),
        state,
        WebViewAreaPolicy::default(),
        true,
    )
    .unwrap();
    let hidden = state.with_requested_visible(false);

    let first = area.sync(hidden).unwrap();
    let calls_after_first = area.controller().operations().len();
    let second = area.sync(hidden).unwrap();

    assert_eq!(first, second);
    assert_eq!(area.controller().operations().len(), calls_after_first);
}

#[test]
fn focus_request_is_ignored_while_shell_input_owns_typing() {
    let state =
        WebViewAreaState::new(bounds(10.0, 20.0, 300.0, 200.0)).with_shell_focus_active(true);
    let mut area = BackendWebViewAreaController::from_controller(
        RecordingController::default(),
        state,
        WebViewAreaPolicy::default(),
    )
    .unwrap();
    area.controller().queue_event(WebViewEvent::FocusRequested);
    area.controller()
        .queue_event(WebViewEvent::FocusChanged { focused: false });

    area.drain_events().unwrap();

    assert_eq!(
        area.controller().operations(),
        vec!["bounds:300x200", "visible:true", "keyboard:false", "keyboard:false"]
    );
    assert!(!area.status().keyboard_focus_enabled);
}

#[test]
fn focus_webview_releases_when_hidden_and_focuses_when_visible() {
    let state = WebViewAreaState::new(bounds(10.0, 20.0, 300.0, 200.0));
    let policy = WebViewAreaPolicy::default().with_hidden_strategy(HiddenWebViewStrategy::HideAndPark);
    let mut area =
        BackendWebViewAreaController::from_controller(RecordingController::default(), state, policy)
            .unwrap();

    area.focus_webview().unwrap();
    assert!(area.status().keyboard_focus_enabled);

    let status = area.sync(state.with_requested_visible(false)).unwrap();
    assert!(status.placement.parked);
    assert!(!status.placement.native_visible);
    assert!(!status.keyboard_focus_enabled);

    area.focus_webview().unwrap();
    assert!(!area.status().keyboard_focus_enabled);
    assert_eq!(
        area.controller().operations(),
        vec![
            "bounds:300x200",
            "visible:true",
            "keyboard:false",
            "keyboard:true",
            "focus",
            "bounds:1x1",
            "visible:false",
            "keyboard:false",
            "focus-parent",
            "keyboard:false",
            "focus-parent",
        ]
    );
}

#[test]
fn failed_focus_release_keeps_status() {
    let state = WebViewAreaState::new(bounds(10.0, 20.0, 300.0, 200.0));
    let controller = RecordingController {
        fail_focus_parent: true,
        ..RecordingController::default()
    };
    let mut area = BackendWebViewAreaController::from_controller_with_keyboard_focus(
        controller,
        state,
        WebViewAreaPolicy::default(),
        true,
    )
    .unwrap();
    let before = area.status();

    assert!(matches!(
        area.sync(state.with_shell_focus_active(true)),
        Err(WebViewError::Native(_))
    ));
    assert_eq!(area.status(), before);
    assert_eq!(
        area.controller().operations(),
        vec!["bounds:300x200", "visible:true", "keyboard:true", "keyboard:false", "focus-parent"]
    );
}

#[test]
fn set_policy_reapplies_current_state() {
    let state = WebViewAreaState::new(bounds(10.0, 20.0, 300.0, 200.0)).with_overlay_active(true);
    let mut area = BackendWebViewAreaController::from_controller(
        RecordingController::default(),
        state,
        WebViewAreaPolicy::default(),
    )
    .unwrap();
    assert!(area.status().placement.parked);

    let status = area
        .set_policy(WebViewAreaPolicy::default().with_hide_when_overlay_active(false))
        .unwrap();

    assert!(status.placement.effective_visible);
    assert!(!area.policy().hide_when_overlay_active);
    assert_eq!(
        area.controller().operations(),
        vec!["bounds:1x1", "visible:true", "keyboard:false", "bounds:300x200"]
    );
}

#[test]
fn area_forwards_loads_and_scripts() {
    let state = WebViewAreaState::new(bounds(10.0, 20.0, 300.0, 200.0));
    let mut area = BackendWebViewAreaController::from_controller(
        RecordingController::default(),
        state,
        WebViewAreaPolicy::default(),
    )
    .unwrap();

    area.load_source(WebViewSource::Blank).unwrap();
    area.load_html("<p>x</p>").unwrap();
    area.load_url("https://example.com").unwrap();
    area.evaluate_script("1").unwrap();
    area.release_keyboard_focus().unwrap();

    assert_eq!(
        area.controller().operations()[3..],
        [
            "source:Blank",
            "html:<p>x</p>",
            "url:https://example.com",
            "script:0:1",
            "keyboard:false",
            "focus-parent"
        ]
    );
    assert_eq!(
        BackendWebViewAreaController::<RecordingController>::capabilities().engine_name,
        "test"
    );
}

#[test]
fn hidden_strategies_report_parking_and_visibility() {
    assert!(!HiddenWebViewStrategy::Hide.parks());
    assert!(HiddenWebViewStrategy::Park.parks());
    assert!(HiddenWebViewStrategy::HideAndPark.parks());
    assert!(HiddenWebViewStrategy::Park.native_visible_when_hidden());
    assert!(!HiddenWebViewStrategy::Hide.native_visible_when_hidden());
    assert!(!HiddenWebViewStrategy::HideAndPark.native_visible_when_hidden());
}

#[test]
fn invalid_bounds_may_stay_visible_when_policy_allows_it() {
    let policy = WebViewAreaPolicy::default().with_hide_until_bounds_valid(false);
    let state = WebViewAreaState::new(bounds(1.0, 2.0, 0.0, 4.0));
    let placement = policy.resolve(state);

    assert!(placement.effective_visible);
    assert!(!placement.blocked_by_invalid_bounds);
    assert_eq!(placement.bounds, default_park_bounds());
    assert!(placement.bounds.is_valid());
}

#[test]
fn attach_options_follow_the_initial_placement() {
    let options = WebViewOptions::default()
        .with_focused(true)
        .with_bounds(bounds(1.0, 2.0, 3.0, 4.0));
    let state = WebViewAreaState::new(bounds(10.0, 20.0, 300.0, 200.0));
    let policy = WebViewAreaPolicy::default();

    let placed = policy.placed_options(options.clone(), state);
    assert_eq!(placed.bounds, bounds(10.0, 20.0, 300.0, 200.0));
    assert!(placed.visible);
    assert!(placed.focused);
    assert_eq!(placed.ipc_message_limit, options.ipc_message_limit);

    let hidden = policy.placed_options(options.clone(), state.with_overlay_active(true));
    assert_eq!(hidden.bounds, default_park_bounds());
    assert!(hidden.visible);
    assert!(!hidden.focused);

    let typing = policy.placed_options(options, state.with_shell_focus_active(true));
    assert!(typing.visible);
    assert!(!typing.focused);
}
