use slint_webview::fixture::FIXTURE_READY_TOKEN;
use slint_webview::regression::{
    HarnessFocusReaction, event_status, harness_focus_step, initial_webview_ready_to_reveal,
    is_webview_activity_event, should_show_webview, smoke_probe_succeeded, text_contains,
    visibility_status,
};
use slint_webview::{NavigationDecision, ScriptRequestId, WebViewEvent};

#[test]
fn webview_shows_only_when_requested_and_no_modal() {
    assert!(should_show_webview(true, false));
    assert!(!should_show_webview(true, true));
    assert!(!should_show_webview(false, false));
}

#[test]
fn initial_reveal_waits_for_load_or_ready_title() {
    assert!(initial_webview_ready_to_reveal(
        &WebViewEvent::NavigationFinished {
            url: "about:blank".to_owned()
        }
    ));
    assert!(initial_webview_ready_to_reveal(&WebViewEvent::TitleChanged {
        title: format!("page {FIXTURE_READY_TOKEN} loaded"),
    }));
    assert!(!initial_webview_ready_to_reveal(&WebViewEvent::TitleChanged {
        title: "loading".to_owned(),
    }));
    assert!(!initial_webview_ready_to_reveal(
        &WebViewEvent::NavigationRequested {
            url: "x:y".to_owned(),
            decision: NavigationDecision::Allow,
        }
    ));
}

fn ipc(body: &str, truncated: bool) -> WebViewEvent {
    WebViewEvent::IpcMessage {
        uri: "about:blank".to_owned(),
        body: body.to_owned(),
        truncated,
    }
}

#[test]
fn activity_events_are_fixture_ipc_messages() {
    let activity = format!(
        "{{\"source\":\"fixture\",\"kind\":\"activity\",\"token\":\"{FIXTURE_READY_TOKEN}\"}}"
    );
    assert!(is_webview_activity_event(&ipc(&activity, false)));
    assert!(!is_webview_activity_event(&ipc(&activity, true)));
    let ready = format!(
        "{{\"source\":\"fixture\",\"kind\":\"ready\",\"token\":\"{FIXTURE_READY_TOKEN}\"}}"
    );
    assert!(!is_webview_activity_event(&ipc(&ready, false)));
    assert!(!is_webview_activity_event(&ipc(
        "{\"source\":\"fixture\",\"kind\":\"activity\",\"token\":\"other\"}",
        false
    )));
    assert!(!is_webview_activity_event(&ipc("not json", false)));
    assert!(!is_webview_activity_event(&WebViewEvent::FocusRequested));
}

#[test]
fn text_search_finds_substrings() {
    assert!(text_contains("abcdef", "cde"));
    assert!(text_contains("abc", ""));
    assert!(text_contains("", ""));
    assert!(!text_contains("abc", "abcd"));
    assert!(!text_contains("abcabd", "abe"));
    assert!(text_contains("aéb", "éb"));
}

#[test]
fn event_status_lines_describe_each_event() {
    let url = || "https://example.com/".to_owned();
    assert_eq!(
        event_status(&WebViewEvent::NavigationStarted { url: url() }, false),
        "loading https://example.com/"
    );
    assert_eq!(
        event_status(&WebViewEvent::NavigationFinished { url: url() }, false),
        "loaded https://example.com/"
    );
    assert_eq!(
        event_status(
            &WebViewEvent::NavigationRequested {
                url: url(),
                decision: NavigationDecision::OpenExternal,
            },
            false
        ),
        "navigation requested https://example.com/: OpenExternal"
    );
    assert_eq!(event_status(&ipc("{}", false), false), "ipc {}");
    assert_eq!(
        event_status(&WebViewEvent::TitleChanged { title: "T".to_owned() }, false),
        "title T"
    );
    assert_eq!(
        event_status(&WebViewEvent::FocusRequested, false),
        "webview focus requested by click"
    );
    assert_eq!(
        event_status(&WebViewEvent::FocusChanged { focused: true }, false),
        "webview native focus: true"
    );
    let result = WebViewEvent::ScriptResult {
        request_id: ScriptRequestId(1),
        value: "42".to_owned(),
    };
    assert_eq!(event_status(&result, false), "probe 42");
    assert_eq!(event_status(&result, true), "smoke probe returned fixture state");
    assert_eq!(
        event_status(
            &WebViewEvent::NewWindowRequested {
                url: url(),
                allowed: false,
            },
            false
        ),
        "new window https://example.com/: allowed=false"
    );
    assert_eq!(
        event_status(
            &WebViewEvent::DownloadRequested {
                url: url(),
                suggested_path: None,
                allowed: true,
            },
            false
        ),
        "download https://example.com/: allowed=true"
    );
    assert_eq!(
        event_status(
            &WebViewEvent::DownloadFinished {
                url: url(),
                path: None,
                success: false,
            },
            false
        ),
        "download finished https://example.com/: success=false"
    );
}

#[test]
fn visibility_status_lines_name_the_outcome() {
    assert_eq!(visibility_status("toggle", true, false), "toggle: webview shown");
    assert_eq!(
        visibility_status("modal", false, true),
        "modal: webview parked for modal"
    );
    assert_eq!(visibility_status("toggle", false, false), "toggle: webview hidden");
}

fn reaction(claimed: bool) -> HarnessFocusReaction {
    HarnessFocusReaction {
        webview_claimed: claimed,
        release_shell_focus: false,
        set_keyboard_focus: None,
        focus_webview: false,
        repair_native_focus: false,
    }
}

#[test]
fn harness_hands_typing_to_the_webview_on_activity_and_focus_requests() {
    let activity = format!(
        "{{\"source\":\"fixture\",\"kind\":\"activity\",\"token\":\"{FIXTURE_READY_TOKEN}\"}}"
    );
    assert_eq!(
        harness_focus_step(false, true, &ipc(&activity, false)),
        HarnessFocusReaction {
            release_shell_focus: true,
            ..reaction(true)
        }
    );
    assert_eq!(
        harness_focus_step(false, true, &WebViewEvent::FocusRequested),
        HarnessFocusReaction {
            release_shell_focus: true,
            set_keyboard_focus: Some(true),
            focus_webview: true,
            ..reaction(true)
        }
    );
    assert_eq!(harness_focus_step(true, false, &ipc("{}", false)), reaction(true));
}

#[test]
fn harness_keeps_or_repairs_native_focus() {
    let gained = WebViewEvent::FocusChanged { focused: true };
    assert_eq!(
        harness_focus_step(true, false, &gained),
        HarnessFocusReaction {
            set_keyboard_focus: Some(true),
            ..reaction(true)
        }
    );
    assert_eq!(
        harness_focus_step(false, false, &gained),
        HarnessFocusReaction {
            repair_native_focus: true,
            ..reaction(false)
        }
    );
    let lost = WebViewEvent::FocusChanged { focused: false };
    assert_eq!(
        harness_focus_step(true, true, &lost),
        HarnessFocusReaction {
            set_keyboard_focus: Some(false),
            ..reaction(false)
        }
    );
    assert_eq!(harness_focus_step(true, false, &lost), reaction(false));
}

#[test]
fn smoke_succeeds_on_a_ready_probe_result() {
    let result = |value: String| WebViewEvent::ScriptResult {
        request_id: ScriptRequestId(3),
        value,
    };
    assert!(smoke_probe_succeeded(&result(format!(
        "{{\"ready\":\"{FIXTURE_READY_TOKEN}\"}}"
    ))));
    assert!(!smoke_probe_succeeded(&result("{}".to_owned())));
    assert!(!smoke_probe_succeeded(&WebViewEvent::TitleChanged {
        title: FIXTURE_READY_TOKEN.to_owned(),
    }));
}
