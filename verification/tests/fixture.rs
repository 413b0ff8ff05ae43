use slint_webview::fixture::{FIXTURE_READY_TOKEN, fixture_html, fixture_state_script};

#[test]
fn fixture_contains_ready_token_and_probe_api() {
    let html = fixture_html();

    assert!(html.contains(FIXTURE_READY_TOKEN));
    assert!(html.contains("__slintWebViewTest"));
}

#[test]
fn fixture_state_script_reads_probe_state() {
    assert_eq!(
        fixture_state_script(),
        "JSON.stringify(window.__slintWebViewTest.state())"
    );
}
