use slint_webview::{
    HiddenWebViewStrategy, WebViewAreaPolicy, WebViewAreaState, WebViewBounds,
    default_park_bounds, truncate_ipc_body, NavigationDecision, NavigationPolicy,
};

fn bounds(x: f64, y: f64, width: f64, height: f64) -> WebViewBounds {
    WebViewBounds::from_bits(x.to_bits(), y.to_bits(), width.to_bits(), height.to_bits())
}

#[test]
fn placements_never_carry_invalid_bounds() {
    let weird = [
        bounds(f64::NAN, 0.0, 10.0, 10.0),
        bounds(0.0, 0.0, f64::INFINITY, 10.0),
        bounds(0.0, 0.0, -3.0, 10.0),
        bounds(0.0, 0.0, 10.0, 10.0),
    ];
    let policies = [
        WebViewAreaPolicy::default(),
        WebViewAreaPolicy::default().with_hide_until_bounds_valid(false),
        WebViewAreaPolicy::default()
            .with_park_bounds(bounds(f64::NAN, 0.0, 1.0, 1.0))
            .with_hidden_strategy(HiddenWebViewStrategy::Hide),
    ];
    for policy in policies {
        for area_bounds in weird {
            for overlay in [false, true] {
                let state = WebViewAreaState::new(area_bounds).with_overlay_active(overlay);
                let placement = policy.resolve(state);
                assert!(placement.bounds.is_valid());
                if !placement.effective_visible {
                    assert!(placement.parked || !placement.native_visible);
                }
            }
        }
    }
}

#[test]
fn parking_uses_custom_valid_park_bounds() {
    let park = bounds(5000.0, 5000.0, 2.0, 2.0);
    let policy = WebViewAreaPolicy::default().with_park_bounds(park);
    let state = WebViewAreaState::new(bounds(1.0, 1.0, 10.0, 10.0)).with_requested_visible(false);

    assert_eq!(policy.resolve(state).bounds, park);
    assert_ne!(policy.resolve(state).bounds, default_park_bounds());
}

#[test]
fn scheme_lists_ignore_ascii_case() {
    let lower = NavigationPolicy::AllowSchemes(vec!["https".to_owned()]);
    let upper = NavigationPolicy::AllowSchemes(vec!["HTTPS".to_owned()]);
    for url in ["https://x", "HTTPS://x", "HtTpS:", "http://x"] {
        assert_eq!(lower.decide(url), upper.decide(url));
    }
    assert_eq!(upper.decide("https://x"), NavigationDecision::Allow);
}

#[test]
fn truncated_ipc_body_is_a_prefix_within_the_limit() {
    let body = "añ€😀z";
    for limit in 0..body.len() {
        let (kept, truncated) = truncate_ipc_body(body, limit);
        assert!(truncated);
        assert!(kept.len() <= limit);
        assert!(body.starts_with(&kept));
        let next = body[kept.len()..].chars().next().unwrap();
        assert!(kept.len() + next.len_utf8() > limit);
    }
}
