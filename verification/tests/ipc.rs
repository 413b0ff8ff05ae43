use slint_webview::truncate_ipc_body;

#[test]
fn ipc_truncation_preserves_utf8_boundaries() {
    let (body, truncated) = truncate_ipc_body("aéz", 2);

    assert_eq!(body, "a");
    assert!(truncated);
}

#[test]
fn ipc_bodies_within_the_limit_are_kept() {
    assert_eq!(truncate_ipc_body("aéz", 4), ("aéz".to_owned(), false));
    assert_eq!(truncate_ipc_body("", 0), (String::new(), false));
    assert_eq!(truncate_ipc_body("aéz", 3), ("aé".to_owned(), true));
    assert_eq!(truncate_ipc_body("éé", 1), (String::new(), true));
    assert_eq!(truncate_ipc_body("abc", 0), (String::new(), true));
}
