use cnb_cli::response::{
    auth_hint, failure_message, is_success, render_build_logs, status_text, summarize_body,
    text_size_error, AUTH_HINT,
};

#[test]
fn success_is_the_200_range() {
    assert!(is_success(200));
    assert!(is_success(204));
    assert!(is_success(299));
    assert!(!is_success(199));
    assert!(!is_success(300));
    assert!(!is_success(404));
}

#[test]
fn auth_hint_only_for_401_and_403() {
    assert_eq!(auth_hint(401), Some(AUTH_HINT));
    assert_eq!(auth_hint(403), Some(AUTH_HINT));
    assert_eq!(auth_hint(404), None);
    assert_eq!(auth_hint(500), None);
}

#[test]
fn status_text_is_code_and_reason() {
    assert_eq!(status_text(404), "404 Not Found");
    assert_eq!(status_text(401), "401 Unauthorized");
    assert_eq!(status_text(599), "599 <unknown status code>");
    assert_eq!(status_text(200), reqwest::StatusCode::OK.to_string());
}

#[test]
fn summarize_body_trims_and_truncates() {
    assert_eq!(summarize_body(""), "");
    assert_eq!(summarize_body("  \n\t "), "");
    assert_eq!(summarize_body("  oops \n"), "oops");
    let long = "a".repeat(3000);
    let expected = format!("{}\u{2026}(truncated)", "a".repeat(2048));
    assert_eq!(summarize_body(&long), expected);
    let exact = "b".repeat(2048);
    assert_eq!(summarize_body(&exact), exact);
}

#[test]
fn summarize_body_counts_bytes() {
    // 1024 two-byte characters are exactly 2048 bytes: kept whole.
    let wide = "\u{e9}".repeat(1024);
    assert_eq!(summarize_body(&wide), wide);
    // One more character crosses the limit on a boundary.
    let wider = "\u{e9}".repeat(1025);
    assert_eq!(summarize_body(&wider), format!("{}\u{2026}(truncated)", "\u{e9}".repeat(1024)));
}

#[test]
fn failure_message_layout() {
    assert_eq!(
        failure_message("get repo", 404, "https://api.cnb.cool/o/r", "  not here  "),
        "get repo failed: 404 Not Found https://api.cnb.cool/o/r\nnot here"
    );
    assert_eq!(
        failure_message("get current user", 401, "https://x/user", ""),
        format!("get current user failed: 401 Unauthorized https://x/user\n{}", AUTH_HINT)
    );
    assert_eq!(
        failure_message("list repos", 403, "u", "denied"),
        format!("list repos failed: 403 Forbidden u\n{}\ndenied", AUTH_HINT)
    );
    assert_eq!(failure_message("a", 500, "u", " "), "a failed: 500 Internal Server Error u");
}

#[test]
fn text_size_limit() {
    assert_eq!(text_size_error("get build logs", None), None);
    assert_eq!(text_size_error("get build logs", Some(8388608)), None);
    assert_eq!(
        text_size_error("get build logs", Some(8388609)).unwrap(),
        "get build logs response too large: 8388609 bytes (limit: 8388608 bytes)"
    );
}

#[test]
fn build_logs_join_lines_or_keep_raw_text() {
    let content = vec!["line 1".to_string(), "line 2".to_string()];
    assert_eq!(render_build_logs(Some(content), "raw".to_string()), "line 1\nline 2");
    assert_eq!(render_build_logs(Some(vec![]), "raw".to_string()), "");
    assert_eq!(render_build_logs(None, "raw text".to_string()), "raw text");
}

#[test]
fn summarizing_a_summary_keeps_it() {
    for body in ["  oops \n", "", "\u{3000}x\u{85}", "short"] {
        let once = summarize_body(body);
        assert_eq!(summarize_body(&once), once);
    }
}
