use cnb_cli::error::ClientError;
use cnb_cli::paths::{pagination_params, repo_segments, slug_segments, QueryParam};
use cnb_cli::text::{char_is_whitespace, i64_to_decimal, join, pad_right, trim, trim_end_char, u64_to_decimal};

#[test]
fn slug_segments_drops_empty_parts() {
    assert_eq!(slug_segments("//owner///repo//").unwrap(), vec!["owner", "repo"]);
    assert_eq!(slug_segments("group/sub/repo").unwrap(), vec!["group", "sub", "repo"]);
}

#[test]
fn slug_segments_error_names_the_slug() {
    assert_eq!(slug_segments("/only/"), Err(ClientError::InvalidSlug("/only/".to_string())));
    assert_eq!(slug_segments(""), Err(ClientError::InvalidSlug(String::new())));
    let err = slug_segments("x").unwrap_err();
    assert_eq!(err.message(), "invalid repository slug: x");
}

#[test]
fn slug_segments_are_non_empty_and_slash_free() {
    for slug in ["a/b", "/a//b/", "a/b/c/d", "\u{4e2d}/\u{6587}"] {
        for seg in slug_segments(slug).unwrap() {
            assert!(!seg.is_empty());
            assert!(!seg.contains('/'));
        }
    }
}

#[test]
fn repo_segments_match_slug_segments() {
    assert_eq!(repo_segments("o/r").unwrap(), slug_segments("o/r").unwrap());
    assert!(repo_segments("o").is_err());
}

#[test]
fn pagination_params_keep_given_values_in_order() {
    assert_eq!(pagination_params(None, None), vec![]);
    assert_eq!(
        pagination_params(Some(2), Some(50)),
        vec![QueryParam { name: "page", value: 2 }, QueryParam { name: "page_size", value: 50 }]
    );
    assert_eq!(pagination_params(None, Some(7)), vec![QueryParam { name: "page_size", value: 7 }]);
    assert_eq!(pagination_params(Some(3), None), vec![QueryParam { name: "page", value: 3 }]);
}

#[test]
fn trim_removes_unicode_whitespace() {
    assert_eq!(trim("  a b \n"), "a b");
    assert_eq!(trim("\u{3000}x\u{85}\u{2028}"), "x");
    assert_eq!(trim(" \t\r\n"), "");
    assert_eq!(trim("\u{200b}x"), "\u{200b}x");
}

#[test]
fn trim_end_char_removes_only_the_trailing_run() {
    assert_eq!(trim_end_char("/a/b//", '/'), "/a/b");
    assert_eq!(trim_end_char("///", '/'), "");
    assert_eq!(trim_end_char("abc", '/'), "abc");
}

#[test]
fn pad_right_fills_to_width_in_characters() {
    assert_eq!(pad_right("ab", 4), "ab  ");
    assert_eq!(pad_right("abcdef", 4), "abcdef");
    assert_eq!(pad_right("\u{e9}", 3), "\u{e9}  ");
    assert_eq!(pad_right("ab", 4), format!("{:<4}", "ab"));
}

#[test]
fn decimal_rendering_matches_display() {
    for n in [0i64, 7, 10, -1, -42, 1234567890, i64::MAX, i64::MIN] {
        assert_eq!(i64_to_decimal(n), n.to_string());
    }
    for n in [0u64, 9, 8388608, u64::MAX] {
        assert_eq!(u64_to_decimal(n), n.to_string());
    }
}

#[test]
fn join_puts_separator_between_items() {
    let lines = vec!["a".to_string(), "b".to_string(), "c".to_string()];
    assert_eq!(join(&lines, "\n"), "a\nb\nc");
    assert_eq!(join(&vec![], "\n"), "");
    assert_eq!(join(&vec!["x".to_string()], ", "), "x");
}

#[test]
fn whitespace_test_matches_std() {
    for u in 0u32..0x3100 {
        if let Some(c) = char::from_u32(u) {
            assert_eq!(char_is_whitespace(c), c.is_whitespace(), "U+{:04X}", u);
        }
    }
    assert!(!char_is_whitespace('\u{feff}'));
}
