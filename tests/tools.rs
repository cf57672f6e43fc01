use ribir_state::changelog_entry::{extract_block, get_arg, parse_conventional_head, SectionKind, MARKER_END, MARKER_START};
use ribir_state::release::ReleaseLevel;
use ribir_state::highlights::{
    extract_highlights_from_pr_body, extract_version_section, format_highlights, insert_highlights_text,
    update_pr_body_highlights, Highlight, HighlightsError,
};
use ribir_state::pr_body::{
    build_prompt, extract_json, format_commits, replace_changelog_section, sanitize_markdown, sanitize_response,
    truncate, update_pr_body, Commit, GeminiResponse, Mode, PrView, ResponseError, CHANGELOG_PLACEHOLDER, SKIP_CHANGELOG_CHECKED, SUMMARY_PLACEHOLDER,
};

#[test]
fn test_section_parsing() {
    assert_eq!(SectionKind::from_str("feat"), Some(SectionKind::Features));
    assert_eq!(SectionKind::from_str("fix"), Some(SectionKind::Fixed));
    assert_eq!(SectionKind::from_str("unknown"), None);
}

#[test]
fn section_parsing_trims_and_lowercases() {
    assert_eq!(SectionKind::from_str("  PERF "), Some(SectionKind::Performance));
    assert_eq!(SectionKind::from_str("Chore"), Some(SectionKind::Internal));
    assert_eq!(SectionKind::from_str("docs"), Some(SectionKind::Documentation));
    assert_eq!(SectionKind::from_str("Break"), Some(SectionKind::Breaking));
    assert_eq!(SectionKind::from_str("changed"), Some(SectionKind::Changed));
    assert_eq!(SectionKind::from_str(""), None);
}

#[test]
fn section_headers() {
    assert_eq!(SectionKind::Features.header(), "### 🎨 Features");
    assert_eq!(SectionKind::Performance.header(), "### ⚡ Performance");
    assert_eq!(SectionKind::Internal.header(), "### 🔧 Internal");
}

#[test]
fn test_conventional_head() {
    let (k, d) = parse_conventional_head("feat(ui): Add items").unwrap();
    assert_eq!(k, SectionKind::Features);
    assert_eq!(d, "Add items");
}

#[test]
fn conventional_head_without_type() {
    assert!(parse_conventional_head("no colon here").is_none());
    assert!(parse_conventional_head("misc: something").is_none());
    let (k, d) = parse_conventional_head("fix:   spaced  ").unwrap();
    assert_eq!(k, SectionKind::Fixed);
    assert_eq!(d, "spaced");
}

#[test]
fn test_extract_block() {
    let msg = format!("foo\n{}\n- feat: bar\n{}\nbaz", MARKER_START, MARKER_END);
    assert_eq!(extract_block(&msg).unwrap(), "- feat: bar");
}

#[test]
fn extract_block_needs_ordered_markers() {
    let msg = format!("{}\n- feat: bar\n{}", MARKER_END, MARKER_START);
    assert!(extract_block(&msg).is_none());
    assert!(extract_block("nothing").is_none());
}

#[test]
fn test_update_pr_body() {
    let body = "## Summary\n> 🤖 *Leave this placeholder to let AI generate, or replace with your \
                summary.*\n\n## Changelog\n> 🤖 *Leave this placeholder to let AI generate, or \
                replace with your entries:*\n>\n> ```\n> - feat(widgets): add Tooltip\n> \
                ```\n\nOther content";
    let response = GeminiResponse {
        summary: "Fixed a bug.".into(),
        changelog: "- fix(core): fix crash".into(),
        skip_changelog: false,
    };

    let updated = update_pr_body(body, &response, true, true);
    assert!(updated.contains("Fixed a bug."));
    assert!(updated.contains("- fix(core): fix crash"));
    assert!(!updated.contains("Tooltip"));
    assert!(!updated.contains("placeholder"));
    assert!(updated.contains("Other content"));
}

#[test]
fn update_pr_body_between_markers_and_skip() {
    let body = "intro <!-- RIBIR_CHANGELOG_START -->old<!-- RIBIR_CHANGELOG_END --> outro";
    let response = GeminiResponse { summary: "S".into(), changelog: "- feat: x".into(), skip_changelog: true };
    let updated = update_pr_body(body, &response, false, true);
    assert_eq!(
        updated,
        format!(
            "intro <!-- RIBIR_CHANGELOG_START -->\n\n{}\n\n<!-- RIBIR_CHANGELOG_END --> outro",
            SKIP_CHANGELOG_CHECKED
        )
    );
    assert_eq!(replace_changelog_section("plain body", "- feat: x", false), "plain body");
    let only_placeholder = format!("a {} b", CHANGELOG_PLACEHOLDER);
    assert_eq!(replace_changelog_section(&only_placeholder, "- feat: x", false), "a - feat: x b");
}

#[test]
fn test_truncate() {
    let mut s = "hello world".to_string();
    truncate(&mut s, 5, "...");
    assert_eq!(s, "hello...");
}

#[test]
fn truncate_counts_bytes_and_keeps_short_strings() {
    let mut s = "short".to_string();
    truncate(&mut s, 5, "...");
    assert_eq!(s, "short");
    let mut e = "éé".to_string();
    truncate(&mut e, 3, "!");
    assert_eq!(e, "éé!");
}

#[test]
fn test_mode_needs() {
    let body_with_both = format!("{}\n{}", SUMMARY_PLACEHOLDER, CHANGELOG_PLACEHOLDER);
    assert_eq!(Mode::Auto.needs(&body_with_both), (true, true));
    assert_eq!(Mode::Auto.needs("no placeholders"), (false, false));
    assert_eq!(Mode::RegenerateAll(None).needs(""), (true, true));
    assert_eq!(Mode::SummaryOnly(None).needs(""), (true, false));
    assert_eq!(Mode::ChangelogOnly(None).needs(""), (false, true));
}

#[test]
fn mode_context() {
    assert_eq!(Mode::Auto.context(), None);
    assert_eq!(Mode::SummaryOnly(Some("ctx".to_string())).context(), Some(&"ctx".to_string()));
    assert_eq!(Mode::ChangelogOnly(None).context(), None);
}

#[test]
fn test_format_highlights() {
    let highlights = vec![
        Highlight { emoji: "⚡".into(), description: "50% faster rendering".into() },
        Highlight { emoji: "🎨".into(), description: "Dark mode support".into() },
    ];
    let result = format_highlights(&highlights);
    assert!(result.contains("**Highlights:**"));
    assert!(result.contains("- ⚡ 50% faster rendering"));
    assert!(result.contains("- 🎨 Dark mode support"));
}

#[test]
fn format_highlights_exact() {
    let highlights = vec![Highlight { emoji: "🐛".into(), description: "Fixed leak".into() }];
    assert_eq!(format_highlights(&highlights), "**Highlights:**\n- 🐛 Fixed leak\n");
    assert_eq!(format_highlights(&[]), "**Highlights:**\n");
}

#[test]
fn test_extract_version_section() {
    let changelog = r#"## [0.5.0-rc.1] - 2025-01-15

### Features
- feat: something new

### Fixed
- fix: some bug

## [0.4.0] - 2025-01-01

### Features
- feat: old stuff
"#;
    let section = extract_version_section(changelog, "0.5.0-rc.1").unwrap();
    assert!(section.contains("feat: something new"));
    assert!(section.contains("fix: some bug"));
    assert!(!section.contains("feat: old stuff"));
}

#[test]
fn extract_version_section_escaped() {
    let changelog = "## \\[1.0.0\\] - d\n- a \\[x\\]\n## \\[0.9.0\\]\n- b";
    assert_eq!(extract_version_section(changelog, "1.0.0").unwrap(), "## [1.0.0] - d\n- a [x]");
    assert!(extract_version_section(changelog, "2.0.0").is_none());
}

#[test]
fn test_extract_highlights_from_pr_body() {
    let body = r#"## Release PR

Some description here.

<!-- HIGHLIGHTS_START -->
**Highlights:**
- ⚡ 50% faster rendering
- 🎨 Dark mode support
- 🐛 Fixed memory leak
<!-- HIGHLIGHTS_END -->

More stuff below.
"#;
    let highlights = extract_highlights_from_pr_body(body).unwrap();
    assert!(highlights.contains("**Highlights:**"));
    assert!(highlights.contains("⚡ 50% faster rendering"));
    assert!(highlights.contains("🎨 Dark mode support"));
    assert!(highlights.contains("🐛 Fixed memory leak"));
}

#[test]
fn test_extract_highlights_from_pr_body_no_markers() {
    let body = "No markers here";
    assert!(extract_highlights_from_pr_body(body).is_none());
}

#[test]
fn extract_highlights_blank_section() {
    let body = "<!-- HIGHLIGHTS_START -->  \n <!-- HIGHLIGHTS_END -->";
    assert!(extract_highlights_from_pr_body(body).is_none());
}

#[test]
fn test_update_pr_body_highlights() {
    let body = r#"## Release PR

Some description here.

<!-- HIGHLIGHTS_START -->
Old content
<!-- HIGHLIGHTS_END -->

More stuff below.
"#;
    let new_content = "**Highlights:**\n- 🚀 New";
    let updated = update_pr_body_highlights(body, new_content).unwrap();

    assert!(updated.contains("<!-- HIGHLIGHTS_START -->"));
    assert!(updated.contains("<!-- HIGHLIGHTS_END -->"));
    assert!(updated.contains(new_content));
    assert!(!updated.contains("Old content"));
    assert!(extract_highlights_from_pr_body(&updated).unwrap().contains("🚀 New"));
}

#[test]
fn update_pr_body_highlights_errors() {
    assert_eq!(update_pr_body_highlights("x", "y"), Err(HighlightsError::MissingStartMarker));
    assert_eq!(
        update_pr_body_highlights("<!-- HIGHLIGHTS_START -->", "y"),
        Err(HighlightsError::MissingEndMarker)
    );
    assert_eq!(
        update_pr_body_highlights("<!-- HIGHLIGHTS_END --><!-- HIGHLIGHTS_START -->", "y"),
        Err(HighlightsError::InvalidMarkers)
    );
    assert_eq!(HighlightsError::InvalidMarkers.message(), "Invalid highlight markers in PR body");
}

#[test]
fn insert_highlights_after_header() {
    let changelog = "# Changelog\n\n## [0.5.0] - 2025-02-01\n### Features\n";
    let updated = insert_highlights_text(changelog, "0.5.0", "**Highlights:**").unwrap();
    assert_eq!(updated, "# Changelog\n\n## [0.5.0] - 2025-02-01\n\n**Highlights:**\n### Features\n");
    let escaped = "## \\[0.5.0\\]";
    assert_eq!(insert_highlights_text(escaped, "0.5.0", "H").unwrap(), "## \\[0.5.0\\]\n\nH");
    assert_eq!(insert_highlights_text(changelog, "9.9.9", "H"), Err(HighlightsError::VersionHeaderNotFound));
}

#[test]
fn test_sanitize_markdown() {
    let input = "Normal\n<script>alert('xss')</script>\nOK";
    let result = sanitize_markdown(input);
    assert!(!result.contains("<script"));
    assert!(result.contains("Normal"));
    assert!(result.contains("OK"));
}

#[test]
fn sanitize_markdown_exact() {
    assert_eq!(sanitize_markdown("a\r\n<IFRAME src=x>\nJavaScript:alert(1)\nb\n"), "a\nb");
    assert_eq!(sanitize_markdown(""), "");
}

#[test]
fn test_sanitize_response_valid() {
    let response = GeminiResponse {
        summary: "New feature".into(),
        changelog: "- feat(core): add".into(),
        skip_changelog: false,
    };
    assert!(sanitize_response(response).is_ok());
}

#[test]
fn test_sanitize_response_empty_summary() {
    let response = GeminiResponse { summary: "   ".into(), changelog: "- feat: x".into(), skip_changelog: false };
    assert!(sanitize_response(response).is_err());
}

#[test]
fn test_sanitize_response_invalid_changelog() {
    let response = GeminiResponse { summary: "OK".into(), changelog: "no bullets".into(), skip_changelog: false };
    assert!(sanitize_response(response).is_err());
}

#[test]
fn sanitize_response_errors_and_truncation() {
    let response = GeminiResponse { summary: " \n ".into(), changelog: String::new(), skip_changelog: true };
    assert_eq!(sanitize_response(response).unwrap_err(), ResponseError::EmptySummary);
    let response = GeminiResponse { summary: "S".into(), changelog: "x\n y".into(), skip_changelog: false };
    assert_eq!(sanitize_response(response).unwrap_err(), ResponseError::InvalidChangelogFormat);
    let response = GeminiResponse { summary: "S".into(), changelog: String::new(), skip_changelog: true };
    assert!(sanitize_response(response).is_ok());
    let long = "x".repeat(1001);
    let response = GeminiResponse { summary: long, changelog: "  - fix: y".into(), skip_changelog: false };
    let out = sanitize_response(response).unwrap();
    assert_eq!(out.summary, format!("{}...", "x".repeat(1000)));
    assert_eq!(out.changelog, "  - fix: y");
}

#[test]
fn commits_are_formatted_one_line_each() {
    assert_eq!(format_commits(&[]), "(No commits found)");
    let commits = vec![
        Commit { message_headline: "feat: a".into(), message_body: String::new() },
        Commit { message_headline: "fix: b".into(), message_body: "line1\nline2".into() },
    ];
    assert_eq!(format_commits(&commits), "- feat: a\n- fix: b\n  line1\n  line2");
}

#[test]
fn prompt_fills_the_template() {
    let pr = PrView { title: "Title X".into(), body: "Body Y".into() };
    let prompt = build_prompt(&pr, "- c1", None);
    assert!(prompt.starts_with("You are a helpful assistant"));
    assert!(prompt.contains("PR Title: Title X\nPR Description:\nBody Y\n\nCommits:\n- c1\n"));
    assert!(!prompt.contains("{title}"));
    let with_ctx = build_prompt(&pr, "- c1", Some("extra"));
    assert_eq!(with_ctx, format!("ADDITIONAL CONTEXT FROM USER:\nextra\n\n{}", prompt));
}

#[test]
fn json_is_cut_from_the_answer() {
    assert_eq!(extract_json("noise {\"a\": {\"b\": 1}} tail").unwrap(), "{\"a\": {\"b\": 1}}");
    assert!(extract_json("no braces").is_none());
    assert!(extract_json("} before {").is_none());
}

#[test]
fn arguments_follow_their_flag() {
    let args: Vec<String> = vec!["bot".into(), "collect".into(), "--version".into(), "1.0.0".into(), "--date".into()];
    assert_eq!(get_arg(&args, "--version"), Some(&"1.0.0".to_string()));
    assert_eq!(get_arg(&args, "--date"), None);
    assert_eq!(get_arg(&args, "--write"), None);
}

#[test]
fn release_level_names() {
    assert_eq!(ReleaseLevel::Alpha.as_str(), "alpha");
    assert_eq!(ReleaseLevel::Rc.as_str(), "rc");
    assert_eq!(ReleaseLevel::Major.as_str(), "major");
    assert!(ReleaseLevel::Rc.is_prerelease());
    assert!(!ReleaseLevel::Patch.is_prerelease());
}
