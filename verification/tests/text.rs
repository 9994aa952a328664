use trove::text::normalize_title_for_match;

#[test]
fn title_normalization_strips_wrapper_punctuation_only() {
    assert_eq!(normalize_title_for_match("《整理报销票据》"), "整理报销票据");
    assert_eq!(
        normalize_title_for_match("  \u{201c}报销 流程\u{201d}  "),
        "报销 流程"
    );
    assert_eq!(normalize_title_for_match("「周会」"), "周会");
    assert_eq!(normalize_title_for_match("plain title"), "plain title");
    // Empty inner content is NOT unwrapped (anti-fabrication).
    assert_eq!(normalize_title_for_match("《》"), "《》");
}

#[test]
fn title_normalization_peels_nested_wrappers_and_collapses_spaces() {
    assert_eq!(normalize_title_for_match(" 《 「a   b」 》 "), "a b");
    assert_eq!(normalize_title_for_match("\"'x'\""), "x");
    assert_eq!(normalize_title_for_match("\"\""), "\"\"");
}
