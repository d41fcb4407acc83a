use gxi::{draw_flag_or_default, monospace_font_or_default, theme_or_default, XiConfig};

#[test]
fn default_config_values() {
    let c = XiConfig::with_font_face("Source Code Pro 11".to_string());
    assert_eq!(c.tab_size, 4);
    assert!(!c.translate_tabs_to_spaces);
    assert!(c.use_tab_stops);
    assert_eq!(c.plugin_search_path, vec![String::new()]);
    assert_eq!(c.font_face, "Source Code Pro 11");
    assert_eq!(c.font_size, 12);
    assert!(c.auto_indent);
    assert!(!c.scroll_past_end);
    assert_eq!(c.wrap_width, 0);
    assert!(!c.word_wrap);
    assert!(c.autodetect_whitespace);
    assert_eq!(c.line_ending, "\n");
    let pairs: Vec<Vec<&str>> = c
        .surrounding_pairs
        .iter()
        .map(|p| p.iter().map(|s| s.as_str()).collect())
        .collect();
    assert_eq!(
        pairs,
        vec![vec!["\"", "\""], vec!["'", "'"], vec!["{", "}"], vec!["[", "]"]]
    );
}

#[test]
fn schema_fallbacks() {
    assert_eq!(theme_or_default(None), "InspiredGitHub");
    assert_eq!(theme_or_default(Some("Solarized".to_string())), "Solarized");
    assert_eq!(monospace_font_or_default(None), "Monospace");
    assert_eq!(monospace_font_or_default(Some("Hack 10".to_string())), "Hack 10");
    assert!(!draw_flag_or_default(None));
    assert!(draw_flag_or_default(Some(true)));
    assert!(!draw_flag_or_default(Some(false)));
}
