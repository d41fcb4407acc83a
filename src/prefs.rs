use vstd::prelude::*;

verus! {

/// The editor settings written to the backend's configuration file.
pub struct XiConfig {
    pub tab_size: u32,
    pub translate_tabs_to_spaces: bool,
    pub use_tab_stops: bool,
    pub plugin_search_path: Vec<String>,
    pub font_face: String,
    pub font_size: u32,
    pub auto_indent: bool,
    pub scroll_past_end: bool,
    pub wrap_width: u32,
    pub word_wrap: bool,
    pub autodetect_whitespace: bool,
    pub line_ending: String,
    pub surrounding_pairs: Vec<Vec<String>>,
}

/// The text of a list of strings.
pub open spec fn texts(v: Seq<String>) -> Seq<Seq<char>> {
    v.map_values(|s: String| s@)
}

/// The text of a list of string pairs.
pub open spec fn pair_texts(v: Seq<Vec<String>>) -> Seq<Seq<Seq<char>>> {
    v.map_values(|p: Vec<String>| texts(p@))
}

/// The characters that are closed automatically, as opening and closing text.
pub open spec fn default_pairs() -> Seq<Seq<Seq<char>>> {
    seq![
        seq!["\""@, "\""@],
        seq!["'"@, "'"@],
        seq!["{"@, "}"@],
        seq!["["@, "]"@],
    ]
}

/// A two-element list holding `open` and `close`.
fn pair(open: &str, close: &str) -> (r: Vec<String>)
    ensures
        texts(r@) == seq![open@, close@],
{
    let r = vec![open.to_owned(), close.to_owned()];
    assert(texts(r@) =~= seq![open@, close@]);
    r
}

impl XiConfig {
    /// The default settings, with `font_face` as the font.
    pub fn with_font_face(font_face: String) -> (r: XiConfig)
        ensures
            r.tab_size == 4,
            !r.translate_tabs_to_spaces,
            r.use_tab_stops,
            texts(r.plugin_search_path@) == seq![Seq::<char>::empty()],
            r.font_face == font_face,
            r.font_size == 12,
            r.auto_indent,
            !r.scroll_past_end,
            r.wrap_width == 0,
            !r.word_wrap,
            r.autodetect_whitespace,
            r.line_ending@ == "\n"@,
            pair_texts(r.surrounding_pairs@) == default_pairs(),
    {
        let surrounding_pairs = vec![pair("\"", "\""), pair("'", "'"), pair("{", "}"), pair("[", "]")];
        let plugin_search_path = vec![String::new()];
        proof {
            assert(pair_texts(surrounding_pairs@) =~= default_pairs());
            assert(texts(plugin_search_path@) =~= seq![Seq::<char>::empty()]);
        }
        XiConfig {
            tab_size: 4,
            translate_tabs_to_spaces: false,
            use_tab_stops: true,
            plugin_search_path,
            font_face,
            font_size: 12,
            auto_indent: true,
            scroll_past_end: false,
            wrap_width: 0,
            word_wrap: false,
            autodetect_whitespace: true,
            line_ending: "\n".to_owned(),
            surrounding_pairs,
        }
    }
}

/// The theme stored in the settings schema, or `InspiredGitHub` where the
/// schema or the key could not be found.
pub fn theme_or_default(found: Option<String>) -> (r: String)
    ensures
        r@ == match found {
            Some(t) => t@,
            None => "InspiredGitHub"@,
        },
{
    match found {
        Some(t) => t,
        None => "InspiredGitHub".to_owned(),
    }
}

/// The desktop's monospace font, or `Monospace` where the schema or the key
/// could not be found.
pub fn monospace_font_or_default(found: Option<String>) -> (r: String)
    ensures
        r@ == match found {
            Some(f) => f@,
            None => "Monospace"@,
        },
{
    match found {
        Some(f) => f,
        None => "Monospace".to_owned(),
    }
}

/// A drawing switch from the settings schema, off where the schema could
/// not be found.
pub fn draw_flag_or_default(found: Option<bool>) -> (r: bool)
    ensures
        r == (found == Some(true)),
{
    match found {
        Some(b) => b,
        None => false,
    }
}

} // verus!
