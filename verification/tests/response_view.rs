use tome::response_view::{
    clear_highlights, filter_indexes, highlight_matches, truncate_line, Color, FilterOutcome, Line,
    ResponseKeyAction, ResponseRenderer, ResponseRendererState, ScrollDirection, TextFilter,
};
use tome::ui::{KeyCode, KeyEvent};

const WHITE: Color = Color { r: 255, g: 255, b: 255 };
const BLUE: Color = Color { r: 0, g: 0, b: 255 };

fn shown(text: &str) -> Line {
    let mut line = Line::empty();
    line.push_styled(text, false, WHITE, BLUE);
    line
}

fn lines(texts: &[&str]) -> Vec<String> {
    texts.iter().map(|t| t.to_string()).collect()
}

#[test]
fn styled_spans_skip_line_breaks() {
    let line = shown("ab\nc");
    assert_eq!(line.spans.len(), 3);
    assert_eq!(line.get_line(), "abc");
}

#[test]
fn matches_are_highlighted_and_cleared_back() {
    let texts = lines(&["foo bar foo", "nothing", "xfoo"]);
    let mut view = vec![shown("foo bar foo"), shown("nothing"), shown("xfoo")];
    highlight_matches(&mut view, &texts, 10, 12, &vec![10, 12], "foo");
    let lit: Vec<bool> = view[0].spans.iter().map(|s| s.background == Color { r: 255, g: 255, b: 0 }).collect();
    assert_eq!(lit, vec![true, true, true, false, false, false, false, false, true, true, true]);
    assert_eq!(view[0].spans[0].foreground, Color { r: 0, g: 0, b: 0 });
    assert_eq!(view[0].spans[0].original_background, Some(BLUE));
    assert!(view[1].spans.iter().all(|s| s.background == BLUE));
    let lit: Vec<bool> = view[2].spans.iter().map(|s| s.original_background.is_some()).collect();
    assert_eq!(lit, vec![false, true, true, true]);
    clear_highlights(&mut view);
    for line in &view {
        for span in &line.spans {
            assert_eq!(span.background, BLUE);
            assert_eq!(span.foreground, WHITE);
            assert_eq!(span.original_background, None);
        }
    }
}

#[test]
fn matches_outside_the_rows_shown_are_skipped() {
    let texts = lines(&["foo"]);
    let mut view = vec![shown("foo")];
    highlight_matches(&mut view, &texts, 3, 5, &vec![0, 6], "foo");
    assert!(view[0].spans.iter().all(|s| s.original_background.is_none()));
}

#[test]
fn overlapping_text_is_matched_from_the_left() {
    let texts = lines(&["aaa"]);
    let mut view = vec![shown("aaa")];
    highlight_matches(&mut view, &texts, 0, 0, &vec![0], "aa");
    let lit: Vec<bool> = view[0].spans.iter().map(|s| s.original_background.is_some()).collect();
    assert_eq!(lit, vec![true, true, false]);
}

#[test]
fn filter_lists_matching_lines() {
    let all = lines(&["alpha", "beta", "alphabet", "gamma"]);
    assert_eq!(filter_indexes(&all, "alpha"), vec![0, 2]);
    assert_eq!(filter_indexes(&all, "zeta"), Vec::<usize>::new());
    assert_eq!(filter_indexes(&all, ""), vec![0, 1, 2, 3]);
}

#[test]
fn long_lines_are_cut() {
    assert_eq!(truncate_line("abcdefghij", 8), "abc...");
    assert_eq!(truncate_line("abcdefgh", 8), "abcdefgh");
    assert_eq!(truncate_line("abcdefgh", 3), "...");
    assert_eq!(truncate_line("héllo wörld", 9), "hél...");
}

#[test]
fn viewable_lines_from_offset() {
    let mut r = ResponseRenderer::new();
    r.response_lines = lines(&["one", "two", "three", "four"]);
    assert_eq!(r.viewable_lines(1, 2, 80), lines(&["two", "three"]));
    assert_eq!(r.viewable_lines(3, 5, 80), lines(&["four"]));
    assert!(r.viewable_lines(9, 5, 80).is_empty());
}

#[test]
fn scrolling_by_pages() {
    let mut r = ResponseRenderer::new();
    r.response_offset = 3;
    r.viewport_height = 10;
    assert_eq!(r.scroll_offset(ScrollDirection::Up), 0);
    assert_eq!(r.scroll_offset(ScrollDirection::Down), 13);
    assert_eq!(r.on_key(KeyEvent { code: KeyCode::Char('d'), ctrl: true }), ResponseKeyAction::ScrollTo(13));
    assert_eq!(r.on_key(KeyEvent { code: KeyCode::Esc, ctrl: false }), ResponseKeyAction::FocusApp);
    assert_eq!(r.on_key(KeyEvent { code: KeyCode::Char('f'), ctrl: false }), ResponseKeyAction::FocusFilterInput);
}

#[test]
fn search_moves_between_matches() {
    let mut r = ResponseRenderer::new();
    r.text_filter = TextFilter {
        indexes: vec![2, 5, 9],
        total: 3,
        search_navigation_cursor: 0,
        filter: "x".to_string(),
    };
    assert_eq!(r.previous_match(), 9);
    assert_eq!(r.text_filter.search_navigation_cursor, 2);
    assert_eq!(r.previous_match(), 5);
    r.text_filter.search_navigation_cursor = 2;
    assert_eq!(r.next_match(), 2);
    assert_eq!(r.text_filter.search_navigation_cursor, 2);
}

#[test]
fn applying_a_filter_keeps_the_matches() {
    let mut r = ResponseRenderer::new();
    let mut state = ResponseRendererState::new();
    r.response_lines = lines(&["a1", "b2", "a3"]);
    state.filter = "a".to_string();
    assert_eq!(r.apply_response_filter(&mut state, "a"), FilterOutcome::Matches);
    assert_eq!(state.filter_indexes, vec![0, 2]);
    assert_eq!(state.filter_total, 2);
    assert_eq!(r.text_filter.indexes, vec![0, 2]);
    assert_eq!(r.text_filter.filter, "a");
    assert_eq!(r.apply_response_filter(&mut state, "zz"), FilterOutcome::NoMatch);
    assert_eq!(state.filter_total, 0);
    assert_eq!(r.text_filter.indexes, vec![0, 2]);
    assert_eq!(r.apply_response_filter(&mut state, ""), FilterOutcome::Cleared);
    assert!(r.text_filter.indexes.is_empty());
}

#[test]
fn theme_preview_uses_the_first_sample() {
    let mut r = ResponseRenderer::new();
    assert_eq!(r.preview_sample(&None, "fn a() {}"), None);
    assert_eq!(r.preview_sample(&Some("nord".to_string()), "fn a() {}"), Some("fn a() {}".to_string()));
    assert_eq!(r.preview_sample(&Some("nord".to_string()), "fn b() {}"), Some("fn a() {}".to_string()));
    assert_eq!(r.extension, "rs");
}

#[test]
fn search_input_updates_the_filter() {
    let mut r = ResponseRenderer::new();
    let mut state = ResponseRendererState::new();
    r.response_lines = lines(&["get /a", "post /b"]);
    assert_eq!(r.receive(&mut state, "response_filter__input_update", "post"), Some(FilterOutcome::Matches));
    assert_eq!(state.filter, "post");
    assert_eq!(state.filter_indexes, vec![1]);
    assert_eq!(r.receive(&mut state, "response_filter__input_escape", ""), None);
    assert_eq!(state.filter, "post");
}

#[test]
fn colors_are_written_in_hex() {
    assert_eq!(Color { r: 255, g: 10, b: 0 }.to_hex(), "#FF0A00");
    assert_eq!(BLUE.to_hex(), "#0000FF");
}

#[test]
fn scrolling_shows_the_page_or_stays_past_the_end() {
    let mut view = ResponseRenderer::new();
    view.response_lines = vec!["one".to_string(), "a line that is long".to_string(), "three".to_string()];
    assert_eq!(view.scroll_response(false, Some((10, 2)), 0), None);
    assert_eq!(view.scroll_response(true, None, 0), None);
    assert_eq!(view.viewport_height, 0);
    assert_eq!(view.scroll_response(true, Some((10, 2)), 0), Some("one\na lin...".to_string()));
    assert_eq!(view.response_offset, 0);
    assert_eq!(view.viewport_height, 2);
    assert_eq!(view.scroll_response(true, Some((10, 2)), 2), Some("three".to_string()));
    assert_eq!(view.response_offset, 2);
    assert_eq!(view.scroll_response(true, Some((10, 2)), 3), None);
    assert_eq!(view.response_offset, 2);
    let mut empty = ResponseRenderer::new();
    assert_eq!(empty.scroll_response(true, Some((10, 2)), 0), Some(String::new()));
}
