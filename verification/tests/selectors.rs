use tome::dashboard::AppTheme;
use tome::list_window::{clamped_window, variables_window, ListCursor, WindowRow};
use tome::messages::EditHeaderSelectorMessages;
use tome::projects::{Header, PersistedVariable, VariableType};
use tome::selectors::{
    EditHeaderSelector, EditHeaderSelectorState, FileEntry, FileSelector, FileSelectorAction,
    FileSelectorState, HeaderSelectorAction, ProjectVariables, ProjectVariablesState,
    SyntaxThemeSelector, SyntaxThemeSelectorState, ThemeSelectorAction, VariablesAction,
};
use tome::ui::{KeyCode, KeyEvent};

fn theme() -> AppTheme {
    let c = |s: &str| s.to_string();
    AppTheme {
        background: c("bg"),
        foreground: c("fg"),
        project_name_background: c("pnb"),
        project_name_foreground: c("pnf"),
        border_focused: c("bf"),
        border_unfocused: c("bu"),
        overlay_heading: c("oh"),
        overlay_background: c("OB"),
        overlay_foreground: c("OF"),
        overlay_submit_background: c("osb"),
        overlay_submit_foreground: c("osf"),
        overlay_cancel_background: c("ocb"),
        overlay_cancel_foreground: c("ocf"),
        menu_color_1: c("m1"),
        menu_color_2: c("m2"),
        menu_color_3: c("m3"),
        menu_color_4: c("m4"),
        menu_color_5: c("m5"),
        endpoint_name_background: c("enb"),
        endpoint_name_foreground: c("enf"),
        menu_opt_background: c("mob"),
        menu_opt_foreground: c("mof"),
        top_bar_background: c("tbb"),
        top_bar_foreground: c("tbf"),
        bottom_bar_background: c("bbb"),
        bottom_bar_foreground: c("bbf"),
    }
}

fn key(c: char) -> KeyEvent {
    KeyEvent { code: KeyCode::Char(c), ctrl: false }
}

fn headers(n: usize) -> Vec<Header> {
    (0..n).map(|i| Header { name: format!("h{i}"), value: format!("v{i}") }).collect()
}

#[test]
fn header_list_shows_first_rows_highlighted() {
    let mut selector = EditHeaderSelector::new();
    let mut state = EditHeaderSelectorState::new(theme());
    selector.message(&mut state, EditHeaderSelectorMessages::HeadersList(headers(7)));
    assert_eq!(state.list, ListCursor { cursor: 0, first: 0, last: 4, visible_rows: 5 });
    assert_eq!(state.window_list.len(), 5);
    assert_eq!(state.window_list[0].name, "h0");
    assert_eq!(state.window_list[0].row_color, "OF");
    assert_eq!(state.window_list[0].row_fg_color, "OB");
    assert_eq!(state.window_list[1].row_color, "OB");
}

#[test]
fn header_list_scrolls_with_the_cursor() {
    let mut selector = EditHeaderSelector::new();
    let mut state = EditHeaderSelectorState::new(theme());
    selector.message(&mut state, EditHeaderSelectorMessages::HeadersList(headers(7)));
    for _ in 0..5 {
        assert!(state.list.down_is_safe(selector.items_list.len()));
        selector.on_key(key('j'), &mut state);
    }
    assert_eq!(state.list, ListCursor { cursor: 5, first: 1, last: 5, visible_rows: 5 });
    assert_eq!(state.window_list[0].name, "h1");
    assert_eq!(state.window_list[4].name, "h5");
    assert_eq!(state.window_list[4].row_color, "OF");
    match selector.on_key(key('e'), &mut state) {
        HeaderSelectorAction::Edit(h) => assert_eq!(h.name, "h5"),
        other => panic!("unexpected {other:?}"),
    }
    for _ in 0..5 {
        assert!(state.list.up_is_safe());
        selector.on_key(KeyEvent { code: KeyCode::Up, ctrl: false }, &mut state);
    }
    assert_eq!(state.list.cursor, 0);
    assert_eq!(state.list.first, 0);
    assert!(matches!(selector.on_key(key('a'), &mut state), HeaderSelectorAction::Add));
}

#[test]
fn empty_header_list_cancels_picks() {
    let mut selector = EditHeaderSelector::new();
    let mut state = EditHeaderSelectorState::new(theme());
    selector.message(&mut state, EditHeaderSelectorMessages::HeadersList(vec![]));
    assert!(state.window_list.is_empty());
    assert!(matches!(selector.on_key(key('d'), &mut state), HeaderSelectorAction::Cancel));
    assert!(matches!(
        selector.on_key(KeyEvent { code: KeyCode::Esc, ctrl: false }, &mut state),
        HeaderSelectorAction::Cancel
    ));
}

fn variable(name: &str) -> PersistedVariable {
    PersistedVariable {
        id: Some(name.to_string()),
        key: Some(name.to_string()),
        value: Some("v".to_string()),
        private: None,
        var_type: Some(VariableType::String),
        name: Some(name.to_string()),
        system: Some(false),
        disabled: Some(false),
    }
}

#[test]
fn variables_window_rows_for_short_and_long_lists() {
    let mut window = ProjectVariables::new();
    let mut state = ProjectVariablesState::new(theme());
    let many: Vec<PersistedVariable> = (0..8).map(|i| variable(&format!("v{i}"))).collect();
    window.set_list(&mut state, many);
    assert_eq!(state.window_list.len(), 1);
    assert_eq!(state.window_list[0].name, "v0");
    window.set_list(&mut state, vec![variable("a"), variable("b"), variable("c")]);
    assert_eq!(state.window_list.len(), 3);
    assert_eq!(state.window_list[0].name, "a");
    assert_eq!(state.window_list[0].row_color, "OF");
    assert_eq!(state.window_list[1].row_color, "OB");
    match window.on_key(key('e'), &mut state) {
        VariablesAction::Rename(v) => assert_eq!(v.name, Some("a".to_string())),
        other => panic!("unexpected {other:?}"),
    }
    assert!(matches!(window.on_key(key('d'), &mut state), VariablesAction::Nothing));
    assert_eq!(state.selected_variable.as_ref().unwrap().name, Some("a".to_string()));
    assert!(matches!(window.on_key(key('a'), &mut state), VariablesAction::AddVariable));
}

#[test]
fn windows_of_rows() {
    let rows = clamped_window(2, 10, 3, 5);
    assert_eq!(
        rows,
        vec![
            WindowRow { index: 2, highlighted: false },
            WindowRow { index: 3, highlighted: true },
            WindowRow { index: 4, highlighted: false },
        ]
    );
    assert!(clamped_window(0, 4, 0, 0).is_empty());
    assert_eq!(variables_window(0, 4, 0, 3).len(), 3);
    assert_eq!(variables_window(0, 4, 0, 10), vec![WindowRow { index: 0, highlighted: true }]);
}

fn entry(name: &str, is_file: bool, extension: Option<&str>) -> FileEntry {
    FileEntry {
        name: name.to_string(),
        path: format!("/data/{name}"),
        is_file,
        is_dir: !is_file,
        extension: extension.map(|e| e.to_string()),
    }
}

#[test]
fn file_selector_lists_parent_first_and_picks_json() {
    let mut selector = FileSelector::new();
    let mut state = FileSelectorState::new(theme());
    selector.set_directory(
        &mut state,
        "/data".to_string(),
        FileEntry { name: "/".to_string(), path: "/".to_string(), is_file: false, is_dir: true, extension: None },
        vec![entry("a.json", true, Some("json")), entry("b.txt", true, Some("txt")), entry("sub", false, None)],
    );
    assert_eq!(state.current_directory, "/data");
    assert_eq!(state.window_list.len(), 4);
    assert_eq!(state.window_list[0].name, "..");
    let enter = KeyEvent { code: KeyCode::Enter, ctrl: false };
    match selector.on_key(enter, &mut state) {
        FileSelectorAction::OpenDirectory(p) => assert_eq!(p, "/"),
        other => panic!("unexpected {other:?}"),
    }
    selector.on_key(key('j'), &mut state);
    match selector.on_key(enter, &mut state) {
        FileSelectorAction::Import(p) => assert_eq!(p, "/data/a.json"),
        other => panic!("unexpected {other:?}"),
    }
    selector.on_key(key('j'), &mut state);
    match selector.on_key(enter, &mut state) {
        FileSelectorAction::Error(m) => {
            assert_eq!(m, "Invalid Postman file type to import, choose a .json file")
        }
        other => panic!("unexpected {other:?}"),
    }
}

#[test]
fn theme_selector_previews_and_picks() {
    let mut selector = SyntaxThemeSelector::new();
    let mut state = SyntaxThemeSelectorState::new(theme());
    let preview = selector.open(
        &mut state,
        "themes/monokai.tmTheme",
        vec!["base16.tmTheme".to_string(), "monokai.tmTheme".to_string(), "nord.tmTheme".to_string()],
        5,
    );
    assert_eq!(preview, "base16");
    assert_eq!(state.selected_item, "monokai");
    assert_eq!(state.window_list.len(), 3);
    assert_eq!(state.window_list[2].name, "nord");
    match selector.on_key(key('j'), &mut state) {
        ThemeSelectorAction::Preview(t) => assert_eq!(t, "monokai"),
        other => panic!("unexpected {other:?}"),
    }
    selector.on_key(key('j'), &mut state);
    assert!(matches!(
        selector.on_key(KeyEvent { code: KeyCode::Enter, ctrl: false }, &mut state),
        ThemeSelectorAction::Nothing
    ));
    assert_eq!(state.selected_item, "nord");
}
