use tome::body_mode::{select_body_mode, BodyMode, BodyModeKeyOutcome, BodyModeSelector};
use tome::list_window::ListCursor;
use tome::projects::Endpoint;
use tome::ui::{
    AppDisplay, AppLayoutMessages, AppLayoutState, DashboardDisplay, FloatingWindow, KeyCode, KeyEvent,
    LayoutFocus, RequestBodySection, RequestHeadersEditorState, Row, RowState,
};

#[test]
fn body_mode_names_read_back() {
    for mode in [
        BodyMode::NoBody,
        BodyMode::Text,
        BodyMode::JavaScript,
        BodyMode::Json,
        BodyMode::Html,
        BodyMode::Xml,
        BodyMode::FormData,
        BodyMode::UrlEncoded,
        BodyMode::Binary,
        BodyMode::GraphQL,
    ] {
        let name = mode.to_string();
        assert_eq!(name.parse::<BodyMode>(), Ok(mode));
    }
    assert_eq!("whatever".parse::<BodyMode>(), Ok(BodyMode::NoBody));
    assert_eq!(BodyMode::default(), BodyMode::NoBody);
    assert_eq!(BodyMode::NoBody.as_str(), "None");
}

#[test]
fn body_mode_keys_pick_modes() {
    let selector = BodyModeSelector;
    let pick = |c: char| selector.on_key(KeyEvent { code: KeyCode::Char(c), ctrl: false });
    assert_eq!(pick('s'), BodyModeKeyOutcome::Select(BodyMode::Json));
    assert_eq!(pick('n'), BodyModeKeyOutcome::Select(BodyMode::NoBody));
    assert_eq!(pick('z'), BodyModeKeyOutcome::Ignore);
    assert_eq!(selector.on_key(KeyEvent { code: KeyCode::Esc, ctrl: false }), BodyModeKeyOutcome::Cancel);
}

#[test]
fn raw_kinds_become_raw_body() {
    let mut e = Endpoint::new();
    select_body_mode(&mut e, "Json");
    assert_eq!(e.body_mode, "raw");
    assert_eq!(e.raw_type, "Json");
    select_body_mode(&mut e, "FormData");
    assert_eq!(e.body_mode, "FormData");
    assert_eq!(e.raw_type, "");
}

#[test]
fn cursor_moves_and_window_follows() {
    let mut c = ListCursor::initial();
    for _ in 0..6 {
        c.move_down(8);
    }
    assert_eq!(c, ListCursor { cursor: 6, first: 2, last: 6, visible_rows: 5 });
    c.move_down(8);
    c.move_down(8);
    assert_eq!(c.cursor, 7);
    for _ in 0..5 {
        c.move_up();
    }
    assert_eq!(c, ListCursor { cursor: 2, first: 2, last: 6, visible_rows: 5 });
    c.move_up();
    assert_eq!(c, ListCursor { cursor: 1, first: 1, last: 5, visible_rows: 5 });
    c.reset_for(3);
    assert_eq!(c, ListCursor { cursor: 0, first: 0, last: 2, visible_rows: 5 });
    c.reset_full();
    assert_eq!(c.last, 4);
    assert!(!ListCursor { cursor: 255, first: 0, last: 255, visible_rows: 5 }.down_is_safe(300));
    assert!(ListCursor::initial().fits(1));
}

#[test]
fn layout_switches_views() {
    let mut layout = AppLayoutState::new();
    assert_eq!(layout.display, AppDisplay::Dashboard);
    assert_eq!(layout.message(AppLayoutMessages::OpenOptions), LayoutFocus::Options);
    assert_eq!(layout.display.as_str(), "Options");
    assert_eq!(layout.message(AppLayoutMessages::OpenDashboard), LayoutFocus::App);
}

#[test]
fn names_of_displays_and_windows() {
    assert_eq!(DashboardDisplay::RequestHeadersEditor.as_str(), "request_headers_editor");
    assert_eq!(FloatingWindow::NoWindow.as_str(), "None");
    assert_eq!(FloatingWindow::ViewProjectVariables.as_str(), "ViewProjectVariables");
    assert!(!Row.accept_focus());
    assert_eq!(RowState::new(), RowState {});
    assert_eq!(RequestHeadersEditorState::new(), RequestHeadersEditorState {});
    assert!(RequestBodySection.recolor_border("request_body_border", false));
    assert!(!RequestBodySection.recolor_border("request_body_border", true));
}

#[test]
fn whole_windows_fit_only_inside_the_list() {
    let c = ListCursor { cursor: 0, first: 0, last: 4, visible_rows: 5 };
    assert!(c.fits_fully(5));
    assert!(!c.fits_fully(4));
    let scrolled = ListCursor { cursor: 6, first: 2, last: 6, visible_rows: 5 };
    assert!(scrolled.fits_fully(7));
    let short = ListCursor { cursor: 6, first: 3, last: 6, visible_rows: 5 };
    assert!(!short.fits_fully(7));
}
