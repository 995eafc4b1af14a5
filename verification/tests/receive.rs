use tome::dashboard::{AppTheme, DashboardState};
use tome::dashboard_events::CommandOutcome;
use tome::dashboard_receive::{NameInput, ReceiveOutcome, ReceivedValue};
use tome::messages::{ConfirmAction, SpecificNameUpdate};
use tome::projects::{Header, PersistedProject};
use tome::ui::FloatingWindow;

fn theme() -> AppTheme {
    let c = |s: &str| s.to_string();
    AppTheme {
        background: c("#000000"),
        foreground: c("#ffffff"),
        project_name_background: c("#111111"),
        project_name_foreground: c("#eeeeee"),
        border_focused: c("#222222"),
        border_unfocused: c("#333333"),
        overlay_heading: c("#444444"),
        overlay_background: c("#555555"),
        overlay_foreground: c("#666666"),
        overlay_submit_background: c("#777777"),
        overlay_submit_foreground: c("#888888"),
        overlay_cancel_background: c("#999999"),
        overlay_cancel_foreground: c("#aaaaaa"),
        menu_color_1: c("#m1"),
        menu_color_2: c("#m2"),
        menu_color_3: c("#m3"),
        menu_color_4: c("#m4"),
        menu_color_5: c("#m5"),
        endpoint_name_background: c("#bbbbbb"),
        endpoint_name_foreground: c("#cccccc"),
        menu_opt_background: c("#dddddd"),
        menu_opt_foreground: c("#eeeeee"),
        top_bar_background: c("#f0f0f0"),
        top_bar_foreground: c("#0f0f0f"),
        bottom_bar_background: c("#a0a0a0"),
        bottom_bar_foreground: c("#0a0a0a"),
    }
}

fn empty() -> ReceivedValue {
    ReceivedValue { text: None, header: None, name_update: None, variable: None, project: None, endpoint: None }
}

fn text(t: &str) -> ReceivedValue {
    ReceivedValue { text: Some(t.to_string()), ..empty() }
}

#[test]
fn cancel_events_close_the_window_of_their_source() {
    let mut d = DashboardState::new(theme());
    for ident in [
        "confirm_action__cancel",
        "commands__cancel",
        "project_variables__cancel",
        "file_selector__cancel",
        "edit_header_selector__cancel",
        "edit_endpoint_name__cancel",
        "edit_project_name__cancel",
    ] {
        d.floating_window = FloatingWindow::Commands;
        let r = d.receive(ident, empty());
        assert!(matches!(r, ReceiveOutcome::FocusApp), "{ident}");
        assert_eq!(d.floating_window, FloatingWindow::NoWindow, "{ident}");
    }
    d.floating_window = FloatingWindow::BodyModeSelector;
    assert!(matches!(d.receive("body_mode_selector__cancel", empty()), ReceiveOutcome::Nothing));
    assert_eq!(d.floating_window, FloatingWindow::NoWindow);
}

#[test]
fn unknown_events_leave_the_dashboard_alone() {
    let mut d = DashboardState::new(theme());
    d.floating_window = FloatingWindow::Commands;
    let name = d.endpoint.name.clone();
    assert!(matches!(d.receive("nothing_here", empty()), ReceiveOutcome::Nothing));
    assert!(matches!(d.receive("commands__unknown", empty()), ReceiveOutcome::Nothing));
    assert!(matches!(d.receive("codegen__cancel", empty()), ReceiveOutcome::Nothing));
    assert_eq!(d.floating_window, FloatingWindow::Commands);
    assert_eq!(d.endpoint.name, name);
}

#[test]
fn command_selection_runs_the_command() {
    let mut d = DashboardState::new(theme());
    let r = d.receive("commands__selection", text("g"));
    assert!(matches!(r, ReceiveOutcome::Command(CommandOutcome::FocusCodeGen)));
    assert_eq!(d.floating_window, FloatingWindow::CodeGen);
}

#[test]
fn body_mode_selection_sets_the_mode() {
    let mut d = DashboardState::new(theme());
    d.floating_window = FloatingWindow::BodyModeSelector;
    assert!(matches!(d.receive("body_mode_selector__selection", text("Json")), ReceiveOutcome::FocusApp));
    assert_eq!(d.endpoint.body_mode, "raw");
    assert_eq!(d.endpoint.raw_type, "Json");
    assert_eq!(d.floating_window, FloatingWindow::BodyModeSelector);
    d.receive("body_mode_selector__selection", text("formdata"));
    assert_eq!(d.endpoint.body_mode, "formdata");
    assert_eq!(d.endpoint.raw_type, "");
}

#[test]
fn header_events_reach_the_header_handlers() {
    let mut d = DashboardState::new(theme());
    let before = d.endpoint.headers.len();
    let h = |n: &str, v: &str| Header { name: n.to_string(), value: v.to_string() };
    d.receive("add_header__name_update", ReceivedValue { header: Some(h("x-k", "")), ..text("{}") });
    d.receive("add_header__value_update", ReceivedValue { header: Some(h("", "v")), ..text("{}") });
    assert!(matches!(d.receive("add_header__submit", empty()), ReceiveOutcome::FocusApp));
    assert_eq!(d.endpoint.headers.len(), before + 1);
    assert_eq!(d.endpoint.headers[before].name, "x-k");
    assert_eq!(d.endpoint.headers[before].value, "v");

    let r = d.receive("edit_header_selector__delete", ReceivedValue { header: Some(h("x-k", "v")), ..text("{}") });
    match r {
        ReceiveOutcome::AskConfirmation(Some(ConfirmAction::ConfirmDeleteHeader(details))) => {
            assert_eq!(details.title, "Delete x-k");
            assert_eq!(details.message, "Are you sure you want to delete?");
        }
        _ => panic!("expected a question"),
    }
    assert_eq!(d.floating_window, FloatingWindow::ConfirmAction);

    let r = d.receive("edit_header_selector__edit", text("not a header"));
    assert!(matches!(r, ReceiveOutcome::FocusApp));
    assert_eq!(d.floating_window, FloatingWindow::NoWindow);
    assert!(matches!(d.receive("edit_header_selector__add", empty()), ReceiveOutcome::FocusAddHeader));
    assert_eq!(d.floating_window, FloatingWindow::AddHeader);
}

#[test]
fn name_events_rename_and_clear() {
    let mut d = DashboardState::new(theme());
    d.project.name = "old".to_string();
    let update = SpecificNameUpdate { old_name: "old".to_string(), new_name: "new".to_string() };
    let r = d.receive(
        "edit_project_name__specific_project_rename",
        ReceivedValue { name_update: Some(update), ..text("{}") },
    );
    assert!(matches!(r, ReceiveOutcome::FocusAppClearing(NameInput::ProjectName)));
    assert_eq!(d.project.name, "new");
    let r = d.receive("edit_endpoint_name__specific_endpoint_rename", text("broken"));
    match r {
        ReceiveOutcome::ReportError(t) => assert_eq!(t, "There was an error while processing the name update"),
        _ => panic!("expected an error"),
    }
    let r = d.receive("edit_endpoint_name__submit", text("ep"));
    assert!(matches!(r, ReceiveOutcome::FocusAppClearing(NameInput::EndpointName)));
    assert_eq!(d.endpoint.name, "ep");
}

#[test]
fn dashboard_events_are_handled_by_name() {
    let mut d = DashboardState::new(theme());
    assert!(matches!(d.receive("url_input_focus", empty()), ReceiveOutcome::FocusApp));
    assert!(matches!(d.receive("add_new_project", empty()), ReceiveOutcome::NewProject));
    assert!(matches!(d.receive("open_add_variable_window", empty()), ReceiveOutcome::FocusAddVariable));
    assert_eq!(d.floating_window, FloatingWindow::AddProjectVariable);
    let p = PersistedProject { name: "p".to_string(), endpoints: vec![], variable: vec![] };
    let r = d.receive("rename_project", ReceivedValue { project: Some(p), ..text("{}") });
    assert!(matches!(r, ReceiveOutcome::OpenProjectRename(_)));
    assert_eq!(d.floating_window, FloatingWindow::ChangeProjectName);
    let r = d.receive("rename_endpoint", text("nope"));
    assert!(matches!(r, ReceiveOutcome::FocusApp));
    assert_eq!(d.floating_window, FloatingWindow::NoWindow);
}

#[test]
fn unicode_blank_header_is_not_added() {
    let mut d = DashboardState::new(theme());
    let before = d.endpoint.headers.len();
    let h = |n: &str, v: &str| Header { name: n.to_string(), value: v.to_string() };
    d.receive("add_header__name_update", ReceivedValue { header: Some(h("\u{3000}\u{85}", "")), ..text("{}") });
    d.receive("add_header__value_update", ReceivedValue { header: Some(h("", "v")), ..text("{}") });
    d.receive("add_header__submit", empty());
    assert_eq!(d.endpoint.headers.len(), before);
}
