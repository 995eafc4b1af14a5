use tome::dashboard::{AppTheme, DashboardAction, DashboardState, MessageOutcome};
use tome::dashboard_events::{route_received, CommandOutcome, EventSource, ReceivedEvent};
use tome::dashboard_flows::{ConfirmStep, ResponseSaveOutcome};
use tome::messages::{
    ConfirmAction, ConfirmationAnswer, DashboardMessages, EditEndpointNameMessages,
    EditProjectNameMessages, SpecificNameUpdate, TextInputMessages, TextUpdate,
};
use tome::projects::{
    Endpoint, Header, HeaderState, PersistedEndpoint, PersistedProject, PersistedVariable, Project,
    ProjectError, VariableType, DEFAULT_PROJECT_NAME,
};
use tome::requests::RequestBody;
use tome::ui::{DashboardDisplay, FloatingWindow, KeyCode, KeyEvent};

fn theme() -> AppTheme {
    let c = |s: &str| s.to_string();
    AppTheme {
        background: c("#000000"),
        foreground: c("#ffffff"),
        project_name_background: c("#111111"),
        project_name_foreground: c("#eeeeee"),
        border_focused: c("#222222"),
        border_unfocused: c("#333333"),
        overlay_heading: c("#444444"),
        overlay_background: c("#555555"),
        overlay_foreground: c("#666666"),
        overlay_submit_background: c("#777777"),
        overlay_submit_foreground: c("#888888"),
        overlay_cancel_background: c("#999999"),
        overlay_cancel_foreground: c("#aaaaaa"),
        menu_color_1: c("#m1"),
        menu_color_2: c("#m2"),
        menu_color_3: c("#m3"),
        menu_color_4: c("#m4"),
        menu_color_5: c("#m5"),
        endpoint_name_background: c("#bbbbbb"),
        endpoint_name_foreground: c("#cccccc"),
        menu_opt_background: c("#dddddd"),
        menu_opt_foreground: c("#eeeeee"),
        top_bar_background: c("#f0f0f0"),
        top_bar_foreground: c("#0f0f0f"),
        bottom_bar_background: c("#f1f1f1"),
        bottom_bar_foreground: c("#1f1f1f"),
    }
}

fn key(c: char) -> KeyEvent {
    KeyEvent { code: KeyCode::Char(c), ctrl: false }
}

fn esc() -> KeyEvent {
    KeyEvent { code: KeyCode::Esc, ctrl: false }
}

fn stored_endpoint(name: &str, url: &str) -> PersistedEndpoint {
    PersistedEndpoint {
        name: name.to_string(),
        url: url.to_string(),
        method: "GET".to_string(),
        headers: vec![Header { name: "accept".to_string(), value: "*/*".to_string() }],
        body: String::new(),
        body_mode: "raw".to_string(),
        raw_type: "json".to_string(),
    }
}

fn dashboard_with_project() -> DashboardState {
    let mut d = DashboardState::new(theme());
    let stored = PersistedProject {
        name: "shop".to_string(),
        endpoints: vec![stored_endpoint("list", "https://a/list"), stored_endpoint("get", "https://a/get")],
        variable: vec![PersistedVariable {
            id: Some("1".to_string()),
            key: Some("host".to_string()),
            value: Some("a.example".to_string()),
            private: None,
            var_type: Some(VariableType::String),
            name: Some("Host".to_string()),
            system: Some(false),
            disabled: Some(false),
        }],
    };
    d.project = Project::from_persisted(&stored);
    d.endpoint = Endpoint::from_persisted(&stored.endpoints[0]);
    d
}

#[test]
fn new_dashboard_starts_plain() {
    let d = DashboardState::new(theme());
    assert_eq!(d.main_display, DashboardDisplay::RequestBody);
    assert_eq!(d.floating_window, FloatingWindow::NoWindow);
    assert_eq!(d.menu_items.len(), 5);
    assert_eq!(d.menu_items[0].label, "(S)ave Project");
    assert_eq!(d.menu_items[4].color, "#m5");
    assert_eq!(d.top_menu_items[0].label, "(P)rojects");
    assert_eq!(d.app_bg, "#000000");
    assert_eq!(d.project.name, DEFAULT_PROJECT_NAME);
}

#[test]
fn keys_open_windows_and_name_actions() {
    let mut d = DashboardState::new(theme());
    assert_eq!(d.on_key(key('c')), DashboardAction::FocusCommandsWindow);
    assert_eq!(d.floating_window, FloatingWindow::Commands);
    assert_eq!(d.on_key(key('s')), DashboardAction::SaveProject { show_message: true });
    assert_eq!(d.on_key(key('i')), DashboardAction::SaveEndpoint { show_message: true });
    assert_eq!(d.on_key(key('d')), DashboardAction::Nothing);
    assert_eq!(d.main_display, DashboardDisplay::RequestHeadersEditor);
    assert_eq!(d.on_key(key('a')), DashboardAction::OpenAddHeaderWindow);
    assert_eq!(d.floating_window, FloatingWindow::AddHeader);
    assert_eq!(d.on_key(KeyEvent { code: KeyCode::Char('u'), ctrl: true }), DashboardAction::Nothing);
    assert_eq!(d.on_key(key('u')), DashboardAction::FocusUrlInput);
    assert_eq!(d.on_key(key('q')), DashboardAction::Quit);
}

#[test]
fn escape_twice_returns_to_plain_dashboard() {
    let mut d = DashboardState::new(theme());
    d.on_key(key('d'));
    d.on_key(key('h'));
    assert_eq!(d.floating_window, FloatingWindow::EditHeaderSelector);
    assert_eq!(d.on_key(esc()), DashboardAction::FocusApp);
    assert_eq!(d.floating_window, FloatingWindow::NoWindow);
    assert_eq!(d.main_display, DashboardDisplay::RequestHeadersEditor);
    assert_eq!(d.on_key(esc()), DashboardAction::FocusApp);
    assert_eq!(d.main_display, DashboardDisplay::RequestBody);
}

#[test]
fn url_change_renames_endpoint_while_name_follows_url() {
    let mut d = DashboardState::new(theme());
    d.endpoint.name = String::new();
    d.endpoint.url = String::new();
    let out = d.message(DashboardMessages::TextInput(TextInputMessages::Change("https://x".to_string())));
    assert!(matches!(out, MessageOutcome::Nothing));
    assert_eq!(d.endpoint.url, "https://x");
    assert_eq!(d.endpoint.name, "https://x");
    d.endpoint.name = "custom".to_string();
    d.message(DashboardMessages::TextInput(TextInputMessages::Change("https://y".to_string())));
    assert_eq!(d.endpoint.url, "https://y");
    assert_eq!(d.endpoint.name, "custom");
    let out = d.message(DashboardMessages::TextInput(TextInputMessages::Escape(TextUpdate {
        id: "endpoint_url_input".to_string(),
        value: String::new(),
    })));
    assert!(matches!(out, MessageOutcome::LeaveUrlInput));
}

#[test]
fn show_error_and_message() {
    let mut d = DashboardState::new(theme());
    d.message(DashboardMessages::ShowError("boom".to_string()));
    assert_eq!(d.error_message, "boom");
    assert_eq!(d.floating_window, FloatingWindow::Error);
    d.message(DashboardMessages::ShowSucces(("Title".to_string(), "Done".to_string())));
    assert_eq!(d.message_label, "Title");
    assert_eq!(d.message, "Done");
    assert_eq!(d.floating_window, FloatingWindow::Message);
}

#[test]
fn events_are_routed_by_name_and_prefix() {
    assert_eq!(route_received("rename_project"), (ReceivedEvent::RenameProject, EventSource::Unknown));
    assert_eq!(route_received("commands__selection"), (ReceivedEvent::Other, EventSource::Commands));
    assert_eq!(
        route_received("edit_header_selector__delete"),
        (ReceivedEvent::Other, EventSource::EditHeaderSelector)
    );
    assert_eq!(route_received("nothing_here"), (ReceivedEvent::Other, EventSource::Unknown));
}

#[test]
fn new_header_is_added_unless_blank() {
    let mut d = DashboardState::new(theme());
    let before = d.endpoint.headers.len();
    d.set_new_header_name(&Header { name: "x-a".to_string(), value: String::new() });
    d.set_new_header_value(&Header { name: String::new(), value: "1".to_string() });
    d.submit_new_header();
    assert_eq!(d.endpoint.headers.len(), before + 1);
    assert_eq!(d.endpoint.headers[before].name, "x-a");
    d.set_new_header_name(&Header { name: "   ".to_string(), value: String::new() });
    d.submit_new_header();
    assert_eq!(d.endpoint.headers.len(), before + 1);
    assert_eq!(d.floating_window, FloatingWindow::NoWindow);
}

#[test]
fn commands_show_variables_and_export() {
    let mut d = dashboard_with_project();
    match d.run_command("v") {
        CommandOutcome::ShowVariables(vs) => {
            assert_eq!(vs.len(), 1);
            assert_eq!(vs[0].key, Some("host".to_string()));
        }
        other => panic!("unexpected {other:?}"),
    }
    assert_eq!(d.floating_window, FloatingWindow::ViewProjectVariables);
    assert!(matches!(d.run_command("x"), CommandOutcome::Nothing));
    match d.run_command("e") {
        CommandOutcome::ExportPostman(p) => assert_eq!(p.name, "shop"),
        other => panic!("unexpected {other:?}"),
    }
}

#[test]
fn endpoint_rename_on_disk_updates_open_project() {
    let mut d = dashboard_with_project();
    d.apply_endpoint_rename(&SpecificNameUpdate { old_name: "list".to_string(), new_name: "all".to_string() });
    assert_eq!(d.endpoint.name, "all");
    assert_eq!(d.project.endpoints[0].name, "all");
    assert_eq!(d.project.endpoints[1].name, "get");
}

#[test]
fn endpoint_save_is_refused_under_default_names() {
    let mut d = DashboardState::new(theme());
    assert!(d.plan_endpoint_save().is_none());
    assert_eq!(d.error_message, "Please give your endpoint a name to save");
    d.endpoint.name = "named".to_string();
    assert!(d.plan_endpoint_save().is_none());
    assert_eq!(d.error_message, "Please give your project a name to save");
}

#[test]
fn endpoint_save_replaces_first_of_same_name_and_is_stable() {
    let mut d = dashboard_with_project();
    d.endpoint.url = "https://a/list?v=2".to_string();
    let saved = d.plan_endpoint_save().unwrap();
    let names: Vec<&str> = saved.endpoints.iter().map(|e| e.name.as_str()).collect();
    assert_eq!(names, vec!["get", "list"]);
    assert_eq!(saved.endpoints[1].url, "https://a/list?v=2");
    d.finish_endpoint_save(&saved, &Ok(()), true);
    assert_eq!(d.message, "Saved endpoint successfully");
    assert_eq!(d.message_label, "Endpoint Save");
    let again = d.plan_endpoint_save().unwrap();
    let names: Vec<&str> = again.endpoints.iter().map(|e| e.name.as_str()).collect();
    assert_eq!(names, vec!["get", "list"]);
}

#[test]
fn failed_saves_show_their_error() {
    let mut d = dashboard_with_project();
    d.finish_project_save(&Err(ProjectError::DirectoryUnavailable), true);
    assert_eq!(d.error_message, "Unable to access projects directory");
    assert_eq!(d.floating_window, FloatingWindow::Error);
    d.finish_project_save(&Ok(()), true);
    assert_eq!(d.message, "Saved project successfully");
    d.start_new_project(&Err(ProjectError::MissingName));
    assert_eq!(d.error_message, "Project must have name");
    assert_eq!(d.floating_window, FloatingWindow::NoWindow);
    assert_eq!(d.project.name, DEFAULT_PROJECT_NAME);
}

#[test]
fn name_windows_start_empty_for_default_names() {
    let d = DashboardState::new(theme());
    match d.edit_project_name_request() {
        EditProjectNameMessages::InputValue(v) => assert_eq!(v, ""),
        other => panic!("unexpected {other:?}"),
    }
    let d = dashboard_with_project();
    match d.edit_endpoint_name_request() {
        EditEndpointNameMessages::InputValue((v, names)) => {
            assert_eq!(v, "list");
            assert_eq!(names, vec!["list".to_string(), "get".to_string()]);
        }
        other => panic!("unexpected {other:?}"),
    }
}

#[test]
fn declined_deletion_closes_window() {
    let mut d = dashboard_with_project();
    d.floating_window = FloatingWindow::ConfirmAction;
    let step = d.confirm_action(ConfirmAction::ConfirmationDeletePersistedProject(ConfirmationAnswer {
        data: PersistedProject { name: "shop".to_string(), endpoints: vec![], variable: vec![] },
        answer: false,
    }));
    assert!(matches!(step, ConfirmStep::Declined));
    assert_eq!(d.floating_window, FloatingWindow::NoWindow);
    assert_eq!(d.project.name, "shop");
}

#[test]
fn project_deletion_resets_and_reports() {
    let mut d = dashboard_with_project();
    let step = d.confirm_action(ConfirmAction::ConfirmationDeletePersistedProject(ConfirmationAnswer {
        data: PersistedProject { name: "other".to_string(), endpoints: vec![], variable: vec![] },
        answer: true,
    }));
    let project = match step {
        ConfirmStep::DeleteProject { project } => project,
        other => panic!("unexpected {other:?}"),
    };
    assert_eq!(project.name, "shop");
    assert_eq!(d.project.name, DEFAULT_PROJECT_NAME);
    d.finish_project_deletion(&project, &Ok(()));
    assert_eq!(d.message_label, "Delete Project Success");
    assert_eq!(d.message, "Project 'shop' has been deleted");
    d.finish_project_deletion(&project, &Err(ProjectError::Io("x".to_string())));
    assert_eq!(d.error_message, "There was an error deleting 'shop");
}

#[test]
fn endpoint_deletion_clears_open_endpoint_when_it_is_the_one() {
    let mut d = dashboard_with_project();
    let target = stored_endpoint("list", "https://a/list");
    let step = d.confirm_action(ConfirmAction::ConfirmationDeletePersistedEndpoint(ConfirmationAnswer {
        data: target.clone(),
        answer: true,
    }));
    match step {
        ConfirmStep::DeleteEndpoint { endpoint, cleared } => {
            assert!(cleared);
            assert_eq!(endpoint.name, "list");
        }
        other => panic!("unexpected {other:?}"),
    }
    d.finish_endpoint_deletion(&target, &Ok(()));
    assert_eq!(d.project.endpoints.len(), 1);
    assert_eq!(d.project.endpoints[0].name, "get");
    assert_eq!(d.message, "The list endpoint has been deleted.");
    d.finish_endpoint_deletion(&target, &Err(ProjectError::Unserializable));
    assert_eq!(d.error_message, "There was an error deleting the list endpoint");
}

#[test]
fn header_deletion_plans_the_new_endpoint_and_project() {
    let mut d = dashboard_with_project();
    let name = "accept".to_string();
    assert!(d.can_delete_header(&name));
    assert!(!d.can_delete_header(&"missing".to_string()));
    let step = d.confirm_action(ConfirmAction::ConfirmationDeleteHeader(ConfirmationAnswer {
        data: Header { name: name.clone(), value: "*/*".to_string() },
        answer: true,
    }));
    let (project, endpoint) = match step {
        ConfirmStep::DeleteHeader { project, endpoint } => (project, endpoint),
        other => panic!("unexpected {other:?}"),
    };
    assert!(endpoint.headers.is_empty());
    assert!(project.endpoints[0].headers.is_empty());
    assert_eq!(project.endpoints[1].headers.len(), 1);
    d.finish_header_deletion(&project, &endpoint, &Ok(()));
    assert_eq!(d.message, "Header was deleted successfully");
    assert!(d.endpoint.headers.is_empty());
}

#[test]
fn variable_deletion_removes_the_matching_variable() {
    let mut d = dashboard_with_project();
    let stored = d.stored_variables();
    let step = d.confirm_action(ConfirmAction::ConfirmationDeletePersistedVariable(ConfirmationAnswer {
        data: stored[0].clone(),
        answer: true,
    }));
    let variable = match step {
        ConfirmStep::DeleteVariable { variable, project } => {
            assert!(project.variable.is_empty());
            variable
        }
        other => panic!("unexpected {other:?}"),
    };
    assert!(d.project.variable.is_empty());
    d.finish_variable_deletion(&variable, &Ok(()));
    assert_eq!(d.message_label, "Delete 'Host'");
    assert_eq!(d.message, "Variable deleted successfully");
    d.finish_variable_deletion(&variable, &Err(ProjectError::MissingName));
    assert_eq!(d.error_message, "Error deleting 'Host'");
}

#[test]
fn request_plan_replaces_variables() {
    let mut d = dashboard_with_project();
    d.endpoint.url = "https://{{host}}/list".to_string();
    // Opened without a private value, the variable holds an empty one, which
    // the request uses in place of its public value.
    assert_eq!(d.request_plan().unwrap().url, "https:///list");
    d.project.variable[0].private = "a.example".to_string();
    let plan = d.request_plan().unwrap();
    assert_eq!(plan.url, "https://a.example/list");
    assert_eq!(plan.method, "GET");
    assert_eq!(plan.headers, vec![("accept".to_string(), "*/*".to_string())]);
    assert!(matches!(plan.body, RequestBody::Text(ref t) if t.is_empty()));
    d.endpoint.url = "https://{{host}/list".to_string();
    assert!(d.request_plan().is_err());
}

#[test]
fn response_is_shown_with_status_and_headers() {
    let mut d = DashboardState::new(theme());
    let ext = d.record_response_headers(&vec![
        ("content-type".to_string(), "text/html".to_string()),
        ("server".to_string(), "x".to_string()),
    ]);
    assert_eq!(ext, "html");
    assert_eq!(d.response_headers.len(), 2);
    assert_eq!(d.response_headers[1].name, "server");
    d.show_response(404, "not here".to_string());
    assert_eq!(d.response, "not here");
    assert_eq!(d.response_body_window_label, "Response Body (Status Code: 404)");
    assert_eq!(d.main_display, DashboardDisplay::ResponseBody);
    d.show_transport_error(None);
    assert_eq!(d.error_message, "Network error");
}

#[test]
fn response_file_name_uses_endpoint_name() {
    let mut d = DashboardState::new(theme());
    d.endpoint.name = "api/v1/users".to_string();
    assert_eq!(d.response_file_name(1700000000), "api_v1_users_1700000000.txt");
}

#[test]
fn header_rows_keep_their_text() {
    let h = HeaderState {
        name: "a".to_string(),
        value: "b".to_string(),
        row_color: "#1".to_string(),
        row_fg_color: "#2".to_string(),
    };
    let copy = h.clone();
    assert_eq!(copy.name, "a");
    assert_eq!(copy.row_color, "");
}

#[test]
fn deletion_questions_name_what_goes() {
    let mut d = dashboard_with_project();
    match d.ask_header_deletion(Header { name: "accept".to_string(), value: "*/*".to_string() }) {
        ConfirmAction::ConfirmDeleteHeader(details) => {
            assert_eq!(details.title, "Delete accept");
            assert_eq!(details.message, "Are you sure you want to delete?");
        }
        other => panic!("unexpected {other:?}"),
    }
    assert_eq!(d.floating_window, FloatingWindow::ConfirmAction);
    let stored = d.stored_variables();
    match d.ask_variable_deletion(stored[0].clone()) {
        ConfirmAction::ConfirmDeletePersistedVariable(details) => assert_eq!(details.title, "Delete Host"),
        other => panic!("unexpected {other:?}"),
    }
    d.close_floating_window();
    assert_eq!(d.floating_window, FloatingWindow::NoWindow);
}

#[test]
fn header_editing_opens_with_the_names_taken() {
    let mut d = dashboard_with_project();
    assert!(d.edit_header(None).is_none());
    assert_eq!(d.floating_window, FloatingWindow::NoWindow);
    let msg = d.edit_header(Some(Header { name: "accept".to_string(), value: "*/*".to_string() }));
    match msg {
        Some(tome::messages::AddHeaderWindowMessages::Specifically((name, header, names))) => {
            assert_eq!(name, "accept");
            assert_eq!(header.value, "*/*");
            assert_eq!(names, vec!["accept".to_string()]);
        }
        other => panic!("unexpected {other:?}"),
    }
    assert_eq!(d.floating_window, FloatingWindow::AddHeader);
    d.set_new_header_name(&Header { name: "x".to_string(), value: String::new() });
    d.cancel_new_header();
    assert_eq!(d.new_header_name, "");
    assert_eq!(d.floating_window, FloatingWindow::NoWindow);
}

#[test]
fn rename_windows_open_for_picked_items() {
    let mut d = dashboard_with_project();
    assert!(d.open_project_rename(None).is_none());
    assert_eq!(d.floating_window, FloatingWindow::NoWindow);
    let stored = PersistedProject { name: "shop".to_string(), endpoints: vec![], variable: vec![] };
    assert!(d.open_project_rename(Some(stored)).is_some());
    assert_eq!(d.floating_window, FloatingWindow::ChangeProjectName);
    match d.open_endpoint_rename(Some(stored_endpoint("get", "u"))) {
        Some(EditEndpointNameMessages::Specifically((project, endpoint, names))) => {
            assert_eq!(project, "shop");
            assert_eq!(endpoint.name, "get");
            assert_eq!(names, vec!["list".to_string(), "get".to_string()]);
        }
        other => panic!("unexpected {other:?}"),
    }
    let stored = d.stored_variables();
    match d.open_variable_rename(Some(stored[0].clone())) {
        Some(tome::messages::AddProjectVariableMessages::Specifically((project, _, names))) => {
            assert_eq!(project, "shop");
            assert_eq!(names, vec!["Host".to_string()]);
        }
        other => panic!("unexpected {other:?}"),
    }
    assert_eq!(d.floating_window, FloatingWindow::AddProjectVariable);
}

#[test]
fn names_are_submitted_and_theme_updated() {
    let mut d = dashboard_with_project();
    d.submit_endpoint_name("renamed");
    assert_eq!(d.endpoint.name, "renamed");
    d.submit_project_name("store");
    assert_eq!(d.project.name, "store");
    d.apply_project_rename(&SpecificNameUpdate { old_name: "other".to_string(), new_name: "x".to_string() });
    assert_eq!(d.project.name, "store");
    let mut t = theme();
    t.background = "#123456".to_string();
    d.update_theme(t);
    assert_eq!(d.app_theme.background, "#123456");
}

#[test]
fn unbalanced_url_fails_before_the_headers_are_read() {
    let mut d = dashboard_with_project();
    d.endpoint.url = "https://{{host}/list".to_string();
    d.endpoint.headers.push(HeaderState {
        name: "}}x{{".to_string(),
        value: "v".to_string(),
        row_color: String::new(),
        row_fg_color: String::new(),
    });
    assert!(d.request_plan().is_err());
}

#[test]
fn response_save_outcomes_are_shown() {
    let mut d = DashboardState::new(theme());
    d.finish_response_save(&ResponseSaveOutcome::Saved("\"/docs/p/a_1.txt\"".to_string()));
    assert_eq!(d.message_label, "Response Saved");
    assert_eq!(d.message, "Saved to \"/docs/p/a_1.txt\"");
    assert_eq!(d.floating_window, FloatingWindow::Message);
    d.finish_response_save(&ResponseSaveOutcome::NoProjectDir);
    assert_eq!(d.error_message, "Couldn't create project directory to save response");
    assert_eq!(d.floating_window, FloatingWindow::Error);
    d.finish_response_save(&ResponseSaveOutcome::WriteFailed("disk full".to_string()));
    assert_eq!(d.error_message, "disk full");
    d.finish_response_save(&ResponseSaveOutcome::NoDocumentsDir("no docs".to_string()));
    assert_eq!(d.error_message, "no docs");
}
