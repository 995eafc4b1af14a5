use tome::messages::{
    AddHeaderWindowMessages, ConfirmAction, ConfirmDetails, EditEndpointNameMessages,
    EditProjectNameMessages,
};
use tome::projects::{Header, PersistedEndpoint, PersistedProject};
use tome::ui::{KeyCode, KeyEvent};
use tome::windows::{
    AddHeaderWindow, AddHeaderWindowState, Commands, CommandsState, ConfirmActionWindow,
    ConfirmActionWindowState, ConfirmKeyOutcome, EditEndpointName, EditEndpointNameState,
    EditProjectName, EditProjectNameState, WindowAction,
};

fn key(c: char) -> KeyEvent {
    KeyEvent { code: KeyCode::Char(c), ctrl: false }
}

fn esc() -> KeyEvent {
    KeyEvent { code: KeyCode::Esc, ctrl: false }
}

fn endpoint(name: &str) -> PersistedEndpoint {
    PersistedEndpoint {
        name: name.to_string(),
        url: "https://x".to_string(),
        method: "GET".to_string(),
        headers: vec![],
        body: String::new(),
        body_mode: "raw".to_string(),
        raw_type: "json".to_string(),
    }
}

#[test]
fn confirmation_window_answers_its_question() {
    let mut window = ConfirmActionWindow::new();
    let mut state = ConfirmActionWindowState::new();
    window.message(
        &mut state,
        ConfirmAction::ConfirmDeletePersistedEndpoint(ConfirmDetails {
            title: "Delete users".to_string(),
            message: "Are you sure you want to delete?".to_string(),
            data: endpoint("users"),
        }),
    );
    assert_eq!(state.title, "Delete users");
    assert_eq!(state.message, "Are you sure you want to delete?");
    match window.on_key(key('y')) {
        ConfirmKeyOutcome::Answer(ConfirmAction::ConfirmationDeletePersistedEndpoint(a)) => {
            assert!(a.answer);
            assert_eq!(a.data.name, "users");
        }
        other => panic!("unexpected {other:?}"),
    }
    match window.on_key(key('n')) {
        ConfirmKeyOutcome::Answer(ConfirmAction::ConfirmationDeletePersistedEndpoint(a)) => assert!(!a.answer),
        other => panic!("unexpected {other:?}"),
    }
    assert!(matches!(window.on_key(esc()), ConfirmKeyOutcome::Cancel));
    assert!(matches!(window.on_key(key('x')), ConfirmKeyOutcome::Nothing));
}

#[test]
fn commands_window_publishes_the_key() {
    let mut state = CommandsState::new();
    assert_eq!(state.command, ' ');
    match Commands.on_key(key('v'), &mut state) {
        WindowAction::Publish(e) => assert_eq!(e, "commands__selection"),
        other => panic!("unexpected {other:?}"),
    }
    assert_eq!(state.command, 'v');
    match Commands.on_key(esc(), &mut state) {
        WindowAction::Publish(e) => assert_eq!(e, "commands__cancel"),
        other => panic!("unexpected {other:?}"),
    }
}

#[test]
fn endpoint_name_in_use_is_refused() {
    let mut window = EditEndpointName::new();
    let mut state = EditEndpointNameState::new();
    let input = window.message(
        &mut state,
        EditEndpointNameMessages::InputValue(("list".to_string(), vec!["list".to_string(), "get".to_string()])),
    );
    assert_eq!(input.text, "list");
    assert!(input.focus);
    assert!(matches!(window.on_key(key('s'), &mut state), WindowAction::Nothing));
    assert_eq!(state.unique_name_error, "The name 'list' is already in use");
    state.name = "fresh".to_string();
    match window.on_key(key('s'), &mut state) {
        WindowAction::Publish(e) => assert_eq!(e, "edit_endpoint_name__submit"),
        other => panic!("unexpected {other:?}"),
    }
    match window.on_key(esc(), &mut state) {
        WindowAction::Publish(e) => assert_eq!(e, "edit_endpoint_name__cancel"),
        other => panic!("unexpected {other:?}"),
    }
    assert_eq!(state.unique_name_error, "");
}

#[test]
fn picked_endpoint_asks_for_a_stored_rename() {
    let mut window = EditEndpointName::new();
    let mut state = EditEndpointNameState::new();
    let input = window.message(
        &mut state,
        EditEndpointNameMessages::Specifically(("shop".to_string(), endpoint("users"), vec!["users".to_string()])),
    );
    assert_eq!(input.text, "users");
    state.name = "people".to_string();
    match window.on_key(key('s'), &mut state) {
        WindowAction::RenameEndpoint { project_name, endpoint, new_name } => {
            assert_eq!(project_name, "shop");
            assert_eq!(endpoint.name, "users");
            assert_eq!(new_name, "people");
        }
        other => panic!("unexpected {other:?}"),
    }
    let change = state.specific_name_change.unwrap();
    assert_eq!(change.old_name, "users");
    assert_eq!(change.new_name, "people");
}

#[test]
fn project_name_window_submits_or_renames() {
    let mut window = EditProjectName::new();
    let mut state = EditProjectNameState::new();
    let input = window.message(&mut state, EditProjectNameMessages::InputValue("shop".to_string()));
    assert_eq!(input.text, "shop");
    match window.on_key(key('s'), &mut state) {
        WindowAction::Publish(e) => assert_eq!(e, "edit_project_name__submit"),
        other => panic!("unexpected {other:?}"),
    }
    window.message(
        &mut state,
        EditProjectNameMessages::Specifically(PersistedProject {
            name: "old".to_string(),
            endpoints: vec![],
            variable: vec![],
        }),
    );
    state.name = "new".to_string();
    match window.on_key(key('s'), &mut state) {
        WindowAction::RenameProject { project, new_name } => {
            assert_eq!(project.name, "old");
            assert_eq!(new_name, "new");
        }
        other => panic!("unexpected {other:?}"),
    }
    match window.on_key(key('p'), &mut state) {
        WindowAction::Focus(n) => assert_eq!(n, "project_name_input"),
        other => panic!("unexpected {other:?}"),
    }
    let cleared = window.message(&mut state, EditProjectNameMessages::ClearInput);
    assert_eq!(cleared.text, "");
    assert!(!cleared.focus);
    assert_eq!(state.name, "");
}

#[test]
fn header_window_tracks_its_inputs() {
    let window = AddHeaderWindow;
    let mut state = AddHeaderWindowState::new();
    let (name, value) = window.message(
        &mut state,
        AddHeaderWindowMessages::Specifically((
            "accept".to_string(),
            Header { name: "accept".to_string(), value: "*/*".to_string() },
            vec!["accept".to_string()],
        )),
    );
    assert_eq!((name.as_str(), value.as_str()), ("accept", "*/*"));
    match window.receive(&mut state, "header_value_update", "text/html") {
        WindowAction::Publish(e) => assert_eq!(e, "add_header__value_update"),
        other => panic!("unexpected {other:?}"),
    }
    assert_eq!(state.header.value, "text/html");
    assert_eq!(state.header.name, "accept");
    match window.on_key(key('v')) {
        WindowAction::Focus(n) => assert_eq!(n, "header_value_input"),
        other => panic!("unexpected {other:?}"),
    }
    match window.on_key(key('s')) {
        WindowAction::Publish(e) => assert_eq!(e, "add_header__submit"),
        other => panic!("unexpected {other:?}"),
    }
}

#[test]
fn name_inputs_report_to_their_windows() {
    let window = EditEndpointName::new();
    let mut state = EditEndpointNameState::new();
    assert!(matches!(window.receive(&mut state, "name_input_update", "users"), WindowAction::Nothing));
    assert_eq!(state.name, "users");
    match window.receive(&mut state, "name_input_escape", "") {
        WindowAction::Focus(n) => assert_eq!(n, "edit_endpoint_name"),
        other => panic!("unexpected {other:?}"),
    }
    let window = EditProjectName::new();
    let mut state = EditProjectNameState::new();
    window.receive(&mut state, "name_input_update", "shop");
    assert_eq!(state.name, "shop");
    assert!(matches!(window.receive(&mut state, "other", "x"), WindowAction::Nothing));
    assert_eq!(state.name, "shop");
}
