use tome::projects::{
    check_project_name, delete_endpoint, get_default_headers, project_file_name, rename_endpoint,
    rename_project, Endpoint, Header, PersistedEndpoint, PersistedProject, PersistedVariable,
    Project, ProjectError, ProjectVariable, ProjectVariableType, VariableType, DEFAULT_ENDPOINT_NAME,
    DEFAULT_PROJECT_NAME, DEFAULT_ROW_COLOR,
};

fn stored_endpoint(name: &str, url: &str) -> PersistedEndpoint {
    PersistedEndpoint {
        name: name.to_string(),
        url: url.to_string(),
        method: "GET".to_string(),
        headers: vec![Header { name: "accept".to_string(), value: "*/*".to_string() }],
        body: String::new(),
        body_mode: "raw".to_string(),
        raw_type: "json".to_string(),
    }
}

fn stored_project(name: &str, endpoints: Vec<PersistedEndpoint>) -> PersistedProject {
    PersistedProject { name: name.to_string(), endpoints, variable: vec![] }
}

fn names(project: &PersistedProject) -> Vec<String> {
    project.endpoints.iter().map(|e| e.name.clone()).collect()
}

#[test]
fn rename_endpoint_moves_it_last() {
    let project = stored_project(
        "shop",
        vec![stored_endpoint("a", "u1"), stored_endpoint("b", "u2"), stored_endpoint("c", "u3")],
    );
    let renamed = rename_endpoint(&project, &project.endpoints[0].clone(), "z");
    assert_eq!(names(&renamed), vec!["b", "c", "z"]);
    assert_eq!(renamed.endpoints[2].url, "u1");
    assert_eq!(renamed.name, "shop");
}

#[test]
fn rename_endpoint_drops_every_endpoint_of_the_old_name() {
    let project = stored_project(
        "shop",
        vec![stored_endpoint("a", "u1"), stored_endpoint("a", "u2"), stored_endpoint("b", "u3")],
    );
    let renamed = rename_endpoint(&project, &project.endpoints[1].clone(), "a2");
    assert_eq!(names(&renamed), vec!["b", "a2"]);
    assert_eq!(renamed.endpoints[1].url, "u2");
}

#[test]
fn rename_project_keeps_endpoints() {
    let project = stored_project("old", vec![stored_endpoint("a", "u1")]);
    let renamed = rename_project(&project, "new");
    assert_eq!(renamed.name, "new");
    assert_eq!(names(&renamed), vec!["a"]);
}

#[test]
fn delete_endpoint_removes_equal_endpoints_only() {
    let mut project = stored_project(
        "shop",
        vec![stored_endpoint("a", "u1"), stored_endpoint("b", "u2"), stored_endpoint("a", "other")],
    );
    let target = stored_endpoint("a", "u1");
    delete_endpoint(&mut project, &target);
    assert_eq!(names(&project), vec!["b", "a"]);
    assert_eq!(project.endpoints[1].url, "other");
}

#[test]
fn project_name_must_not_be_blank() {
    assert!(matches!(check_project_name(&stored_project("  ", vec![])), Err(ProjectError::MissingName)));
    assert!(check_project_name(&stored_project(" api ", vec![])).is_ok());
    assert_eq!(ProjectError::MissingName.message(), "Project must have name");
    assert_eq!(ProjectError::Io("disk full".to_string()).message(), "disk full");
    assert_eq!(project_file_name("shop"), "shop.project");
}

#[test]
fn new_endpoint_has_default_headers() {
    let e = Endpoint::new();
    assert_eq!(e.name, DEFAULT_ENDPOINT_NAME);
    assert_eq!(e.method, "GET");
    assert_eq!(e.body_mode, "raw");
    assert_eq!(e.raw_type, "text");
    let headers = get_default_headers();
    assert_eq!(headers.len(), 2);
    assert_eq!(headers[0].name, "user-agent");
    assert_eq!(headers[0].value, "tome-tui");
    assert_eq!(headers[1].name, "content-type");
    assert_eq!(headers[1].value, "application/json");
    let p = Project::new();
    assert_eq!(p.name, DEFAULT_PROJECT_NAME);
    assert_eq!(p.row_color, DEFAULT_ROW_COLOR);
}

#[test]
fn endpoint_round_trip_keeps_stored_fields() {
    let stored = stored_endpoint("users", "https://example.org/users");
    let opened = Endpoint::from_persisted(&stored);
    let back = PersistedEndpoint::from_endpoint(&opened);
    assert!(back.same_as(&stored));
    assert_eq!(opened.row_color, DEFAULT_ROW_COLOR);
}

#[test]
fn project_round_trip_with_complete_variables() {
    let variable = PersistedVariable {
        id: Some("1".to_string()),
        key: Some("host".to_string()),
        value: Some("example.org".to_string()),
        private: Some("".to_string()),
        var_type: Some(VariableType::Number),
        name: Some("Host".to_string()),
        system: Some(true),
        disabled: Some(false),
    };
    let stored = PersistedProject {
        name: "shop".to_string(),
        endpoints: vec![stored_endpoint("a", "u")],
        variable: vec![variable],
    };
    let opened = Project::from_persisted(&stored);
    assert_eq!(opened.variable[0].var_type, ProjectVariableType::Number);
    let back = PersistedProject::from_project(&opened);
    assert_eq!(back.name, stored.name);
    assert!(back.endpoints[0].same_as(&stored.endpoints[0]));
    assert!(back.variable[0].same_as(&stored.variable[0]));
}

#[test]
fn missing_variable_fields_take_defaults() {
    let sparse = PersistedVariable {
        id: None,
        key: Some("k".to_string()),
        value: None,
        private: None,
        var_type: None,
        name: None,
        system: None,
        disabled: None,
    };
    let v = ProjectVariable::from_persisted(&sparse);
    assert_eq!(v.key, "k");
    assert_eq!(v.value, "");
    assert_eq!(v.var_type, ProjectVariableType::String);
    assert!(!v.system);
    let stored = PersistedVariable::from_variable(&v);
    assert_eq!(stored.value, Some(String::new()));
    assert_eq!(stored.var_type, Some(VariableType::String));
}
