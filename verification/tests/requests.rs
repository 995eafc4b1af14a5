use tome::projects::{Header, PersistedEndpoint, PersistedProject, PersistedVariable, VariableType};
use tome::requests::{
    form_pairs, get_content_type, get_extension, request_body, request_variables, resolve_headers,
    resolve_url, response_extension, status_label, template_is_safe, RequestBody,
};
use tome::template::{replace_text, replace_variables, ReplaceError};
use tome::variables::Variables;

#[test]
fn test_replace_variables() {
    let input = "https://{{baseUrl}}/something/something/something";
    let mut vars = Variables::new();
    vars.insert("baseUrl", "localhost");

    let replaced = replace_variables(input, &vars);

    let expect = "https://localhost/something/something/something".to_string();

    assert_eq!(replaced.unwrap(), expect);
}

#[test]
fn test_replace_variables_one_var() {
    let input = "{{baseUrl}}";
    let mut vars = Variables::new();
    vars.insert("baseUrl", "localhost");

    let replaced = replace_variables(input, &vars);

    let expect = "localhost".to_string();

    assert_eq!(replaced.unwrap(), expect);
}

#[test]
fn test_replace_multiple_variables() {
    let input = "https://{{baseUrl}}/something/something/{{path}}";
    let mut vars = Variables::new();
    vars.insert("baseUrl", "localhost");
    vars.insert("path", "user");

    let replaced = replace_variables(input, &vars);

    let expect = "https://localhost/something/something/user".to_string();

    assert_eq!(replaced.unwrap(), expect);
}

#[test]
fn test_replace_multiple_incomplete_pairs() {
    let input = "https://{{baseUrl}/something/something/{{path}}";
    let mut vars = Variables::new();
    vars.insert("baseUrl", "localhost");
    vars.insert("path", "user");

    let replaced = replace_variables(input, &vars);

    assert!(replaced.is_err());
}

#[test]
fn test_replace_multiple_incomplete_pairs2() {
    let input = "https://{{baseUrl}}/something/something/{{path}";
    let mut vars = Variables::new();
    vars.insert("baseUrl", "localhost");
    vars.insert("path", "user");

    let replaced = replace_variables(input, &vars);

    assert!(replaced.is_err());
}

#[test]
fn unknown_placeholder_is_left_in_place() {
    let mut vars = Variables::new();
    vars.insert("host", "example.org");
    let replaced = replace_variables("{{host}}/{{missing}}", &vars).unwrap();
    assert_eq!(replaced, "example.org/{{missing}}");
}

#[test]
fn repeated_placeholder_is_replaced_everywhere() {
    let mut vars = Variables::new();
    vars.insert("a", "x");
    let replaced = replace_variables("{{a}}-{{a}}", &vars).unwrap();
    assert_eq!(replaced, "x-x");
}

#[test]
fn imbalanced_brackets_error_message() {
    let vars = Variables::new();
    let error = replace_variables("{{a}", &vars).unwrap_err();
    assert_eq!(error, ReplaceError::ImbalancedBrackets);
    assert_eq!(error.message(), "The opening and closing brackets are imbalanced");
}

#[test]
fn later_variable_overrides_earlier() {
    let mut vars = Variables::new();
    vars.insert("k", "first");
    vars.insert("k", "second");
    assert_eq!(vars.get("k"), Some("second".to_string()));
    assert_eq!(vars.get("other"), None);
}

#[test]
fn closing_before_opening_is_not_safe() {
    assert!(!template_is_safe("}}{{"));
    assert!(template_is_safe("{{a}}"));
    assert!(template_is_safe("{{a}"));
}

#[test]
fn replace_text_replaces_every_occurrence() {
    assert_eq!(replace_text("a/b/c", "/", "_"), "a_b_c");
    assert_eq!(replace_text("dark.tmTheme", ".tmTheme", ""), "dark");
}

fn endpoint(body_mode: &str, raw_type: &str, body: &str) -> PersistedEndpoint {
    PersistedEndpoint {
        name: "users".to_string(),
        url: "https://{{host}}/users".to_string(),
        method: "POST".to_string(),
        headers: vec![
            Header { name: "content-type".to_string(), value: "text/plain".to_string() },
            Header { name: "x-token".to_string(), value: "{{token}}".to_string() },
        ],
        body: body.to_string(),
        body_mode: body_mode.to_string(),
        raw_type: raw_type.to_string(),
    }
}

fn variable(key: &str, value: Option<&str>, private: Option<&str>) -> PersistedVariable {
    PersistedVariable {
        id: Some("1".to_string()),
        key: Some(key.to_string()),
        value: value.map(|v| v.to_string()),
        private: private.map(|v| v.to_string()),
        var_type: Some(VariableType::String),
        name: Some(key.to_string()),
        system: Some(false),
        disabled: Some(false),
    }
}

#[test]
fn content_type_by_body_mode() {
    assert_eq!(get_content_type(&endpoint("none", "", "")), None);
    assert_eq!(get_content_type(&endpoint("formdata", "", "")), Some("multipart/form-data".to_string()));
    assert_eq!(
        get_content_type(&endpoint("x-www-form-urlencoded", "", "")),
        Some("application/x-www-form-urlencoded".to_string())
    );
    assert_eq!(get_content_type(&endpoint("graphql", "", "")), Some("application/json".to_string()));
    assert_eq!(get_content_type(&endpoint("raw", "JSON", "")), Some("application/json".to_string()));
    assert_eq!(get_content_type(&endpoint("raw", "xml", "")), Some("text/xml".to_string()));
    assert_eq!(get_content_type(&endpoint("raw", "yaml", "")), None);
    assert_eq!(get_content_type(&endpoint("binary", "", "")), None);
}

#[test]
fn extension_from_mime_type() {
    assert_eq!(get_extension("application/json"), "json");
    assert_eq!(get_extension("text/plain"), "txt");
    assert_eq!(get_extension("text/html; charset=utf-8"), "html");
    assert_eq!(get_extension("garbage"), "txt");
}

#[test]
fn response_extension_takes_last_content_type() {
    let headers = vec![
        ("Date".to_string(), "today".to_string()),
        ("Content-Type".to_string(), "application/json".to_string()),
    ];
    assert_eq!(response_extension(&headers), "json");
    assert_eq!(response_extension(&vec![]), "txt");
}

#[test]
fn status_label_gives_the_code() {
    assert_eq!(status_label(200), "Response Body (Status Code: 200)");
    assert_eq!(status_label(0), "Response Body (Status Code: 0)");
    assert_eq!(status_label(65535), "Response Body (Status Code: 65535)");
}

#[test]
fn form_fields_split_on_first_equals() {
    let pairs = form_pairs("a=1\nb=2=3\nnovalue\n=x");
    assert_eq!(
        pairs,
        vec![
            ("a".to_string(), "1".to_string()),
            ("b".to_string(), "2=3".to_string()),
            ("".to_string(), "x".to_string()),
        ]
    );
}

#[test]
fn private_value_wins_over_value() {
    let project = PersistedProject {
        name: "p".to_string(),
        endpoints: vec![],
        variable: vec![
            variable("host", Some("public.example"), None),
            variable("token", Some("visible"), Some("secret")),
        ],
    };
    let vars = request_variables(&project);
    assert_eq!(vars.get("host"), Some("public.example".to_string()));
    assert_eq!(vars.get("token"), Some("secret".to_string()));
}

#[test]
fn url_and_headers_resolved_without_content_type() {
    let project = PersistedProject {
        name: "p".to_string(),
        endpoints: vec![],
        variable: vec![variable("host", Some("api.example"), None), variable("token", Some("t0k"), None)],
    };
    let vars = request_variables(&project);
    let e = endpoint("raw", "json", "{}");
    assert_eq!(resolve_url(&e, &vars).unwrap(), "https://api.example/users");
    assert_eq!(
        resolve_headers(&e, &vars).unwrap(),
        vec![("x-token".to_string(), "t0k".to_string())]
    );
}

#[test]
fn request_body_by_mode() {
    match request_body(&endpoint("raw", "json", "{\"a\":1}")) {
        RequestBody::Text(t) => assert_eq!(t, "{\"a\":1}"),
        other => panic!("unexpected body {other:?}"),
    }
    match request_body(&endpoint("formdata", "", "a=1\nb=2")) {
        RequestBody::Multipart(f) => {
            assert_eq!(f, vec![("a".to_string(), "1".to_string()), ("b".to_string(), "2".to_string())])
        }
        other => panic!("unexpected body {other:?}"),
    }
    match request_body(&endpoint("none", "", "ignored")) {
        RequestBody::Text(t) => assert_eq!(t, ""),
        other => panic!("unexpected body {other:?}"),
    }
}

#[test]
fn text_without_placeholders_is_unchanged() {
    let mut vars = Variables::new();
    vars.insert("a", "x");
    assert_eq!(replace_variables("plain/text}}", &vars), Err(ReplaceError::ImbalancedBrackets));
    assert_eq!(replace_variables("plain/text", &vars).unwrap(), "plain/text");
    assert_eq!(replace_variables("{{a}}", &Variables::new()).unwrap(), "{{a}}");
}

#[test]
fn every_placeholder_is_filled_and_the_pieces_kept() {
    let mut vars = Variables::new();
    vars.insert("x", "1");
    vars.insert("z", "");
    let out = replace_variables("a{{x}}b{{y}}c{{x}}{{z}}d", &vars).unwrap();
    assert_eq!(out, "a1b{{y}}c1d");
}
