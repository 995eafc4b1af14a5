//! The dashboard's longer flows: saving, deleting after a confirmation,
//! sending a request and showing its response. Each is split where the disk
//! or the network is reached: the dashboard decides what to write or send,
//! the interface does it and hands back how it went, and the dashboard
//! decides what to show.

use vstd::prelude::*;

use crate::dashboard::{DashboardState, DashboardView};
use crate::dashboard_events::strings_view;
use crate::messages::{
    AddProjectVariableMessages, ConfirmAction, EditEndpointNameMessages, EditProjectNameMessages,
};
use crate::projects::{
    DEFAULT_ENDPOINT_NAME, DEFAULT_PROJECT_NAME, Endpoint, EndpointData, EndpointView, Header,
    HeaderData, PersistedEndpoint, PersistedProject, PersistedVariable, Project, ProjectData,
    ProjectError, ProjectView, VariableData, chars_or_empty, new_endpoint_view, new_project_view,
    opened_endpoint, opened_project, stored_endpoint, stored_project,
};
use crate::projects::{HeaderState, HeaderStateView};
use crate::requests::{
    RequestBody, bindings_map, body_plan, decimal, extension_after, headers_safe, pairs_view,
    push_decimal, request_body, request_variables, resolve_headers, resolve_url, resolved_headers,
    response_extension, status_label, status_label_text, template_safe,
};
use crate::template::{ReplaceError, brackets_balanced, substituted};
use crate::text::{chars_of, concat, str_is, string_of};
use crate::ui::{DashboardDisplay, FloatingWindow};

verus! {

// ---------------------------------------------------------------------------
// Finding the first match
// ---------------------------------------------------------------------------
/// The first index at or after `i` where `s` holds `x`.
pub open spec fn first_equal<A>(s: Seq<A>, x: A, i: nat) -> Option<nat>
    decreases s.len() - i,
{
    if i >= s.len() {
        None
    } else if s[i as int] == x {
        Some(i)
    } else {
        first_equal(s, x, i + 1)
    }
}

/// `first_equal` finds the first occurrence at or after `i`, or says there
/// is none.
pub proof fn lemma_first_equal<A>(s: Seq<A>, x: A, i: nat)
    ensures
        match first_equal(s, x, i) {
            Some(k) => i <= k < s.len() && s[k as int] == x && forall|j: int|
                i <= j < k ==> s[j] != x,
            None => forall|j: int| i <= j < s.len() ==> s[j] != x,
        },
    decreases s.len() - i,
{
    if i < s.len() && s[i as int] != x {
        lemma_first_equal(s, x, i + 1);
    }
}

/// The names of stored endpoints.
pub open spec fn endpoint_names(s: Seq<EndpointData>) -> Seq<Seq<char>> {
    s.map_values(|e: EndpointData| e.name)
}

/// The names of stored headers.
pub open spec fn header_names(s: Seq<HeaderData>) -> Seq<Seq<char>> {
    s.map_values(|h: HeaderData| h.name)
}

/// The names of the project's variables.
pub open spec fn variable_names(p: ProjectView) -> Seq<Seq<char>> {
    p.variable.map_values(|v: crate::projects::ProjectVariableView| v.name)
}

/// The names of the project's endpoints.
pub open spec fn open_endpoint_names(p: ProjectView) -> Seq<Seq<char>> {
    p.endpoints.map_values(|e: EndpointView| e.name)
}

/// The index of the first endpoint named `name`.
fn find_endpoint_named(es: &Vec<PersistedEndpoint>, name: &String) -> (r: Option<usize>)
    ensures
        match r {
            Some(k) => k < es@.len() && first_equal(
                endpoint_names(es@.map_values(|e: PersistedEndpoint| e@)),
                name@,
                0,
            ) == Some(k as nat),
            None => first_equal(endpoint_names(es@.map_values(|e: PersistedEndpoint| e@)), name@, 0)
                is None,
        },
{
    let ghost names = endpoint_names(es@.map_values(|e: PersistedEndpoint| e@));
    let mut i: usize = 0;
    while i < es.len()
        invariant
            i <= es@.len(),
            names == endpoint_names(es@.map_values(|e: PersistedEndpoint| e@)),
            forall|j: int| 0 <= j < i ==> names[j] != name@,
        decreases es@.len() - i,
    {
        assert(names[i as int] == es@[i as int]@.name);
        if es[i].name == *name {
            proof {
                lemma_first_equal(names, name@, 0);
            }
            return Some(i);
        }
        i += 1;
    }
    proof {
        lemma_first_equal(names, name@, 0);
    }
    None
}

/// The index of the first header named `name`.
fn find_header_named(hs: &Vec<Header>, name: &String) -> (r: Option<usize>)
    ensures
        match r {
            Some(k) => k < hs@.len() && first_equal(
                header_names(hs@.map_values(|h: Header| h@)),
                name@,
                0,
            ) == Some(k as nat),
            None => first_equal(header_names(hs@.map_values(|h: Header| h@)), name@, 0) is None,
        },
{
    let ghost names = header_names(hs@.map_values(|h: Header| h@));
    let mut i: usize = 0;
    while i < hs.len()
        invariant
            i <= hs@.len(),
            names == header_names(hs@.map_values(|h: Header| h@)),
            forall|j: int| 0 <= j < i ==> names[j] != name@,
        decreases hs@.len() - i,
    {
        assert(names[i as int] == hs@[i as int]@.name);
        if hs[i].name == *name {
            proof {
                lemma_first_equal(names, name@, 0);
            }
            return Some(i);
        }
        i += 1;
    }
    proof {
        lemma_first_equal(names, name@, 0);
    }
    None
}

// ---------------------------------------------------------------------------
// Messages and errors
// ---------------------------------------------------------------------------
/// The dashboard showing a message window.
pub open spec fn with_message(v: DashboardView, title: Seq<char>, message: Seq<char>) -> DashboardView {
    DashboardView {
        message: message,
        message_label: title,
        floating_window: FloatingWindow::Message,
        ..v
    }
}

/// The dashboard showing an error window.
pub open spec fn with_error(v: DashboardView, message: Seq<char>) -> DashboardView {
    DashboardView { error_message: message, floating_window: FloatingWindow::Error, ..v }
}

fn concat3(a: &str, b: &str, c: &str) -> (r: String)
    ensures
        r@ == a@ + b@ + c@,
{
    let ab = concat(a, b);
    concat(ab.as_str(), c)
}

// ---------------------------------------------------------------------------
// Saving
// ---------------------------------------------------------------------------
/// The project after `e` is saved into it: the first endpoint with the same
/// name leaves, and `e` comes last.
pub open spec fn endpoint_saved(p: ProjectData, e: EndpointData) -> ProjectData {
    ProjectData {
        name: p.name,
        endpoints: match first_equal(endpoint_names(p.endpoints), e.name, 0) {
            Some(k) => p.endpoints.remove(k as int),
            None => p.endpoints,
        }.push(e),
        variable: p.variable,
    }
}

/// Saving an endpoint into a project that holds at most one endpoint of its
/// name, and saving it again, leaves the project as the first save did.
pub proof fn law_endpoint_save_idempotent(p: ProjectData, e: EndpointData)
    requires
        forall|i: int, j: int|
            0 <= i < p.endpoints.len() && 0 <= j < p.endpoints.len() && p.endpoints[i].name
                == e.name && p.endpoints[j].name == e.name ==> i == j,
    ensures
        endpoint_saved(endpoint_saved(p, e), e) == endpoint_saved(p, e),
{
    let q = endpoint_saved(p, e);
    let names = endpoint_names(p.endpoints);
    lemma_first_equal(names, e.name, 0);
    let kept = match first_equal(names, e.name, 0) {
        Some(k) => p.endpoints.remove(k as int),
        None => p.endpoints,
    };
    assert forall|j: int| 0 <= j < kept.len() implies kept[j].name != e.name by {
        match first_equal(names, e.name, 0) {
            Some(k) => {
                if j < k {
                    assert(names[j] == p.endpoints[j].name);
                } else {
                    assert(kept[j] == p.endpoints[j + 1]);
                    assert(p.endpoints[k as int].name == e.name) by {
                        assert(names[k as int] == p.endpoints[k as int].name);
                    }
                }
            },
            None => {
                assert(names[j] == p.endpoints[j].name);
            },
        }
    }
    let qnames = endpoint_names(q.endpoints);
    lemma_first_equal(qnames, e.name, 0);
    assert(qnames[kept.len() as int] == e.name);
    assert forall|j: int| 0 <= j < kept.len() implies qnames[j] != e.name by {
        assert(qnames[j] == kept[j].name);
    }
    assert(first_equal(qnames, e.name, 0) == Some(kept.len()));
    assert(q.endpoints.remove(kept.len() as int) =~= kept);
    assert(endpoint_saved(q, e).endpoints =~= q.endpoints);
}

/// After an endpoint is saved, it is the project's last endpoint.
pub proof fn law_endpoint_saved_last(p: ProjectData, e: EndpointData)
    ensures
        endpoint_saved(p, e).endpoints.last() == e,
        endpoint_saved(p, e).name == p.name,
        endpoint_saved(p, e).variable == p.variable,
{
}

impl DashboardState {
    /// A project save ended: on success the message is shown when asked; on
    /// failure the error is shown.
    pub fn finish_project_save(&mut self, result: &Result<(), ProjectError>, show_message: bool)
        ensures
            match result {
                Ok(_) => final(self)@ == (if show_message {
                    with_message(old(self)@, "Project Save"@, "Saved project successfully"@)
                } else {
                    old(self)@
                }),
                Err(e) => final(self)@ == with_error(old(self)@, e.message_text()),
            },
    {
        match result {
            Ok(_) => {
                if show_message {
                    self.show_message("Project Save", "Saved project successfully");
                }
            },
            Err(e) => {
                let m = e.message();
                self.show_error(m.as_str());
            },
        }
    }

    /// What saving the open endpoint writes: its project with the endpoint
    /// saved into it. An endpoint or a project still under the default name
    /// is not saved, and the error says which.
    pub fn plan_endpoint_save(&mut self) -> (r: Option<PersistedProject>)
        ensures
            if old(self)@.endpoint.name == DEFAULT_ENDPOINT_NAME@ {
                r is None && final(self)@ == with_error(
                    old(self)@,
                    "Please give your endpoint a name to save"@,
                )
            } else if old(self)@.project.name == DEFAULT_PROJECT_NAME@ {
                r is None && final(self)@ == with_error(
                    old(self)@,
                    "Please give your project a name to save"@,
                )
            } else {
                final(self)@ == old(self)@ && (r matches Some(p) && p@ == endpoint_saved(
                    stored_project(old(self)@.project),
                    stored_endpoint(old(self)@.endpoint),
                ))
            },
    {
        if str_is(self.endpoint.name.as_str(), DEFAULT_ENDPOINT_NAME) {
            self.show_error("Please give your endpoint a name to save");
            return None;
        }
        if str_is(self.project.name.as_str(), DEFAULT_PROJECT_NAME) {
            self.show_error("Please give your project a name to save");
            return None;
        }
        let mut project = PersistedProject::from_project(&self.project);
        let ghost before = project@;
        let endpoint = PersistedEndpoint::from_endpoint(&self.endpoint);
        let found = find_endpoint_named(&project.endpoints, &endpoint.name);
        assert(project.endpoints@.map_values(|e: PersistedEndpoint| e@) == before.endpoints);
        match found {
            Some(k) => {
                let ghost all = project.endpoints@;
                project.endpoints.remove(k);
                assert(project.endpoints@.map_values(|e: PersistedEndpoint| e@) =~= all.map_values(
                    |e: PersistedEndpoint| e@,
                ).remove(k as int));
            },
            None => {},
        }
        let ghost kept = project.endpoints@;
        project.endpoints.push(endpoint);
        assert(project@.endpoints =~= kept.map_values(|e: PersistedEndpoint| e@).push(
            stored_endpoint(self@.endpoint),
        ));
        Some(project)
    }

    /// An endpoint save ended: on success the project becomes what was
    /// saved, and the message is shown when asked; on failure the error is
    /// shown.
    pub fn finish_endpoint_save(
        &mut self,
        saved: &PersistedProject,
        result: &Result<(), ProjectError>,
        show_message: bool,
    )
        ensures
            match result {
                Ok(_) => final(self)@ == (DashboardView {
                    project: opened_project(saved@),
                    ..(if show_message {
                        with_message(old(self)@, "Endpoint Save"@, "Saved endpoint successfully"@)
                    } else {
                        old(self)@
                    })
                }),
                Err(e) => final(self)@ == with_error(old(self)@, e.message_text()),
            },
    {
        match result {
            Ok(_) => {
                if show_message {
                    self.show_message("Endpoint Save", "Saved endpoint successfully");
                }
                self.project = Project::from_persisted(saved);
            },
            Err(e) => {
                let m = e.message();
                self.show_error(m.as_str());
            },
        }
    }

    /// A new project replaces the open one once the old one was saved
    /// quietly: a failed save leaves its error behind, and the floating
    /// window closes.
    pub fn start_new_project(&mut self, saved: &Result<(), ProjectError>)
        ensures
            final(self)@ == (DashboardView {
                project: new_project_view(),
                endpoint: new_endpoint_view(),
                floating_window: FloatingWindow::NoWindow,
                error_message: match saved {
                    Ok(_) => old(self)@.error_message,
                    Err(e) => e.message_text(),
                },
                ..old(self)@
            }),
    {
        self.finish_project_save(saved, false);
        self.project = Project::new();
        self.endpoint = Endpoint::new();
        self.floating_window = FloatingWindow::NoWindow;
    }

    /// A new endpoint replaces the open one.
    pub fn start_new_endpoint(&mut self)
        ensures
            final(self)@ == (DashboardView { endpoint: new_endpoint_view(), ..old(self)@ }),
    {
        self.endpoint = Endpoint::new();
    }
}

// ---------------------------------------------------------------------------
// Windows that edit names
// ---------------------------------------------------------------------------
/// What a name input starts with: the name, or nothing while it is the
/// default one.
pub open spec fn name_input(name: Seq<char>, default: Seq<char>) -> Seq<char> {
    if name == default {
        ""@
    } else {
        name
    }
}

impl DashboardState {
    /// The names of the project's endpoints.
    pub fn endpoint_names(&self) -> (r: Vec<String>)
        ensures
            strings_view(r@) == open_endpoint_names(self@.project),
    {
        let mut r: Vec<String> = Vec::new();
        let mut i: usize = 0;
        while i < self.project.endpoints.len()
            invariant
                i <= self.project.endpoints@.len(),
                r@.len() == i,
                forall|j: int| 0 <= j < i ==> r@[j]@ == self.project.endpoints@[j]@.name,
            decreases self.project.endpoints@.len() - i,
        {
            r.push(self.project.endpoints[i].name.clone());
            i += 1;
        }
        assert(strings_view(r@) =~= open_endpoint_names(self@.project));
        r
    }

    /// The names of the project's variables.
    pub fn variable_names(&self) -> (r: Vec<String>)
        ensures
            strings_view(r@) == variable_names(self@.project),
    {
        let mut r: Vec<String> = Vec::new();
        let mut i: usize = 0;
        while i < self.project.variable.len()
            invariant
                i <= self.project.variable@.len(),
                r@.len() == i,
                forall|j: int| 0 <= j < i ==> r@[j]@ == self.project.variable@[j]@.name,
            decreases self.project.variable@.len() - i,
        {
            r.push(self.project.variable[i].name.clone());
            i += 1;
        }
        assert(strings_view(r@) =~= variable_names(self@.project));
        r
    }

    /// What the window renaming the project is given when it opens.
    pub fn edit_project_name_request(&self) -> (r: EditProjectNameMessages)
        ensures
            r matches EditProjectNameMessages::InputValue(v) && v@ == name_input(
                self@.project.name,
                DEFAULT_PROJECT_NAME@,
            ),
    {
        if str_is(self.project.name.as_str(), DEFAULT_PROJECT_NAME) {
            EditProjectNameMessages::InputValue("".to_owned())
        } else {
            EditProjectNameMessages::InputValue(self.project.name.clone())
        }
    }

    /// What the window renaming the endpoint is given when it opens: its
    /// input, and the names already taken.
    pub fn edit_endpoint_name_request(&self) -> (r: EditEndpointNameMessages)
        ensures
            r matches EditEndpointNameMessages::InputValue((v, names)) && v@ == name_input(
                self@.endpoint.name,
                DEFAULT_ENDPOINT_NAME@,
            ) && strings_view(names@) == open_endpoint_names(self@.project),
    {
        let input = if str_is(self.endpoint.name.as_str(), DEFAULT_ENDPOINT_NAME) {
            "".to_owned()
        } else {
            self.endpoint.name.clone()
        };
        EditEndpointNameMessages::InputValue((input, self.endpoint_names()))
    }

    /// The project's endpoints, as stored, for the endpoints selector.
    pub fn stored_endpoints(&self) -> (r: Vec<PersistedEndpoint>)
        ensures
            r@.map_values(|e: PersistedEndpoint| e@) == stored_project(self@.project).endpoints,
    {
        PersistedProject::from_project(&self.project).endpoints
    }

    /// The open endpoint's headers, as stored, for the header selector.
    pub fn stored_headers(&self) -> (r: Vec<Header>)
        ensures
            r@.map_values(|h: Header| h@) == stored_endpoint(self@.endpoint).headers,
    {
        PersistedEndpoint::from_endpoint(&self.endpoint).headers
    }

    /// A project was picked for renaming: its window opens with it. When the
    /// pick could not be read, the floating window closes.
    pub fn open_project_rename(&mut self, project: Option<PersistedProject>) -> (r: Option<
        EditProjectNameMessages,
    >)
        ensures
            project is None ==> r is None && final(self)@ == (DashboardView {
                floating_window: FloatingWindow::NoWindow,
                ..old(self)@
            }),
            project matches Some(p) ==> final(self)@ == (DashboardView {
                floating_window: FloatingWindow::ChangeProjectName,
                ..old(self)@
            }) && (r matches Some(EditProjectNameMessages::Specifically(q)) && q@ == p@),
    {
        match project {
            None => {
                self.floating_window = FloatingWindow::NoWindow;
                None
            },
            Some(p) => {
                self.floating_window = FloatingWindow::ChangeProjectName;
                Some(EditProjectNameMessages::Specifically(p))
            },
        }
    }

    /// An endpoint was picked for renaming: its window opens with the
    /// project's name, the endpoint and the names already taken. When the
    /// pick could not be read, the floating window closes.
    pub fn open_endpoint_rename(&mut self, endpoint: Option<PersistedEndpoint>) -> (r: Option<
        EditEndpointNameMessages,
    >)
        ensures
            endpoint is None ==> r is None && final(self)@ == (DashboardView {
                floating_window: FloatingWindow::NoWindow,
                ..old(self)@
            }),
            endpoint matches Some(e) ==> final(self)@ == (DashboardView {
                floating_window: FloatingWindow::ChangeEndpointName,
                ..old(self)@
            }) && (r matches Some(EditEndpointNameMessages::Specifically((n, e2, names))) && n@
                == old(self)@.project.name && e2@ == e@ && strings_view(names@)
                == open_endpoint_names(old(self)@.project)),
    {
        match endpoint {
            None => {
                self.floating_window = FloatingWindow::NoWindow;
                None
            },
            Some(e) => {
                let names = self.endpoint_names();
                let project_name = self.project.name.clone();
                self.floating_window = FloatingWindow::ChangeEndpointName;
                Some(EditEndpointNameMessages::Specifically((project_name, e, names)))
            },
        }
    }

    /// A variable was picked for renaming: the window editing variables opens
    /// with the project's name, the variable and the names already taken.
    /// When the pick could not be read, the floating window closes.
    pub fn open_variable_rename(&mut self, variable: Option<PersistedVariable>) -> (r: Option<
        AddProjectVariableMessages,
    >)
        ensures
            variable is None ==> r is None && final(self)@ == (DashboardView {
                floating_window: FloatingWindow::NoWindow,
                ..old(self)@
            }),
            variable matches Some(v) ==> final(self)@ == (DashboardView {
                floating_window: FloatingWindow::AddProjectVariable,
                ..old(self)@
            }) && (r matches Some(AddProjectVariableMessages::Specifically((n, v2, names))) && n@
                == old(self)@.project.name && v2@ == v@ && strings_view(names@) == variable_names(
                old(self)@.project,
            )),
    {
        match variable {
            None => {
                self.floating_window = FloatingWindow::NoWindow;
                None
            },
            Some(v) => {
                let names = self.variable_names();
                let project_name = self.project.name.clone();
                self.floating_window = FloatingWindow::AddProjectVariable;
                Some(AddProjectVariableMessages::Specifically((project_name, v, names)))
            },
        }
    }
}

// ---------------------------------------------------------------------------
// Deleting after a confirmation
// ---------------------------------------------------------------------------
/// The open endpoint can lose its header named `name`: it has such a header,
/// and its project has an endpoint of its name.
pub open spec fn header_deletable(v: DashboardView, name: Seq<char>) -> bool {
    &&& first_equal(header_names(stored_endpoint(v.endpoint).headers), name, 0) is Some
    &&& first_equal(endpoint_names(stored_project(v.project).endpoints), v.endpoint.name, 0) is Some
}

/// The stored endpoint without its first header named `name`.
pub open spec fn without_header(e: EndpointData, name: Seq<char>) -> EndpointData {
    EndpointData {
        headers: e.headers.remove(first_equal(header_names(e.headers), name, 0)->Some_0 as int),
        ..e
    }
}

/// The stored project whose first endpoint named `name` takes the headers
/// `hs`.
pub open spec fn with_endpoint_headers(p: ProjectData, name: Seq<char>, hs: Seq<HeaderData>) -> ProjectData {
    let k = first_equal(endpoint_names(p.endpoints), name, 0)->Some_0 as int;
    ProjectData { endpoints: p.endpoints.update(k, EndpointData { headers: hs, ..p.endpoints[k] }), ..p }
}

/// The dashboard after the open project loses its variable at `k`.
pub open spec fn variable_removed(v: DashboardView, k: int) -> DashboardView {
    DashboardView { project: ProjectView { variable: v.project.variable.remove(k), ..v.project }, ..v }
}

/// The index of the first variable of the project whose stored form is `v`.
fn find_variable(project: &Project, v: &PersistedVariable) -> (r: Option<usize>)
    ensures
        match r {
            Some(k) => k < project.variable@.len() && first_equal(
                crate::dashboard_events::stored_variables_of(project@),
                v@,
                0,
            ) == Some(k as nat),
            None => first_equal(crate::dashboard_events::stored_variables_of(project@), v@, 0) is None,
        },
{
    let ghost all = crate::dashboard_events::stored_variables_of(project@);
    let mut i: usize = 0;
    while i < project.variable.len()
        invariant
            i <= project.variable@.len(),
            all == crate::dashboard_events::stored_variables_of(project@),
            forall|j: int| 0 <= j < i ==> all[j] != v@,
        decreases project.variable@.len() - i,
    {
        let stored = PersistedVariable::from_variable(&project.variable[i]);
        assert(all[i as int] == stored@);
        if stored.same_as(v) {
            proof {
                lemma_first_equal(all, v@, 0);
            }
            return Some(i);
        }
        i += 1;
    }
    proof {
        lemma_first_equal(all, v@, 0);
    }
    None
}

/// What the interface does after a confirmation was answered.
#[derive(Debug)]
pub enum ConfirmStep {
    /// Nothing more.
    Nothing,
    /// The deletion was declined and the window closed: give the focus back
    /// to the application.
    Declined,
    /// Delete the stored project, then save `project` (a failed save goes
    /// unreported), and finish with `finish_header_deletion`.
    DeleteHeader { project: PersistedProject, endpoint: PersistedEndpoint },
    /// The open project and endpoint were reset: clear the URL and body
    /// inputs, delete `project`, and finish with `finish_project_deletion`.
    DeleteProject { project: PersistedProject },
    /// Delete the stored project, remove the endpoint from it, save it, and
    /// finish with `finish_endpoint_deletion`; when `cleared`, the open
    /// endpoint was the one deleted and was reset: clear the inputs.
    DeleteEndpoint { endpoint: PersistedEndpoint, cleared: bool },
    /// The variable left the open project: save `project`, and finish with
    /// `finish_variable_deletion`.
    DeleteVariable { variable: PersistedVariable, project: PersistedProject },
}

impl DashboardState {
    /// Whether the open endpoint can lose its header named `name`.
    pub fn can_delete_header(&self, name: &String) -> (r: bool)
        ensures
            r == header_deletable(self@, name@),
    {
        let endpoint = PersistedEndpoint::from_endpoint(&self.endpoint);
        let project = PersistedProject::from_project(&self.project);
        find_header_named(&endpoint.headers, name).is_some() && find_endpoint_named(
            &project.endpoints,
            &endpoint.name,
        ).is_some()
    }

    /// What deleting the header named `name` writes: the open endpoint
    /// without it, and the project whose endpoint of that name takes the
    /// remaining headers.
    pub fn header_deletion(&self, name: &String) -> (r: (PersistedProject, PersistedEndpoint))
        requires
            header_deletable(self@, name@),
        ensures
            r.1@ == without_header(stored_endpoint(self@.endpoint), name@),
            r.0@ == with_endpoint_headers(stored_project(self@.project), self@.endpoint.name, r.1@.headers),
    {
        let mut endpoint = PersistedEndpoint::from_endpoint(&self.endpoint);
        let ghost e0 = endpoint@;
        let k = match find_header_named(&endpoint.headers, name) {
            Some(k) => k,
            None => {
                proof {
                    assert(false);
                }
                0
            },
        };
        let ghost hs = endpoint.headers@;
        endpoint.headers.remove(k);
        assert(endpoint@.headers =~= hs.map_values(|h: Header| h@).remove(k as int));
        assert(endpoint@ == without_header(e0, name@));
        let mut project = PersistedProject::from_project(&self.project);
        let ghost p0 = project@;
        let j = match find_endpoint_named(&project.endpoints, &endpoint.name) {
            Some(j) => j,
            None => {
                proof {
                    assert(false);
                }
                0
            },
        };
        let ghost es = project.endpoints@;
        let mut e = project.endpoints.remove(j);
        e.headers = crate::projects::clone_headers(&endpoint.headers);
        let ghost changed = e;
        project.endpoints.insert(j, e);
        assert(project.endpoints@ =~= es.update(j as int, changed));
        assert(project@.endpoints =~= p0.endpoints.update(
            j as int,
            EndpointData { headers: endpoint@.headers, ..p0.endpoints[j as int] },
        ));
        (project, endpoint)
    }

    /// The project is to be deleted: the open project and endpoint are
    /// reset, and the project as it was is what to delete.
    pub fn begin_project_deletion(&mut self) -> (r: PersistedProject)
        ensures
            r@ == stored_project(old(self)@.project),
            final(self)@ == (DashboardView {
                project: new_project_view(),
                endpoint: new_endpoint_view(),
                ..old(self)@
            }),
    {
        let r = PersistedProject::from_project(&self.project);
        self.project = Project::new();
        self.endpoint = Endpoint::new();
        r
    }

    /// The endpoint `endpoint` is to be deleted: when it is the open one,
    /// the open endpoint is reset, and the result says so.
    pub fn begin_endpoint_deletion(&mut self, endpoint: &PersistedEndpoint) -> (cleared: bool)
        ensures
            cleared == (endpoint@ == stored_endpoint(old(self)@.endpoint)),
            final(self)@ == (if cleared {
                DashboardView { endpoint: new_endpoint_view(), ..old(self)@ }
            } else {
                old(self)@
            }),
    {
        let current = PersistedEndpoint::from_endpoint(&self.endpoint);
        if endpoint.same_as(&current) {
            self.endpoint = Endpoint::new();
            true
        } else {
            false
        }
    }

    /// The variable `variable` is to be deleted: the first variable of the
    /// open project stored as it leaves, and the project as it is now is what
    /// to save. Without such a variable nothing changes.
    pub fn remove_variable(&mut self, variable: &PersistedVariable) -> (r: Option<PersistedProject>)
        ensures
            match first_equal(crate::dashboard_events::stored_variables_of(old(self)@.project), variable@, 0) {
                Some(k) => final(self)@ == variable_removed(old(self)@, k as int) && (r matches Some(
                    p,
                ) && p@ == stored_project(final(self)@.project)),
                None => r is None && final(self)@ == old(self)@,
            },
    {
        match find_variable(&self.project, variable) {
            Some(k) => {
                let ghost vs = self.project.variable@;
                self.project.variable.remove(k);
                assert(self@.project.variable =~= vs.map_values(
                    |v: crate::projects::ProjectVariable| v@,
                ).remove(k as int));
                Some(PersistedProject::from_project(&self.project))
            },
            None => None,
        }
    }

    /// A header deletion ended. When the stored project was deleted, the
    /// open project and endpoint become what was written, and a message says
    /// so; otherwise the error is shown.
    pub fn finish_header_deletion(
        &mut self,
        project: &PersistedProject,
        endpoint: &PersistedEndpoint,
        result: &Result<(), ProjectError>,
    )
        ensures
            match result {
                Ok(_) => final(self)@ == with_message(
                    DashboardView {
                        project: opened_project(project@),
                        endpoint: opened_endpoint(endpoint@),
                        ..old(self)@
                    },
                    "Delete Header"@,
                    "Header was deleted successfully"@,
                ),
                Err(_) => final(self)@ == with_error(
                    old(self)@,
                    "There was an error deleting the header"@,
                ),
            },
    {
        match result {
            Ok(_) => {
                self.project = Project::from_persisted(project);
                self.endpoint = Endpoint::from_persisted(endpoint);
                self.show_message("Delete Header", "Header was deleted successfully");
            },
            Err(_) => self.show_error("There was an error deleting the header"),
        }
    }

    /// A project deletion ended: a message or an error names the project.
    pub fn finish_project_deletion(&mut self, project: &PersistedProject, result: &Result<(), ProjectError>)
        ensures
            match result {
                Ok(_) => final(self)@ == with_message(
                    old(self)@,
                    "Delete Project Success"@,
                    "Project '"@ + project@.name + "' has been deleted"@,
                ),
                Err(_) => final(self)@ == with_error(
                    old(self)@,
                    "There was an error deleting '"@ + project@.name,
                ),
            },
    {
        match result {
            Ok(_) => {
                let m = concat3("Project '", project.name.as_str(), "' has been deleted");
                self.show_message("Delete Project Success", m.as_str());
            },
            Err(_) => {
                let m = concat("There was an error deleting '", project.name.as_str());
                self.show_error(m.as_str());
            },
        }
    }

    /// An endpoint deletion ended. On success the open project loses every
    /// endpoint equal to it, and a message names it; otherwise the error
    /// names it.
    pub fn finish_endpoint_deletion(&mut self, endpoint: &PersistedEndpoint, result: &Result<(), ProjectError>)
        ensures
            match result {
                Ok(_) => final(self)@ == with_message(
                    DashboardView {
                        project: opened_project(
                            crate::projects::endpoint_deleted(stored_project(old(self)@.project), endpoint@),
                        ),
                        ..old(self)@
                    },
                    "Delete Endpoint Success"@,
                    "The "@ + endpoint@.name + " endpoint has been deleted."@,
                ),
                Err(_) => final(self)@ == with_error(
                    old(self)@,
                    "There was an error deleting the "@ + endpoint@.name + " endpoint"@,
                ),
            },
    {
        match result {
            Ok(_) => {
                let mut p = PersistedProject::from_project(&self.project);
                crate::projects::delete_endpoint(&mut p, endpoint);
                self.project = Project::from_persisted(&p);
                let m = concat3("The ", endpoint.name.as_str(), " endpoint has been deleted.");
                self.show_message("Delete Endpoint Success", m.as_str());
            },
            Err(_) => {
                let m = concat3("There was an error deleting the ", endpoint.name.as_str(), " endpoint");
                self.show_error(m.as_str());
            },
        }
    }

    /// A variable deletion ended: a message or an error names the variable.
    pub fn finish_variable_deletion(&mut self, variable: &PersistedVariable, result: &Result<(), ProjectError>)
        ensures
            match result {
                Ok(_) => final(self)@ == with_message(
                    old(self)@,
                    "Delete '"@ + chars_or_empty(variable@.name) + "'"@,
                    "Variable deleted successfully"@,
                ),
                Err(_) => final(self)@ == with_error(
                    old(self)@,
                    "Error deleting '"@ + chars_or_empty(variable@.name) + "'"@,
                ),
            },
    {
        let name = match &variable.name {
            Some(n) => n.clone(),
            None => String::new(),
        };
        match result {
            Ok(_) => {
                let title = concat3("Delete '", name.as_str(), "'");
                self.show_message(title.as_str(), "Variable deleted successfully");
            },
            Err(_) => {
                let m = concat3("Error deleting '", name.as_str(), "'");
                self.show_error(m.as_str());
            },
        }
    }
}

impl DashboardState {
    /// A question about a deletion was answered. A declined deletion closes
    /// the window. An accepted one prepares what the interface writes, and
    /// changes the dashboard as far as it does before the disk is reached;
    /// the matching `finish_` method ends it.
    ///
    /// A header can only be deleted while the open endpoint has it and its
    /// project holds the endpoint.
    pub fn confirm_action(&mut self, action: ConfirmAction) -> (r: ConfirmStep)
        requires
            action matches ConfirmAction::ConfirmationDeleteHeader(a) ==> (a.answer ==> header_deletable(
                old(self)@,
                a.data@.name,
            )),
        ensures
            match action {
                ConfirmAction::ConfirmationDeleteHeader(a) => if a.answer {
                    final(self)@ == old(self)@ && (r matches ConfirmStep::DeleteHeader {
                        project,
                        endpoint,
                    } && endpoint@ == without_header(stored_endpoint(old(self)@.endpoint), a.data@.name)
                        && project@ == with_endpoint_headers(
                        stored_project(old(self)@.project),
                        old(self)@.endpoint.name,
                        endpoint@.headers,
                    ))
                } else {
                    r is Declined && final(self)@ == (DashboardView {
                        floating_window: FloatingWindow::NoWindow,
                        ..old(self)@
                    })
                },
                ConfirmAction::ConfirmationDeletePersistedProject(a) => if a.answer {
                    final(self)@ == (DashboardView {
                        project: new_project_view(),
                        endpoint: new_endpoint_view(),
                        ..old(self)@
                    }) && (r matches ConfirmStep::DeleteProject { project } && project@
                        == stored_project(old(self)@.project))
                } else {
                    r is Declined && final(self)@ == (DashboardView {
                        floating_window: FloatingWindow::NoWindow,
                        ..old(self)@
                    })
                },
                ConfirmAction::ConfirmationDeletePersistedEndpoint(a) => if a.answer {
                    let same = a.data@ == stored_endpoint(old(self)@.endpoint);
                    &&& final(self)@ == (if same {
                        DashboardView { endpoint: new_endpoint_view(), ..old(self)@ }
                    } else {
                        old(self)@
                    })
                    &&& r matches ConfirmStep::DeleteEndpoint { endpoint, cleared } && endpoint@ == a.data@
                        && cleared == same
                } else {
                    r is Declined && final(self)@ == (DashboardView {
                        floating_window: FloatingWindow::NoWindow,
                        ..old(self)@
                    })
                },
                ConfirmAction::ConfirmationDeletePersistedVariable(a) => if a.answer {
                    match first_equal(
                        crate::dashboard_events::stored_variables_of(old(self)@.project),
                        a.data@,
                        0,
                    ) {
                        Some(k) => final(self)@ == variable_removed(old(self)@, k as int) && (
                        r matches ConfirmStep::DeleteVariable { variable, project } && variable@
                            == a.data@ && project@ == stored_project(final(self)@.project)),
                        None => r is Nothing && final(self)@ == old(self)@,
                    }
                } else {
                    r is Declined && final(self)@ == (DashboardView {
                        floating_window: FloatingWindow::NoWindow,
                        ..old(self)@
                    })
                },
                _ => r is Nothing && final(self)@ == old(self)@,
            },
    {
        match action {
            ConfirmAction::ConfirmationDeleteHeader(a) => {
                if a.answer {
                    let (project, endpoint) = self.header_deletion(&a.data.name);
                    ConfirmStep::DeleteHeader { project, endpoint }
                } else {
                    self.floating_window = FloatingWindow::NoWindow;
                    ConfirmStep::Declined
                }
            },
            ConfirmAction::ConfirmationDeletePersistedProject(a) => {
                if a.answer {
                    let project = self.begin_project_deletion();
                    ConfirmStep::DeleteProject { project }
                } else {
                    self.floating_window = FloatingWindow::NoWindow;
                    ConfirmStep::Declined
                }
            },
            ConfirmAction::ConfirmationDeletePersistedEndpoint(a) => {
                if a.answer {
                    let cleared = self.begin_endpoint_deletion(&a.data);
                    ConfirmStep::DeleteEndpoint { endpoint: a.data, cleared }
                } else {
                    self.floating_window = FloatingWindow::NoWindow;
                    ConfirmStep::Declined
                }
            },
            ConfirmAction::ConfirmationDeletePersistedVariable(a) => {
                if a.answer {
                    match self.remove_variable(&a.data) {
                        Some(project) => ConfirmStep::DeleteVariable { variable: a.data, project },
                        None => ConfirmStep::Nothing,
                    }
                } else {
                    self.floating_window = FloatingWindow::NoWindow;
                    ConfirmStep::Declined
                }
            },
            _ => ConfirmStep::Nothing,
        }
    }
}

// ---------------------------------------------------------------------------
// Requests and responses
// ---------------------------------------------------------------------------
/// A request, ready to be sent.
#[derive(Debug)]
pub struct RequestPlan {
    pub method: String,
    pub url: String,
    /// The headers to set, in order; `content-type` is not among them.
    pub headers: Vec<(String, String)>,
    pub body: RequestBody,
}

/// How a save of the response body ended.
#[derive(Debug)]
pub enum ResponseSaveOutcome {
    /// No documents directory was found; the text of that error.
    NoDocumentsDir(String),
    /// The project's directory could not be made, or not be checked.
    NoProjectDir,
    /// The body was written to the file at this path, as the path prints.
    Saved(String),
    /// Writing the file failed; the text of that error.
    WriteFailed(String),
}

/// The rows of the response headers.
pub open spec fn response_header_rows(hs: Seq<(Seq<char>, Seq<char>)>) -> Seq<HeaderStateView> {
    hs.map_values(
        |p: (Seq<char>, Seq<char>)| HeaderStateView { name: p.0, value: p.1, row_color: ""@, row_fg_color: ""@ },
    )
}

/// Each row of the response headers shows one header of the response, in
/// the order the response gave them: its name and the value the response
/// gave for it, uncolored.
pub proof fn law_response_rows_show_headers(hs: Seq<(Seq<char>, Seq<char>)>)
    ensures
        response_header_rows(hs).len() == hs.len(),
        forall|k: int| #![trigger response_header_rows(hs)[k]] 0 <= k < hs.len() ==> response_header_rows(hs)[k].name == hs[k].0
            && response_header_rows(hs)[k].value == hs[k].1 && response_header_rows(hs)[k].row_color.len() == 0
            && response_header_rows(hs)[k].row_fg_color.len() == 0,
{
    reveal_strlit("");
}

/// `s` with each `/` turned into `_`.
pub open spec fn slashes_replaced(s: Seq<char>) -> Seq<char> {
    s.map_values(|c: char| if c == '/' { '_' } else { c })
}

/// A name with its slashes replaced keeps its length and every other
/// character, holds no `/`, and has `_` wherever the name had `/`.
pub proof fn law_slashes_replaced(s: Seq<char>)
    ensures
        slashes_replaced(s).len() == s.len(),
        forall|i: int| #![trigger slashes_replaced(s)[i]] 0 <= i < s.len() ==> slashes_replaced(s)[i] != '/' && (
        s[i] == '/' ==> slashes_replaced(s)[i] == '_') && (s[i] != '/' ==> slashes_replaced(s)[i] == s[i]),
{
}

/// The name of the file a response body is saved in: the endpoint's name
/// with `/` turned into `_`, `_`, the seconds since the epoch, and `.txt`.
pub open spec fn response_file_name_text(endpoint_name: Seq<char>, seconds: nat) -> Seq<char> {
    slashes_replaced(endpoint_name) + "_"@ + decimal(seconds) + ".txt"@
}

fn header_rows(headers: &Vec<(String, String)>) -> (r: Vec<HeaderState>)
    ensures
        r@.map_values(|h: HeaderState| h@) == response_header_rows(pairs_view(headers@)),
{
    let mut r: Vec<HeaderState> = Vec::new();
    let mut i: usize = 0;
    while i < headers.len()
        invariant
            i <= headers@.len(),
            r@.len() == i,
            forall|j: int| 0 <= j < i ==> #[trigger] r@[j]@ == (HeaderStateView {
                name: headers@[j].0@,
                value: headers@[j].1@,
                row_color: ""@,
                row_fg_color: ""@,
            }),
        decreases headers@.len() - i,
    {
        r.push(
            HeaderState {
                name: headers[i].0.clone(),
                value: headers[i].1.clone(),
                row_color: "".to_owned(),
                row_fg_color: "".to_owned(),
            },
        );
        i += 1;
    }
    assert(r@.map_values(|h: HeaderState| h@) =~= response_header_rows(pairs_view(headers@)));
    r
}

impl DashboardState {
    /// The request the open endpoint makes: the project's variables replaced
    /// in its URL and headers, the headers without `content-type`, and the
    /// body its mode calls for. Replacing fails when brackets do not pair up.
    ///
    /// No placeholder in the URL, nor in the headers read before the first
    /// failure, may close before it opens.
    pub fn request_plan(&self) -> (r: Result<RequestPlan, ReplaceError>)
        requires
            template_safe(self@.endpoint.url),
            brackets_balanced(self@.endpoint.url) ==> headers_safe(stored_endpoint(self@.endpoint).headers),
        ensures
            ({
                let e = stored_endpoint(self@.endpoint);
                let vars = bindings_map(stored_project(self@.project).variable);
                match r {
                    Ok(p) => {
                        &&& brackets_balanced(e.url)
                        &&& resolved_headers(e.headers, vars) is Ok
                        &&& p.url@ == substituted(e.url, vars)
                        &&& pairs_view(p.headers@) == resolved_headers(e.headers, vars)->Ok_0
                        &&& p.method@ == e.method
                        &&& p.body@ == body_plan(e)
                    },
                    Err(_) => !brackets_balanced(e.url) || resolved_headers(e.headers, vars) is Err,
                }
            }),
    {
        let project = PersistedProject::from_project(&self.project);
        let variables = request_variables(&project);
        let endpoint = PersistedEndpoint::from_endpoint(&self.endpoint);
        let url = match resolve_url(&endpoint, &variables) {
            Ok(u) => u,
            Err(e) => {
                return Err(e);
            },
        };
        let headers = match resolve_headers(&endpoint, &variables) {
            Ok(h) => h,
            Err(e) => {
                return Err(e);
            },
        };
        let body = request_body(&endpoint);
        Ok(RequestPlan { method: endpoint.method.clone(), url, headers, body })
    }

    /// The headers of a response arrived: they replace the rows shown, and
    /// the result is the extension the body is shown with.
    pub fn record_response_headers(&mut self, headers: &Vec<(String, String)>) -> (ext: String)
        ensures
            ext@ == extension_after(pairs_view(headers@), "txt"@),
            final(self)@ == (DashboardView {
                response_headers: response_header_rows(pairs_view(headers@)),
                ..old(self)@
            }),
    {
        self.response_headers = header_rows(headers);
        response_extension(headers)
    }

    /// A response body arrived with its status: the body is shown under a
    /// label that gives the status.
    pub fn show_response(&mut self, status: u16, body: String)
        ensures
            final(self)@ == (DashboardView {
                response: body@,
                response_body_window_label: status_label_text(status as nat),
                main_display: DashboardDisplay::ResponseBody,
                ..old(self)@
            }),
    {
        self.response = body;
        self.response_body_window_label = status_label(status);
        self.main_display = DashboardDisplay::ResponseBody;
    }

    /// The request never got a response: the transport's message, or
    /// `Network error` without one, is shown as an error.
    pub fn show_transport_error(&mut self, message: Option<&str>)
        ensures
            final(self)@ == with_error(
                old(self)@,
                match message {
                    Some(m) => m@,
                    None => "Network error"@,
                },
            ),
    {
        match message {
            Some(m) => self.show_error(m),
            None => self.show_error("Network error"),
        }
    }

    /// A save of the response body ended: its outcome is shown. A written
    /// file is announced under `Response Saved` with its path; every failure
    /// is shown as an error.
    pub fn finish_response_save(&mut self, outcome: &ResponseSaveOutcome)
        ensures
            final(self)@ == match outcome {
                ResponseSaveOutcome::NoDocumentsDir(e) => with_error(old(self)@, e@),
                ResponseSaveOutcome::NoProjectDir => with_error(
                    old(self)@,
                    "Couldn't create project directory to save response"@,
                ),
                ResponseSaveOutcome::Saved(path) => with_message(
                    old(self)@,
                    "Response Saved"@,
                    "Saved to "@ + path@,
                ),
                ResponseSaveOutcome::WriteFailed(e) => with_error(old(self)@, e@),
            },
    {
        match outcome {
            ResponseSaveOutcome::NoDocumentsDir(e) => self.show_error(e.as_str()),
            ResponseSaveOutcome::NoProjectDir => self.show_error("Couldn't create project directory to save response"),
            ResponseSaveOutcome::Saved(path) => {
                let text = concat("Saved to ", path.as_str());
                self.show_message("Response Saved", text.as_str());
            },
            ResponseSaveOutcome::WriteFailed(e) => self.show_error(e.as_str()),
        }
    }

    /// The name of the file the response body is saved in, at `seconds`
    /// since the epoch.
    pub fn response_file_name(&self, seconds: u64) -> (r: String)
        ensures
            r@ == response_file_name_text(self@.endpoint.name, seconds as nat),
    {
        let name = chars_of(self.endpoint.name.as_str());
        let mut v: Vec<char> = Vec::new();
        let mut i: usize = 0;
        while i < name.len()
            invariant
                i <= name@.len(),
                name@ == self@.endpoint.name,
                v@ == slashes_replaced(name@.take(i as int)),
            decreases name@.len() - i,
        {
            let c = name[i];
            v.push(if c == '/' { '_' } else { c });
            assert(slashes_replaced(name@.take(i + 1)) =~= slashes_replaced(name@.take(i as int)).push(
                if c == '/' { '_' } else { c },
            ));
            i += 1;
        }
        assert(name@.take(i as int) =~= name@);
        v.push('_');
        push_decimal(&mut v, seconds);
        let mut ext = chars_of(".txt");
        v.append(&mut ext);
        proof {
            reveal_strlit("_");
        }
        assert(v@ =~= response_file_name_text(self@.endpoint.name, seconds as nat));
        string_of(v.as_slice())
    }
}

} // verus!
