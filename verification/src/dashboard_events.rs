//! Events the floating windows publish to the dashboard, and how the
//! dashboard answers them.

use vstd::prelude::*;

use crate::dashboard::{DashboardState, DashboardView};
use crate::messages::{AddHeaderWindowMessages, ConfirmAction, ConfirmDetails, SpecificNameUpdate};
use crate::projects::{
    Project, EndpointView, Header, HeaderState, HeaderStateView, PersistedProject, PersistedVariable,
    ProjectView, VariableData, stored_project, stored_variable,
};
use crate::template::{find_pair, first_pair_from};
use crate::text::{chars_of, concat, str_is, string_of, trim};
use crate::ui::FloatingWindow;

verus! {

/// An event the dashboard answers by its name alone.
#[derive(Debug, Clone, Copy, PartialEq, Eq, Structural)]
pub enum ReceivedEvent {
    UrlInputFocus,
    AddNewProject,
    RenameProject,
    RenameEndpoint,
    RenameVariable,
    OpenAddVariableWindow,
    Other,
}

/// The window an event comes from, by the part of its name before `__`.
#[derive(Debug, Clone, Copy, PartialEq, Eq, Structural)]
pub enum EventSource {
    ConfirmAction,
    ProjectVariables,
    AddProjectVariable,
    BodyModeSelector,
    FileSelector,
    Commands,
    CodeGen,
    AddHeader,
    EditHeaderSelector,
    MethodSelector,
    ProjectWindow,
    EditEndpointName,
    EditProjectName,
    EndpointsSelector,
    Unknown,
}

/// The part of an event name before its first `__`; empty when it has none.
pub open spec fn event_prefix(s: Seq<char>) -> Seq<char> {
    match first_pair_from(s, '_', 0) {
        Some(k) => s.take(k as int),
        None => Seq::empty(),
    }
}

pub open spec fn received_event(s: Seq<char>) -> ReceivedEvent {
    if s == "url_input_focus"@ {
        ReceivedEvent::UrlInputFocus
    } else if s == "add_new_project"@ {
        ReceivedEvent::AddNewProject
    } else if s == "rename_project"@ {
        ReceivedEvent::RenameProject
    } else if s == "rename_endpoint"@ {
        ReceivedEvent::RenameEndpoint
    } else if s == "rename_variable"@ {
        ReceivedEvent::RenameVariable
    } else if s == "open_add_variable_window"@ {
        ReceivedEvent::OpenAddVariableWindow
    } else {
        ReceivedEvent::Other
    }
}

pub open spec fn source_named(p: Seq<char>) -> EventSource {
    if p == "confirm_action"@ {
        EventSource::ConfirmAction
    } else if p == "project_variables"@ {
        EventSource::ProjectVariables
    } else if p == "add_project_variable"@ {
        EventSource::AddProjectVariable
    } else if p == "body_mode_selector"@ {
        EventSource::BodyModeSelector
    } else if p == "file_selector"@ {
        EventSource::FileSelector
    } else if p == "commands"@ {
        EventSource::Commands
    } else if p == "codegen"@ {
        EventSource::CodeGen
    } else if p == "add_header"@ {
        EventSource::AddHeader
    } else if p == "edit_header_selector"@ {
        EventSource::EditHeaderSelector
    } else if p == "method_selector"@ {
        EventSource::MethodSelector
    } else if p == "project_window"@ {
        EventSource::ProjectWindow
    } else if p == "edit_endpoint_name"@ {
        EventSource::EditEndpointName
    } else if p == "edit_project_name"@ {
        EventSource::EditProjectName
    } else if p == "endpoints_selector"@ {
        EventSource::EndpointsSelector
    } else {
        EventSource::Unknown
    }
}

fn received_event_of(s: &str) -> (r: ReceivedEvent)
    ensures
        r == received_event(s@),
{
    if str_is(s, "url_input_focus") {
        ReceivedEvent::UrlInputFocus
    } else if str_is(s, "add_new_project") {
        ReceivedEvent::AddNewProject
    } else if str_is(s, "rename_project") {
        ReceivedEvent::RenameProject
    } else if str_is(s, "rename_endpoint") {
        ReceivedEvent::RenameEndpoint
    } else if str_is(s, "rename_variable") {
        ReceivedEvent::RenameVariable
    } else if str_is(s, "open_add_variable_window") {
        ReceivedEvent::OpenAddVariableWindow
    } else {
        ReceivedEvent::Other
    }
}

fn source_of(p: &str) -> (r: EventSource)
    ensures
        r == source_named(p@),
{
    if str_is(p, "confirm_action") {
        EventSource::ConfirmAction
    } else if str_is(p, "project_variables") {
        EventSource::ProjectVariables
    } else if str_is(p, "add_project_variable") {
        EventSource::AddProjectVariable
    } else if str_is(p, "body_mode_selector") {
        EventSource::BodyModeSelector
    } else if str_is(p, "file_selector") {
        EventSource::FileSelector
    } else if str_is(p, "commands") {
        EventSource::Commands
    } else if str_is(p, "codegen") {
        EventSource::CodeGen
    } else if str_is(p, "add_header") {
        EventSource::AddHeader
    } else if str_is(p, "edit_header_selector") {
        EventSource::EditHeaderSelector
    } else if str_is(p, "method_selector") {
        EventSource::MethodSelector
    } else if str_is(p, "project_window") {
        EventSource::ProjectWindow
    } else if str_is(p, "edit_endpoint_name") {
        EventSource::EditEndpointName
    } else if str_is(p, "edit_project_name") {
        EventSource::EditProjectName
    } else if str_is(p, "endpoints_selector") {
        EventSource::EndpointsSelector
    } else {
        EventSource::Unknown
    }
}

/// How the dashboard sorts an event it receives: by its whole name, and by
/// the window its name starts with.
pub fn route_received(ident: &str) -> (r: (ReceivedEvent, EventSource))
    ensures
        r.0 == received_event(ident@),
        r.1 == source_named(event_prefix(ident@)),
{
    let event = received_event_of(ident);
    let s = chars_of(ident);
    proof {
        crate::template::lemma_first_pair_from(s@, '_', 0);
    }
    let prefix: String = match find_pair(&s, '_', 0) {
        Some(k) => {
            let mut v: Vec<char> = Vec::new();
            let mut i: usize = 0;
            while i < k
                invariant
                    i <= k,
                    k < s@.len(),
                    v@ == s@.take(i as int),
                decreases k - i,
            {
                v.push(s[i]);
                assert(s@.take(i + 1) =~= s@.take(i as int).push(s@[i as int]));
                i += 1;
            }
            string_of(v.as_slice())
        },
        None => String::new(),
    };
    proof {
        crate::template::lemma_first_pair_from(s@, '_', 0);
    }
    (event, source_of(prefix.as_str()))
}

/// The stored forms of the project's variables.
pub open spec fn stored_variables_of(p: ProjectView) -> Seq<VariableData> {
    p.variable.map_values(|v: crate::projects::ProjectVariableView| stored_variable(v))
}

/// The names of the endpoint's headers.
pub open spec fn header_names_of(e: EndpointView) -> Seq<Seq<char>> {
    e.headers.map_values(|h: HeaderStateView| h.name)
}

/// The characters of a list of strings.
pub open spec fn strings_view(v: Seq<String>) -> Seq<Seq<char>> {
    v.map_values(|s: String| s@)
}

/// `"Delete " + name`.
pub open spec fn delete_title(name: Seq<char>) -> Seq<char> {
    "Delete "@ + name
}

impl DashboardState {
    /// Closes the floating window (the cancel of every window).
    pub fn close_floating_window(&mut self)
        ensures
            final(self)@ == (DashboardView { floating_window: FloatingWindow::NoWindow, ..old(self)@ }),
    {
        self.floating_window = FloatingWindow::NoWindow;
    }

    /// Opens the window adding a project variable.
    pub fn open_add_variable_window(&mut self)
        ensures
            final(self)@ == (DashboardView {
                floating_window: FloatingWindow::AddProjectVariable,
                ..old(self)@
            }),
    {
        self.floating_window = FloatingWindow::AddProjectVariable;
    }

    /// A project variable is to be deleted: the confirmation window opens
    /// with the question to ask.
    pub fn ask_variable_deletion(&mut self, variable: PersistedVariable) -> (r: ConfirmAction)
        ensures
            final(self)@ == (DashboardView {
                floating_window: FloatingWindow::ConfirmAction,
                ..old(self)@
            }),
            r matches ConfirmAction::ConfirmDeletePersistedVariable(d) && d.title@ == delete_title(
                crate::projects::chars_or_empty(variable@.name),
            ) && d.message@ == "Are you sure you want to delete?"@ && d.data@ == variable@,
    {
        self.floating_window = FloatingWindow::ConfirmAction;
        let name = match &variable.name {
            Some(n) => n.clone(),
            None => String::new(),
        };
        let title = concat("Delete ", name.as_str());
        ConfirmAction::ConfirmDeletePersistedVariable(
            ConfirmDetails { title, message: "Are you sure you want to delete?".to_owned(), data: variable },
        )
    }

    /// A header is to be deleted: the confirmation window opens with the
    /// question to ask.
    pub fn ask_header_deletion(&mut self, header: Header) -> (r: ConfirmAction)
        ensures
            final(self)@ == (DashboardView {
                floating_window: FloatingWindow::ConfirmAction,
                ..old(self)@
            }),
            r matches ConfirmAction::ConfirmDeleteHeader(d) && d.title@ == delete_title(header@.name)
                && d.message@ == "Are you sure you want to delete?"@ && d.data@ == header@,
    {
        self.floating_window = FloatingWindow::ConfirmAction;
        let title = concat("Delete ", header.name.as_str());
        ConfirmAction::ConfirmDeleteHeader(
            ConfirmDetails { title, message: "Are you sure you want to delete?".to_owned(), data: header },
        )
    }

    /// The header window reports a new name.
    pub fn set_new_header_name(&mut self, header: &Header)
        ensures
            final(self)@ == (DashboardView { new_header_name: header.name@, ..old(self)@ }),
    {
        self.new_header_name = header.name.clone();
    }

    /// The header window reports a new value.
    pub fn set_new_header_value(&mut self, header: &Header)
        ensures
            final(self)@ == (DashboardView { new_header_value: header.value@, ..old(self)@ }),
    {
        self.new_header_value = header.value.clone();
    }

    /// The header window is submitted: it closes, and the header is added to
    /// the endpoint unless its name or value is blank.
    pub fn submit_new_header(&mut self)
        ensures
            ({
                let name = old(self)@.new_header_name;
                let value = old(self)@.new_header_value;
                let closed = DashboardView {
                    floating_window: FloatingWindow::NoWindow,
                    ..old(self)@
                };
                if crate::text::spec_trim(name).len() == 0 || crate::text::spec_trim(value).len() == 0 {
                    final(self)@ == closed
                } else {
                    final(self)@ == (DashboardView {
                        endpoint: EndpointView {
                            headers: old(self)@.endpoint.headers.push(
                                HeaderStateView { name: name, value: value, row_color: ""@, row_fg_color: ""@ },
                            ),
                            ..old(self)@.endpoint
                        },
                        ..closed
                    })
                }
            }),
    {
        let header_name = self.new_header_name.clone();
        let header_value = self.new_header_value.clone();
        self.floating_window = FloatingWindow::NoWindow;
        if trim(header_name.as_str()).is_empty() || trim(header_value.as_str()).is_empty() {
            return;
        }
        let header = HeaderState {
            name: header_name,
            value: header_value,
            row_color: "".to_owned(),
            row_fg_color: "".to_owned(),
        };
        let ghost before = self.endpoint.headers@;
        self.endpoint.headers.push(header);
        assert(self.endpoint.headers@.map_values(|h: HeaderState| h@) =~= before.map_values(
            |h: HeaderState| h@,
        ).push(HeaderStateView { name: header_name@, value: header_value@, row_color: ""@, row_fg_color: ""@ }));
    }

    /// The header window is cancelled: it closes and forgets the header it
    /// was given.
    pub fn cancel_new_header(&mut self)
        ensures
            final(self)@ == (DashboardView {
                floating_window: FloatingWindow::NoWindow,
                new_header_name: ""@,
                new_header_value: ""@,
                ..old(self)@
            }),
    {
        self.floating_window = FloatingWindow::NoWindow;
        self.new_header_name = "".to_owned();
        self.new_header_value = "".to_owned();
    }

    /// The names of the endpoint's headers.
    pub fn header_names(&self) -> (r: Vec<String>)
        ensures
            strings_view(r@) == header_names_of(self@.endpoint),
    {
        let mut r: Vec<String> = Vec::new();
        let mut i: usize = 0;
        while i < self.endpoint.headers.len()
            invariant
                i <= self.endpoint.headers@.len(),
                r@.len() == i,
                forall|j: int| 0 <= j < i ==> r@[j]@ == self.endpoint.headers@[j]@.name,
            decreases self.endpoint.headers@.len() - i,
        {
            r.push(self.endpoint.headers[i].name.clone());
            i += 1;
        }
        assert(strings_view(r@) =~= header_names_of(self@.endpoint));
        r
    }

    /// The header selector asks to edit a header: the header window opens
    /// with it, its name, and the names of the endpoint's headers. Without a
    /// header the selector just closes.
    pub fn edit_header(&mut self, header: Option<Header>) -> (r: Option<AddHeaderWindowMessages>)
        ensures
            header is None ==> r is None && final(self)@ == (DashboardView {
                floating_window: FloatingWindow::NoWindow,
                ..old(self)@
            }),
            header matches Some(h) ==> final(self)@ == (DashboardView {
                floating_window: FloatingWindow::AddHeader,
                ..old(self)@
            }) && (r matches Some(AddHeaderWindowMessages::Specifically((n, h2, names))) && n@
                == h@.name && h2@ == h@ && strings_view(names@) == header_names_of(old(self)@.endpoint)),
    {
        match header {
            None => {
                self.floating_window = FloatingWindow::NoWindow;
                None
            },
            Some(h) => {
                let names = self.header_names();
                let name = h.name.clone();
                self.floating_window = FloatingWindow::AddHeader;
                Some(AddHeaderWindowMessages::Specifically((name, h, names)))
            },
        }
    }

    /// The selector asks to add a header: the header window opens.
    pub fn add_header(&mut self)
        ensures
            final(self)@ == (DashboardView { floating_window: FloatingWindow::AddHeader, ..old(self)@ }),
    {
        self.floating_window = FloatingWindow::AddHeader;
    }
}

/// The open project after endpoints named `old_name` take `new_name`.
pub open spec fn endpoints_renamed(p: ProjectView, old_name: Seq<char>, new_name: Seq<char>) -> ProjectView {
    ProjectView {
        endpoints: p.endpoints.map_values(
            |e: EndpointView| if e.name == old_name {
                EndpointView { name: new_name, ..e }
            } else {
                e
            },
        ),
        ..p
    }
}

/// Renames, in the open project, the endpoints that carry the old name.
fn rename_endpoints_in(project: &mut Project, update: &SpecificNameUpdate)
    ensures
        final(project)@ == endpoints_renamed(old(project)@, update.old_name@, update.new_name@),
{
        let ghost before = project@;
        let mut i: usize = 0;
        while i < project.endpoints.len()
            invariant
                i <= project.endpoints@.len(),
                project.endpoints@.len() == before.endpoints.len(),
                project@.name == before.name,
                project@.row_color == before.row_color,
                project@.row_fg_color == before.row_fg_color,
                project@.variable == before.variable,
                forall|j: int| 0 <= j < i ==> #[trigger] project@.endpoints[j] == (if before.endpoints[j].name
                    == update.old_name@ {
                    EndpointView { name: update.new_name@, ..before.endpoints[j] }
                } else {
                    before.endpoints[j]
                }),
                forall|j: int| i <= j < before.endpoints.len() ==> #[trigger] project@.endpoints[j]
                    == before.endpoints[j],
            decreases project.endpoints@.len() - i,
        {
            if project.endpoints[i].name == update.old_name {
                let ghost pre = project.endpoints@;
                let ghost pre_view = project@.endpoints;
                let mut e = project.endpoints.remove(i);
                assert(e@ == pre_view[i as int]);
                e.name = update.new_name.clone();
                let ghost renamed = e;
                project.endpoints.insert(i, e);
                assert(project.endpoints@ =~= pre.update(i as int, renamed));
                assert(project@.endpoints =~= pre_view.update(i as int, renamed@));
            }
            i += 1;
        }
        assert(project@ =~= endpoints_renamed(before, update.old_name@, update.new_name@)) by {
            assert(project@.endpoints =~= endpoints_renamed(before, update.old_name@, update.new_name@).endpoints);
        }
}

impl DashboardState {
    /// An endpoint of the project was renamed on disk: the open endpoint and
    /// the project's endpoints that carried the old name take the new one,
    /// and the window closes.
    pub fn apply_endpoint_rename(&mut self, update: &SpecificNameUpdate)
        ensures
            final(self)@ == (DashboardView {
                endpoint: if old(self)@.endpoint.name == update.old_name@ {
                    EndpointView { name: update.new_name@, ..old(self)@.endpoint }
                } else {
                    old(self)@.endpoint
                },
                project: endpoints_renamed(old(self)@.project, update.old_name@, update.new_name@),
                floating_window: FloatingWindow::NoWindow,
                ..old(self)@
            }),
    {
        if self.endpoint.name == update.old_name {
            self.endpoint.name = update.new_name.clone();
        }
        rename_endpoints_in(&mut self.project, update);
        self.floating_window = FloatingWindow::NoWindow;
    }

    /// The endpoint is renamed without a rename on disk; the window closes.
    pub fn submit_endpoint_name(&mut self, new_name: &str)
        ensures
            final(self)@ == (DashboardView {
                endpoint: EndpointView { name: new_name@, ..old(self)@.endpoint },
                floating_window: FloatingWindow::NoWindow,
                ..old(self)@
            }),
    {
        self.endpoint.name = new_name.to_owned();
        self.floating_window = FloatingWindow::NoWindow;
    }

    /// The project was renamed on disk: when it is the open one, it takes the
    /// new name; the window closes.
    pub fn apply_project_rename(&mut self, update: &SpecificNameUpdate)
        ensures
            final(self)@ == (DashboardView {
                project: if old(self)@.project.name == update.old_name@ {
                    ProjectView { name: update.new_name@, ..old(self)@.project }
                } else {
                    old(self)@.project
                },
                floating_window: FloatingWindow::NoWindow,
                ..old(self)@
            }),
    {
        if self.project.name == update.old_name {
            self.project.name = update.new_name.clone();
        }
        self.floating_window = FloatingWindow::NoWindow;
    }

    /// The project is renamed without a rename on disk; the window closes.
    pub fn submit_project_name(&mut self, new_name: &str)
        ensures
            final(self)@ == (DashboardView {
                project: ProjectView { name: new_name@, ..old(self)@.project },
                floating_window: FloatingWindow::NoWindow,
                ..old(self)@
            }),
    {
        self.project.name = new_name.to_owned();
        self.floating_window = FloatingWindow::NoWindow;
    }
}

/// What the commands window asks of the interface.
#[derive(Debug)]
pub enum CommandOutcome {
    Nothing,
    /// Focus the window adding a variable and tell it to focus its first
    /// input.
    FocusAddProjectVariable,
    /// Focus the variables window and give it the project's variables.
    ShowVariables(Vec<PersistedVariable>),
    /// Focus the code generation window.
    FocusCodeGen,
    /// Focus the file selector for a Postman import.
    FocusFileSelector,
    /// Focus the code generation window and export the project to Postman.
    ExportPostman(PersistedProject),
}

impl DashboardState {
    /// The stored forms of the project's variables.
    pub fn stored_variables(&self) -> (r: Vec<PersistedVariable>)
        ensures
            r@.map_values(|v: PersistedVariable| v@) == stored_variables_of(self@.project),
    {
        let mut r: Vec<PersistedVariable> = Vec::new();
        let mut i: usize = 0;
        while i < self.project.variable.len()
            invariant
                i <= self.project.variable@.len(),
                r@.len() == i,
                forall|j: int| 0 <= j < i ==> r@[j]@ == stored_variable(self.project.variable@[j]@),
            decreases self.project.variable@.len() - i,
        {
            r.push(PersistedVariable::from_variable(&self.project.variable[i]));
            i += 1;
        }
        assert(r@.map_values(|v: PersistedVariable| v@) =~= stored_variables_of(self@.project));
        r
    }

    /// A command was picked in the commands window.
    pub fn run_command(&mut self, selection: &str) -> (r: CommandOutcome)
        ensures
            selection@ == "a"@ ==> r is FocusAddProjectVariable && final(self)@ == (DashboardView {
                floating_window: FloatingWindow::AddProjectVariable,
                ..old(self)@
            }),
            selection@ == "v"@ ==> final(self)@ == (DashboardView {
                floating_window: FloatingWindow::ViewProjectVariables,
                ..old(self)@
            }) && (r matches CommandOutcome::ShowVariables(vs) && vs@.map_values(
                |v: PersistedVariable| v@,
            ) == stored_variables_of(old(self)@.project)),
            selection@ == "g"@ ==> r is FocusCodeGen && final(self)@ == (DashboardView {
                floating_window: FloatingWindow::CodeGen,
                ..old(self)@
            }),
            selection@ == "i"@ ==> r is FocusFileSelector && final(self)@ == (DashboardView {
                floating_window: FloatingWindow::PostmanFileSelector,
                ..old(self)@
            }),
            selection@ == "e"@ ==> final(self)@ == (DashboardView {
                floating_window: FloatingWindow::CodeGen,
                ..old(self)@
            }) && (r matches CommandOutcome::ExportPostman(p) && p@ == stored_project(
                old(self)@.project,
            )),
            selection@ != "a"@ && selection@ != "v"@ && selection@ != "g"@ && selection@ != "i"@
                && selection@ != "e"@ ==> r is Nothing && final(self)@ == old(self)@,
    {
        proof {
            reveal_strlit("a");
            reveal_strlit("v");
            reveal_strlit("g");
            reveal_strlit("i");
            reveal_strlit("e");
            assert("a"@.len() == 1 && "a"@[0] == 'a');
            assert("v"@.len() == 1 && "v"@[0] == 'v');
            assert("g"@.len() == 1 && "g"@[0] == 'g');
            assert("i"@.len() == 1 && "i"@[0] == 'i');
            assert("e"@.len() == 1 && "e"@[0] == 'e');
        }
        if str_is(selection, "a") {
            self.floating_window = FloatingWindow::AddProjectVariable;
            CommandOutcome::FocusAddProjectVariable
        } else if str_is(selection, "v") {
            self.floating_window = FloatingWindow::ViewProjectVariables;
            CommandOutcome::ShowVariables(self.stored_variables())
        } else if str_is(selection, "g") {
            self.floating_window = FloatingWindow::CodeGen;
            CommandOutcome::FocusCodeGen
        } else if str_is(selection, "i") {
            self.floating_window = FloatingWindow::PostmanFileSelector;
            CommandOutcome::FocusFileSelector
        } else if str_is(selection, "e") {
            self.floating_window = FloatingWindow::CodeGen;
            CommandOutcome::ExportPostman(PersistedProject::from_project(&self.project))
        } else {
            CommandOutcome::Nothing
        }
    }
}

} // verus!
