//! What the dashboard does with an event a window publishes: the event is
//! routed by its name, first by the whole name, then by the window its name
//! starts with, and that window's handler changes the dashboard.

use vstd::prelude::*;

use crate::body_mode::{is_raw_kind, select_body_mode};
use crate::dashboard::{DashboardState, DashboardView};
use crate::dashboard_events::{
    CommandOutcome, EventSource, ReceivedEvent, delete_title, event_prefix, header_names_of, received_event,
    route_received, source_named, stored_variables_of, strings_view, endpoints_renamed,
};
use crate::dashboard_flows::{open_endpoint_names, variable_names};
use crate::messages::{
    AddHeaderWindowMessages, AddProjectVariableMessages, ConfirmAction, EditEndpointNameMessages,
    EditProjectNameMessages, SpecificNameUpdate,
};
use crate::projects::{
    EndpointView, Header, HeaderStateView, PersistedEndpoint, PersistedProject, PersistedVariable, ProjectView,
    chars_or_empty, stored_project,
};
use crate::text::{spec_trim, str_is};
use crate::ui::FloatingWindow;

verus! {

/// The value that comes with an event: its text, when it is text, and that
/// text read as each of the forms an event may carry (`None` where it does
/// not read as that form).
#[derive(Debug)]
pub struct ReceivedValue {
    pub text: Option<String>,
    pub header: Option<Header>,
    pub name_update: Option<SpecificNameUpdate>,
    pub variable: Option<PersistedVariable>,
    pub project: Option<PersistedProject>,
    pub endpoint: Option<PersistedEndpoint>,
}

/// The name input a window is told to clear.
#[derive(Debug, Clone, Copy, PartialEq, Eq, Structural)]
pub enum NameInput {
    EndpointName,
    ProjectName,
}

/// What the interface does after the dashboard handled an event.
#[derive(Debug)]
pub enum ReceiveOutcome {
    /// Nothing more.
    Nothing,
    /// Focus the main view.
    FocusApp,
    /// Save the project quietly, start a new one and clear the URL and body
    /// inputs.
    NewProject,
    /// Focus the project name window and send it this message.
    OpenProjectRename(EditProjectNameMessages),
    /// Focus the endpoint name window and send it this message.
    OpenEndpointRename(EditEndpointNameMessages),
    /// Focus the variable window and send it this message.
    OpenVariableRename(AddProjectVariableMessages),
    /// Focus the variable window and tell it to focus its first input.
    FocusAddVariable,
    /// What the commands window's pick asks of the interface.
    Command(CommandOutcome),
    /// Focus the confirmation window and, when there is one, send it the
    /// question.
    AskConfirmation(Option<ConfirmAction>),
    /// Focus the header window and send it this message.
    EditHeader(AddHeaderWindowMessages),
    /// Focus the header window.
    FocusAddHeader,
    /// Show this error on the dashboard.
    ReportError(String),
    /// Focus the main view and tell the window holding this input to clear it.
    FocusAppClearing(NameInput),
}

/// The events whose value must be text.
pub open spec fn needs_text(id: Seq<char>) -> bool {
    ||| id == "rename_project"@
    ||| id == "rename_endpoint"@
    ||| id == "rename_variable"@
    ||| id == "project_variables__delete"@
    ||| id == "body_mode_selector__selection"@
    ||| id == "commands__selection"@
    ||| id == "add_header__name_update"@
    ||| id == "add_header__value_update"@
    ||| id == "edit_header_selector__edit"@
    ||| id == "edit_header_selector__delete"@
    ||| id == "edit_endpoint_name__specific_endpoint_rename"@
    ||| id == "edit_endpoint_name__submit"@
    ||| id == "edit_project_name__specific_project_rename"@
    ||| id == "edit_project_name__submit"@
}

/// The text of a value; empty when it is none.
pub open spec fn text_of(v: ReceivedValue) -> Seq<char> {
    match v.text {
        Some(t) => t@,
        None => Seq::empty(),
    }
}

/// The dashboard with this floating window.
pub open spec fn with_window(s: DashboardView, w: FloatingWindow) -> DashboardView {
    DashboardView { floating_window: w, ..s }
}

/// The endpoint after a body mode was picked by name.
pub open spec fn body_mode_picked(e: EndpointView, selection: Seq<char>) -> EndpointView {
    if is_raw_kind(selection) {
        EndpointView { body_mode: "raw"@, raw_type: selection, ..e }
    } else {
        EndpointView { body_mode: selection, raw_type: ""@, ..e }
    }
}

/// The dashboard after a command was picked in the commands window.
pub open spec fn command_picked(s: DashboardView, selection: Seq<char>) -> DashboardView {
    if selection == "a"@ {
        with_window(s, FloatingWindow::AddProjectVariable)
    } else if selection == "v"@ {
        with_window(s, FloatingWindow::ViewProjectVariables)
    } else if selection == "g"@ {
        with_window(s, FloatingWindow::CodeGen)
    } else if selection == "i"@ {
        with_window(s, FloatingWindow::PostmanFileSelector)
    } else if selection == "e"@ {
        with_window(s, FloatingWindow::CodeGen)
    } else {
        s
    }
}

/// What the pick of a command asks of the interface.
pub open spec fn command_answer(s: DashboardView, selection: Seq<char>, c: CommandOutcome) -> bool {
    if selection == "a"@ {
        c is FocusAddProjectVariable
    } else if selection == "v"@ {
        c matches CommandOutcome::ShowVariables(vs) && vs@.map_values(|v: PersistedVariable| v@)
            == stored_variables_of(s.project)
    } else if selection == "g"@ {
        c is FocusCodeGen
    } else if selection == "i"@ {
        c is FocusFileSelector
    } else if selection == "e"@ {
        c matches CommandOutcome::ExportPostman(p) && p@ == stored_project(s.project)
    } else {
        c is Nothing
    }
}

/// The dashboard after the header window was submitted: it closes, and the
/// header is added unless its name or value is blank.
pub open spec fn header_submitted(s: DashboardView) -> DashboardView {
    let closed = with_window(s, FloatingWindow::NoWindow);
    if spec_trim(s.new_header_name).len() == 0 || spec_trim(s.new_header_value).len() == 0 {
        closed
    } else {
        DashboardView {
            endpoint: EndpointView {
                headers: s.endpoint.headers.push(
                    HeaderStateView {
                        name: s.new_header_name,
                        value: s.new_header_value,
                        row_color: ""@,
                        row_fg_color: ""@,
                    },
                ),
                ..s.endpoint
            },
            ..closed
        }
    }
}

/// The dashboard after an endpoint was renamed on disk.
pub open spec fn endpoint_rename_applied(s: DashboardView, old_name: Seq<char>, new_name: Seq<char>) -> DashboardView {
    DashboardView {
        endpoint: if s.endpoint.name == old_name {
            EndpointView { name: new_name, ..s.endpoint }
        } else {
            s.endpoint
        },
        project: endpoints_renamed(s.project, old_name, new_name),
        floating_window: FloatingWindow::NoWindow,
        ..s
    }
}

/// The dashboard after the project was renamed on disk.
pub open spec fn project_rename_applied(s: DashboardView, old_name: Seq<char>, new_name: Seq<char>) -> DashboardView {
    DashboardView {
        project: if s.project.name == old_name {
            ProjectView { name: new_name, ..s.project }
        } else {
            s.project
        },
        floating_window: FloatingWindow::NoWindow,
        ..s
    }
}

/// How the handler of the window `src` changes the dashboard for event `id`.
/// Events of windows this library has no handler for, and unknown events,
/// leave it as it is.
pub open spec fn window_event_state(s: DashboardView, src: EventSource, id: Seq<char>, v: ReceivedValue) -> DashboardView {
    let closed = with_window(s, FloatingWindow::NoWindow);
    match src {
        EventSource::ConfirmAction => if id == "confirm_action__cancel"@ {
            closed
        } else {
            s
        },
        EventSource::ProjectVariables => if id == "project_variables__cancel"@ {
            closed
        } else if id == "project_variables__delete"@ {
            with_window(s, FloatingWindow::ConfirmAction)
        } else {
            s
        },
        EventSource::BodyModeSelector => if id == "body_mode_selector__cancel"@ {
            closed
        } else if id == "body_mode_selector__selection"@ {
            DashboardView { endpoint: body_mode_picked(s.endpoint, text_of(v)), ..s }
        } else {
            s
        },
        EventSource::FileSelector => if id == "file_selector__cancel"@ {
            closed
        } else {
            s
        },
        EventSource::Commands => if id == "commands__selection"@ {
            command_picked(s, text_of(v))
        } else if id == "commands__cancel"@ {
            closed
        } else {
            s
        },
        EventSource::AddHeader => if id == "add_header__name_update"@ {
            match v.header {
                Some(h) => DashboardView { new_header_name: h@.name, ..s },
                None => s,
            }
        } else if id == "add_header__value_update"@ {
            match v.header {
                Some(h) => DashboardView { new_header_value: h@.value, ..s },
                None => s,
            }
        } else if id == "add_header__submit"@ {
            header_submitted(s)
        } else if id == "add_header__cancel"@ {
            DashboardView { new_header_name: ""@, new_header_value: ""@, ..closed }
        } else {
            s
        },
        EventSource::EditHeaderSelector => if id == "edit_header_selector__add"@ {
            with_window(s, FloatingWindow::AddHeader)
        } else if id == "edit_header_selector__edit"@ {
            if v.header is Some {
                with_window(s, FloatingWindow::AddHeader)
            } else {
                closed
            }
        } else if id == "edit_header_selector__cancel"@ {
            closed
        } else if id == "edit_header_selector__delete"@ {
            with_window(s, FloatingWindow::ConfirmAction)
        } else {
            s
        },
        EventSource::EditEndpointName => if id == "edit_endpoint_name__specific_endpoint_rename"@ {
            match v.name_update {
                Some(u) => endpoint_rename_applied(s, u.old_name@, u.new_name@),
                None => s,
            }
        } else if id == "edit_endpoint_name__submit"@ {
            DashboardView { endpoint: EndpointView { name: text_of(v), ..s.endpoint }, ..closed }
        } else if id == "edit_endpoint_name__cancel"@ {
            closed
        } else {
            s
        },
        EventSource::EditProjectName => if id == "edit_project_name__specific_project_rename"@ {
            match v.name_update {
                Some(u) => project_rename_applied(s, u.old_name@, u.new_name@),
                None => s,
            }
        } else if id == "edit_project_name__submit"@ {
            DashboardView { project: ProjectView { name: text_of(v), ..s.project }, ..closed }
        } else if id == "edit_project_name__cancel"@ {
            closed
        } else {
            s
        },
        _ => s,
    }
}

/// What the handler of the window `src` asks of the interface for event `id`.
pub open spec fn window_event_answer(
    s: DashboardView,
    src: EventSource,
    id: Seq<char>,
    v: ReceivedValue,
    r: ReceiveOutcome,
) -> bool {
    match src {
        EventSource::ConfirmAction => if id == "confirm_action__cancel"@ {
            r is FocusApp
        } else {
            r is Nothing
        },
        EventSource::ProjectVariables => if id == "project_variables__cancel"@ {
            r is FocusApp
        } else if id == "project_variables__delete"@ {
            match v.variable {
                Some(var) => r matches ReceiveOutcome::AskConfirmation(
                    Some(ConfirmAction::ConfirmDeletePersistedVariable(d)),
                ) && d.title@ == delete_title(chars_or_empty(var@.name)) && d.message@
                    == "Are you sure you want to delete?"@ && d.data@ == var@,
                None => r matches ReceiveOutcome::AskConfirmation(None),
            }
        } else {
            r is Nothing
        },
        EventSource::BodyModeSelector => if id == "body_mode_selector__cancel"@ {
            r is Nothing
        } else if id == "body_mode_selector__selection"@ {
            r is FocusApp
        } else {
            r is Nothing
        },
        EventSource::FileSelector => if id == "file_selector__cancel"@ {
            r is FocusApp
        } else {
            r is Nothing
        },
        EventSource::Commands => if id == "commands__selection"@ {
            r matches ReceiveOutcome::Command(c) && command_answer(s, text_of(v), c)
        } else if id == "commands__cancel"@ {
            r is FocusApp
        } else {
            r is Nothing
        },
        EventSource::AddHeader => if id == "add_header__name_update"@ || id == "add_header__value_update"@ {
            r is Nothing
        } else if id == "add_header__submit"@ || id == "add_header__cancel"@ {
            r is FocusApp
        } else {
            r is Nothing
        },
        EventSource::EditHeaderSelector => if id == "edit_header_selector__add"@ {
            r is FocusAddHeader
        } else if id == "edit_header_selector__edit"@ {
            match v.header {
                Some(h) => r matches ReceiveOutcome::EditHeader(
                    AddHeaderWindowMessages::Specifically((n, h2, names)),
                ) && n@ == h@.name && h2@ == h@ && strings_view(names@) == header_names_of(s.endpoint),
                None => r is FocusApp,
            }
        } else if id == "edit_header_selector__cancel"@ {
            r is FocusApp
        } else if id == "edit_header_selector__delete"@ {
            match v.header {
                Some(h) => r matches ReceiveOutcome::AskConfirmation(
                    Some(ConfirmAction::ConfirmDeleteHeader(d)),
                ) && d.title@ == delete_title(h@.name) && d.message@ == "Are you sure you want to delete?"@
                    && d.data@ == h@,
                None => false,
            }
        } else {
            r is Nothing
        },
        EventSource::EditEndpointName => if id == "edit_endpoint_name__specific_endpoint_rename"@ {
            match v.name_update {
                Some(_) => r matches ReceiveOutcome::FocusAppClearing(NameInput::ProjectName),
                None => r matches ReceiveOutcome::ReportError(t) && t@
                    == "There was an error while processing the name update"@,
            }
        } else if id == "edit_endpoint_name__submit"@ {
            r matches ReceiveOutcome::FocusAppClearing(NameInput::EndpointName)
        } else if id == "edit_endpoint_name__cancel"@ {
            r is FocusApp
        } else {
            r is Nothing
        },
        EventSource::EditProjectName => if id == "edit_project_name__specific_project_rename"@ {
            match v.name_update {
                Some(_) => r matches ReceiveOutcome::FocusAppClearing(NameInput::ProjectName),
                None => r matches ReceiveOutcome::ReportError(t) && t@
                    == "There was an error while processing the name update"@,
            }
        } else if id == "edit_project_name__submit"@ {
            r matches ReceiveOutcome::FocusAppClearing(NameInput::ProjectName)
        } else if id == "edit_project_name__cancel"@ {
            r is FocusApp
        } else {
            r is Nothing
        },
        _ => r is Nothing,
    }
}

/// The dashboard after event `id` with value `v`. Events named for the
/// dashboard itself (none of whose names holds `__`) are handled by name;
/// every other event goes to the handler of the window its name starts with.
pub open spec fn received_state(s: DashboardView, id: Seq<char>, v: ReceivedValue) -> DashboardView {
    match received_event(id) {
        ReceivedEvent::UrlInputFocus => s,
        ReceivedEvent::AddNewProject => s,
        ReceivedEvent::RenameProject => if v.project is Some {
            with_window(s, FloatingWindow::ChangeProjectName)
        } else {
            with_window(s, FloatingWindow::NoWindow)
        },
        ReceivedEvent::RenameEndpoint => if v.endpoint is Some {
            with_window(s, FloatingWindow::ChangeEndpointName)
        } else {
            with_window(s, FloatingWindow::NoWindow)
        },
        ReceivedEvent::RenameVariable => if v.variable is Some {
            with_window(s, FloatingWindow::AddProjectVariable)
        } else {
            with_window(s, FloatingWindow::NoWindow)
        },
        ReceivedEvent::OpenAddVariableWindow => with_window(s, FloatingWindow::AddProjectVariable),
        ReceivedEvent::Other => window_event_state(s, source_named(event_prefix(id)), id, v),
    }
}

/// What the interface is asked to do after event `id` with value `v`.
pub open spec fn received_answer(s: DashboardView, id: Seq<char>, v: ReceivedValue, r: ReceiveOutcome) -> bool {
    match received_event(id) {
        ReceivedEvent::UrlInputFocus => r is FocusApp,
        ReceivedEvent::AddNewProject => r is NewProject,
        ReceivedEvent::RenameProject => match v.project {
            Some(p) => r matches ReceiveOutcome::OpenProjectRename(EditProjectNameMessages::Specifically(q))
                && q@ == p@,
            None => r is FocusApp,
        },
        ReceivedEvent::RenameEndpoint => match v.endpoint {
            Some(e) => r matches ReceiveOutcome::OpenEndpointRename(
                EditEndpointNameMessages::Specifically((n, e2, names)),
            ) && n@ == s.project.name && e2@ == e@ && strings_view(names@) == open_endpoint_names(s.project),
            None => r is FocusApp,
        },
        ReceivedEvent::RenameVariable => match v.variable {
            Some(x) => r matches ReceiveOutcome::OpenVariableRename(
                AddProjectVariableMessages::Specifically((n, x2, names)),
            ) && n@ == s.project.name && x2@ == x@ && strings_view(names@) == variable_names(s.project),
            None => r is FocusApp,
        },
        ReceivedEvent::OpenAddVariableWindow => r is FocusAddVariable,
        ReceivedEvent::Other => window_event_answer(s, source_named(event_prefix(id)), id, v, r),
    }
}

impl DashboardState {
    /// The dashboard receives event `ident`, published by a window, with its
    /// value, and does what the event asks.
    #[verifier::rlimit(50)]
    pub fn receive(&mut self, ident: &str, value: ReceivedValue) -> (r: ReceiveOutcome)
        requires
            needs_text(ident@) ==> value.text is Some,
            ident@ == "edit_header_selector__delete"@ ==> value.header is Some,
        ensures
            final(self)@ == received_state(old(self)@, ident@, value),
            received_answer(old(self)@, ident@, value, r),
    {
        let (event, source) = route_received(ident);
        match event {
            ReceivedEvent::UrlInputFocus => ReceiveOutcome::FocusApp,
            ReceivedEvent::AddNewProject => ReceiveOutcome::NewProject,
            ReceivedEvent::RenameProject => match self.open_project_rename(value.project) {
                Some(m) => ReceiveOutcome::OpenProjectRename(m),
                None => ReceiveOutcome::FocusApp,
            },
            ReceivedEvent::RenameEndpoint => match self.open_endpoint_rename(value.endpoint) {
                Some(m) => ReceiveOutcome::OpenEndpointRename(m),
                None => ReceiveOutcome::FocusApp,
            },
            ReceivedEvent::RenameVariable => match self.open_variable_rename(value.variable) {
                Some(m) => ReceiveOutcome::OpenVariableRename(m),
                None => ReceiveOutcome::FocusApp,
            },
            ReceivedEvent::OpenAddVariableWindow => {
                self.open_add_variable_window();
                ReceiveOutcome::FocusAddVariable
            },
            ReceivedEvent::Other => self.receive_from_window(source, ident, value),
        }
    }

    /// The handler of window `source` takes event `ident`.
    #[verifier::rlimit(50)]
    fn receive_from_window(
        &mut self,
        source: EventSource,
        ident: &str,
        value: ReceivedValue,
    ) -> (r: ReceiveOutcome)
        requires
            needs_text(ident@) ==> value.text is Some,
            ident@ == "edit_header_selector__delete"@ ==> value.header is Some,
        ensures
            final(self)@ == window_event_state(old(self)@, source, ident@, value),
            window_event_answer(old(self)@, source, ident@, value, r),
    {
        match source {
            EventSource::ConfirmAction => {
                if str_is(ident, "confirm_action__cancel") {
                    self.close_floating_window();
                    ReceiveOutcome::FocusApp
                } else {
                    ReceiveOutcome::Nothing
                }
            },
            EventSource::ProjectVariables => {
                if str_is(ident, "project_variables__cancel") {
                    self.close_floating_window();
                    ReceiveOutcome::FocusApp
                } else if str_is(ident, "project_variables__delete") {
                    match value.variable {
                        Some(var) => ReceiveOutcome::AskConfirmation(Some(self.ask_variable_deletion(var))),
                        None => {
                            self.floating_window = FloatingWindow::ConfirmAction;
                            ReceiveOutcome::AskConfirmation(None)
                        },
                    }
                } else {
                    ReceiveOutcome::Nothing
                }
            },
            EventSource::BodyModeSelector => {
                if str_is(ident, "body_mode_selector__cancel") {
                    self.close_floating_window();
                    ReceiveOutcome::Nothing
                } else if str_is(ident, "body_mode_selector__selection") {
                    let t = value.text.unwrap();
                    select_body_mode(&mut self.endpoint, t.as_str());
                    ReceiveOutcome::FocusApp
                } else {
                    ReceiveOutcome::Nothing
                }
            },
            EventSource::FileSelector => {
                if str_is(ident, "file_selector__cancel") {
                    self.close_floating_window();
                    ReceiveOutcome::FocusApp
                } else {
                    ReceiveOutcome::Nothing
                }
            },
            EventSource::Commands => {
                if str_is(ident, "commands__selection") {
                    let t = value.text.unwrap();
                    ReceiveOutcome::Command(self.run_command(t.as_str()))
                } else if str_is(ident, "commands__cancel") {
                    self.close_floating_window();
                    ReceiveOutcome::FocusApp
                } else {
                    ReceiveOutcome::Nothing
                }
            },
            EventSource::AddHeader => {
                if str_is(ident, "add_header__name_update") {
                    if let Some(h) = value.header {
                        self.set_new_header_name(&h);
                    }
                    ReceiveOutcome::Nothing
                } else if str_is(ident, "add_header__value_update") {
                    if let Some(h) = value.header {
                        self.set_new_header_value(&h);
                    }
                    ReceiveOutcome::Nothing
                } else if str_is(ident, "add_header__submit") {
                    self.submit_new_header();
                    ReceiveOutcome::FocusApp
                } else if str_is(ident, "add_header__cancel") {
                    self.cancel_new_header();
                    ReceiveOutcome::FocusApp
                } else {
                    ReceiveOutcome::Nothing
                }
            },
            EventSource::EditHeaderSelector => {
                if str_is(ident, "edit_header_selector__add") {
                    self.add_header();
                    ReceiveOutcome::FocusAddHeader
                } else if str_is(ident, "edit_header_selector__edit") {
                    match self.edit_header(value.header) {
                        Some(m) => ReceiveOutcome::EditHeader(m),
                        None => ReceiveOutcome::FocusApp,
                    }
                } else if str_is(ident, "edit_header_selector__cancel") {
                    self.close_floating_window();
                    ReceiveOutcome::FocusApp
                } else if str_is(ident, "edit_header_selector__delete") {
                    let h = value.header.unwrap();
                    ReceiveOutcome::AskConfirmation(Some(self.ask_header_deletion(h)))
                } else {
                    ReceiveOutcome::Nothing
                }
            },
            EventSource::EditEndpointName => {
                if str_is(ident, "edit_endpoint_name__specific_endpoint_rename") {
                    match value.name_update {
                        Some(u) => {
                            self.apply_endpoint_rename(&u);
                            ReceiveOutcome::FocusAppClearing(NameInput::ProjectName)
                        },
                        None => ReceiveOutcome::ReportError(
                            "There was an error while processing the name update".to_owned(),
                        ),
                    }
                } else if str_is(ident, "edit_endpoint_name__submit") {
                    let t = value.text.unwrap();
                    self.submit_endpoint_name(t.as_str());
                    ReceiveOutcome::FocusAppClearing(NameInput::EndpointName)
                } else if str_is(ident, "edit_endpoint_name__cancel") {
                    self.close_floating_window();
                    ReceiveOutcome::FocusApp
                } else {
                    ReceiveOutcome::Nothing
                }
            },
            EventSource::EditProjectName => {
                if str_is(ident, "edit_project_name__specific_project_rename") {
                    match value.name_update {
                        Some(u) => {
                            self.apply_project_rename(&u);
                            ReceiveOutcome::FocusAppClearing(NameInput::ProjectName)
                        },
                        None => ReceiveOutcome::ReportError(
                            "There was an error while processing the name update".to_owned(),
                        ),
                    }
                } else if str_is(ident, "edit_project_name__submit") {
                    let t = value.text.unwrap();
                    self.submit_project_name(t.as_str());
                    ReceiveOutcome::FocusAppClearing(NameInput::ProjectName)
                } else if str_is(ident, "edit_project_name__cancel") {
                    self.close_floating_window();
                    ReceiveOutcome::FocusApp
                } else {
                    ReceiveOutcome::Nothing
                }
            },
            _ => ReceiveOutcome::Nothing,
        }
    }
}

/// The cancel event of each window closes the floating window, and every
/// window but the body mode selector gives the focus back to the main view;
/// the dashboard's other fields stay as they were.
pub proof fn law_cancel_events_close(s: DashboardView, v: ReceivedValue, r: ReceiveOutcome)
    ensures
        window_event_state(s, EventSource::ConfirmAction, "confirm_action__cancel"@, v) == with_window(s, FloatingWindow::NoWindow),
        window_event_state(s, EventSource::ProjectVariables, "project_variables__cancel"@, v) == with_window(s, FloatingWindow::NoWindow),
        window_event_state(s, EventSource::BodyModeSelector, "body_mode_selector__cancel"@, v) == with_window(s, FloatingWindow::NoWindow),
        window_event_state(s, EventSource::FileSelector, "file_selector__cancel"@, v) == with_window(s, FloatingWindow::NoWindow),
        window_event_state(s, EventSource::Commands, "commands__cancel"@, v) == with_window(s, FloatingWindow::NoWindow),
        window_event_state(s, EventSource::EditHeaderSelector, "edit_header_selector__cancel"@, v) == with_window(s, FloatingWindow::NoWindow),
        window_event_state(s, EventSource::EditEndpointName, "edit_endpoint_name__cancel"@, v) == with_window(s, FloatingWindow::NoWindow),
        window_event_state(s, EventSource::EditProjectName, "edit_project_name__cancel"@, v) == with_window(s, FloatingWindow::NoWindow),
        window_event_answer(s, EventSource::ConfirmAction, "confirm_action__cancel"@, v, r) ==> r is FocusApp,
        window_event_answer(s, EventSource::ProjectVariables, "project_variables__cancel"@, v, r) ==> r is FocusApp,
        window_event_answer(s, EventSource::FileSelector, "file_selector__cancel"@, v, r) ==> r is FocusApp,
        window_event_answer(s, EventSource::Commands, "commands__cancel"@, v, r) ==> r is FocusApp,
        window_event_answer(s, EventSource::EditHeaderSelector, "edit_header_selector__cancel"@, v, r) ==> r is FocusApp,
        window_event_answer(s, EventSource::EditEndpointName, "edit_endpoint_name__cancel"@, v, r) ==> r is FocusApp,
        window_event_answer(s, EventSource::EditProjectName, "edit_project_name__cancel"@, v, r) ==> r is FocusApp,
{
    reveal_strlit("commands__selection");
    reveal_strlit("commands__cancel");
    reveal_strlit("project_variables__cancel");
    reveal_strlit("body_mode_selector__cancel");
    reveal_strlit("edit_header_selector__add");
    reveal_strlit("edit_header_selector__edit");
    reveal_strlit("edit_header_selector__cancel");
    reveal_strlit("edit_endpoint_name__specific_endpoint_rename");
    reveal_strlit("edit_endpoint_name__submit");
    reveal_strlit("edit_endpoint_name__cancel");
    reveal_strlit("edit_project_name__specific_project_rename");
    reveal_strlit("edit_project_name__submit");
    reveal_strlit("edit_project_name__cancel");
    assert("commands__selection"@.len() != "commands__cancel"@.len());
    assert("edit_header_selector__add"@.len() != "edit_header_selector__cancel"@.len());
    assert("edit_header_selector__edit"@.len() != "edit_header_selector__cancel"@.len());
    assert("edit_endpoint_name__specific_endpoint_rename"@.len() != "edit_endpoint_name__cancel"@.len());
    assert("edit_endpoint_name__submit"@[20] != "edit_endpoint_name__cancel"@[20]);
    assert("edit_project_name__specific_project_rename"@.len() != "edit_project_name__cancel"@.len());
    assert("edit_project_name__submit"@[19] != "edit_project_name__cancel"@[19]);
}

/// An event from a window whose handler this library does not hold, or from
/// no known window, leaves the dashboard as it is and asks nothing.
pub proof fn law_unhandled_events_change_nothing(s: DashboardView, id: Seq<char>, v: ReceivedValue, r: ReceiveOutcome)
    ensures
        window_event_state(s, EventSource::Unknown, id, v) == s,
        window_event_state(s, EventSource::CodeGen, id, v) == s,
        window_event_state(s, EventSource::AddProjectVariable, id, v) == s,
        window_event_state(s, EventSource::MethodSelector, id, v) == s,
        window_event_state(s, EventSource::ProjectWindow, id, v) == s,
        window_event_state(s, EventSource::EndpointsSelector, id, v) == s,
        window_event_answer(s, EventSource::Unknown, id, v, r) ==> r is Nothing,
{
}

} // verus!
