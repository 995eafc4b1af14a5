//! The small floating windows: the confirmation question, the commands
//! menu, the windows that rename an endpoint or a project, and the window
//! that adds or edits a header. Each says, for a key or a message, what it
//! changes and what the interface around it has to do.

use vstd::prelude::*;

use crate::dashboard_events::strings_view;
use crate::messages::{
    AddHeaderWindowMessages, ConfirmAction, ConfirmationAnswer, EditEndpointNameMessages,
    EditProjectNameMessages, SpecificNameUpdate,
};
use crate::projects::{Header, HeaderData, PersistedEndpoint, PersistedProject};
use crate::text::{concat, str_is};
use crate::ui::{KeyCode, KeyEvent};

verus! {

/// What a window asks of the interface after a key.
#[derive(Debug)]
pub enum WindowAction {
    /// Nothing more.
    Nothing,
    /// Publish the named event to the dashboard.
    Publish(&'static str),
    /// Focus the named component.
    Focus(&'static str),
    /// Rename the endpoint in the stored project named `project_name`; on
    /// success publish `edit_endpoint_name__specific_endpoint_rename`, on
    /// failure show `There was an error renaming the endpoint`.
    RenameEndpoint { project_name: String, endpoint: PersistedEndpoint, new_name: String },
    /// Rename the stored project; on failure show `There was an error
    /// renaming the project`.
    RenameProject { project: PersistedProject, new_name: String },
}

// ---------------------------------------------------------------------------
// The confirmation window
// ---------------------------------------------------------------------------
/// The window that asks before a deletion.
#[derive(Debug)]
pub struct ConfirmActionWindow {
    /// The question being asked.
    pub confirm_action: Option<ConfirmAction>,
}

/// What the confirmation window shows.
#[derive(Debug)]
pub struct ConfirmActionWindowState {
    pub title: String,
    pub message: String,
}

/// A question, as opposed to an answer.
pub open spec fn is_question(a: ConfirmAction) -> bool {
    ||| a is ConfirmDeletePersistedProject
    ||| a is ConfirmDeletePersistedEndpoint
    ||| a is ConfirmDeletePersistedVariable
    ||| a is ConfirmDeleteHeader
}

/// What the confirmation window asks of the interface after a key.
#[derive(Debug)]
pub enum ConfirmKeyOutcome {
    Nothing,
    /// Publish `confirm_action__cancel`.
    Cancel,
    /// Send the dashboard this answer.
    Answer(ConfirmAction),
}

impl ConfirmActionWindowState {
    pub fn new() -> (r: ConfirmActionWindowState)
        ensures
            r.title@ == ""@,
            r.message@ == ""@,
    {
        ConfirmActionWindowState { title: "".to_owned(), message: "".to_owned() }
    }
}

impl ConfirmActionWindow {
    pub fn new() -> (r: ConfirmActionWindow)
        ensures
            r.confirm_action is None,
    {
        ConfirmActionWindow { confirm_action: None }
    }

    /// A question arrives: its title and message are shown, and it is kept
    /// for the answer. Anything but a question changes nothing shown, and is
    /// kept all the same.
    pub fn message(&mut self, state: &mut ConfirmActionWindowState, action: ConfirmAction)
        ensures
            final(self).confirm_action == Some(action),
            match action {
                ConfirmAction::ConfirmDeletePersistedProject(d) => final(state).title@ == d.title@
                    && final(state).message@ == d.message@,
                ConfirmAction::ConfirmDeletePersistedEndpoint(d) => final(state).title@ == d.title@
                    && final(state).message@ == d.message@,
                ConfirmAction::ConfirmDeletePersistedVariable(d) => final(state).title@ == d.title@
                    && final(state).message@ == d.message@,
                ConfirmAction::ConfirmDeleteHeader(d) => final(state).title@ == d.title@
                    && final(state).message@ == d.message@,
                _ => final(state).title@ == old(state).title@ && final(state).message@ == old(
                    state,
                ).message@,
            },
    {
        match &action {
            ConfirmAction::ConfirmDeletePersistedProject(d) => {
                state.title = d.title.clone();
                state.message = d.message.clone();
            },
            ConfirmAction::ConfirmDeletePersistedEndpoint(d) => {
                state.title = d.title.clone();
                state.message = d.message.clone();
            },
            ConfirmAction::ConfirmDeletePersistedVariable(d) => {
                state.title = d.title.clone();
                state.message = d.message.clone();
            },
            ConfirmAction::ConfirmDeleteHeader(d) => {
                state.title = d.title.clone();
                state.message = d.message.clone();
            },
            _ => {},
        }
        self.confirm_action = Some(action);
    }

    /// `y` answers the question yes and `n` no; escape cancels it. A window
    /// is only answered while it holds a question.
    pub fn on_key(&self, key: KeyEvent) -> (r: ConfirmKeyOutcome)
        requires
            (key.code == KeyCode::Char('y') || key.code == KeyCode::Char('n')) ==> (
            self.confirm_action matches Some(a) && is_question(a)),
        ensures
            key.code == KeyCode::Esc ==> r is Cancel,
            (key.code == KeyCode::Char('y') || key.code == KeyCode::Char('n')) ==> ({
                let yes = key.code == KeyCode::Char('y');
                match self.confirm_action {
                    Some(ConfirmAction::ConfirmDeletePersistedProject(d)) => r matches ConfirmKeyOutcome::Answer(
                        ConfirmAction::ConfirmationDeletePersistedProject(a),
                    ) && a.data@ == d.data@ && a.answer == yes,
                    Some(ConfirmAction::ConfirmDeletePersistedEndpoint(d)) => r matches ConfirmKeyOutcome::Answer(
                        ConfirmAction::ConfirmationDeletePersistedEndpoint(a),
                    ) && a.data@ == d.data@ && a.answer == yes,
                    Some(ConfirmAction::ConfirmDeletePersistedVariable(d)) => r matches ConfirmKeyOutcome::Answer(
                        ConfirmAction::ConfirmationDeletePersistedVariable(a),
                    ) && a.data@ == d.data@ && a.answer == yes,
                    Some(ConfirmAction::ConfirmDeleteHeader(d)) => r matches ConfirmKeyOutcome::Answer(
                        ConfirmAction::ConfirmationDeleteHeader(a),
                    ) && a.data@ == d.data@ && a.answer == yes,
                    _ => false,
                }
            }),
            !(key.code == KeyCode::Esc || key.code == KeyCode::Char('y') || key.code == KeyCode::Char(
                'n',
            )) ==> r is Nothing,
    {
        match key.code {
            KeyCode::Char(c) => {
                if c == 'y' || c == 'n' {
                    let answer = c == 'y';
                    match &self.confirm_action {
                        Some(ConfirmAction::ConfirmDeletePersistedProject(d)) => ConfirmKeyOutcome::Answer(
                            ConfirmAction::ConfirmationDeletePersistedProject(
                                ConfirmationAnswer { data: d.data.clone(), answer },
                            ),
                        ),
                        Some(ConfirmAction::ConfirmDeletePersistedEndpoint(d)) => ConfirmKeyOutcome::Answer(
                            ConfirmAction::ConfirmationDeletePersistedEndpoint(
                                ConfirmationAnswer { data: d.data.clone(), answer },
                            ),
                        ),
                        Some(ConfirmAction::ConfirmDeletePersistedVariable(d)) => ConfirmKeyOutcome::Answer(
                            ConfirmAction::ConfirmationDeletePersistedVariable(
                                ConfirmationAnswer { data: d.data.clone(), answer },
                            ),
                        ),
                        Some(ConfirmAction::ConfirmDeleteHeader(d)) => ConfirmKeyOutcome::Answer(
                            ConfirmAction::ConfirmationDeleteHeader(
                                ConfirmationAnswer { data: d.data.clone(), answer },
                            ),
                        ),
                        _ => {
                            proof {
                                assert(false);
                            }
                            ConfirmKeyOutcome::Nothing
                        },
                    }
                } else {
                    ConfirmKeyOutcome::Nothing
                }
            },
            KeyCode::Esc => ConfirmKeyOutcome::Cancel,
            _ => ConfirmKeyOutcome::Nothing,
        }
    }
}

// ---------------------------------------------------------------------------
// The commands window
// ---------------------------------------------------------------------------
/// The window of one-key commands.
#[derive(Debug, Default)]
pub struct Commands;

/// The last command key pressed.
#[derive(Debug)]
pub struct CommandsState {
    pub command: char,
}

impl CommandsState {
    pub fn new() -> (r: CommandsState)
        ensures
            r.command == ' ',
    {
        CommandsState { command: ' ' }
    }
}

impl Commands {
    /// A character key is the command picked; escape cancels.
    pub fn on_key(&self, key: KeyEvent, state: &mut CommandsState) -> (r: WindowAction)
        ensures
            key.code matches KeyCode::Char(c) ==> final(state).command == c && (r matches WindowAction::Publish(
                e,
            ) && e@ == "commands__selection"@),
            key.code == KeyCode::Esc ==> final(state).command == old(state).command && (
            r matches WindowAction::Publish(e) && e@ == "commands__cancel"@),
            !(key.code is Char || key.code is Esc) ==> final(state).command == old(state).command
                && r is Nothing,
    {
        match key.code {
            KeyCode::Char(c) => {
                state.command = c;
                WindowAction::Publish("commands__selection")
            },
            KeyCode::Esc => WindowAction::Publish("commands__cancel"),
            _ => WindowAction::Nothing,
        }
    }
}

// ---------------------------------------------------------------------------
// Renaming an endpoint or a project
// ---------------------------------------------------------------------------
/// What a name input is given, and whether it takes the focus.
#[derive(Debug)]
pub struct InputRequest {
    pub text: String,
    pub focus: bool,
}

/// `The name '<name>' is already in use`.
pub open spec fn name_in_use_text(name: Seq<char>) -> Seq<char> {
    "The name '"@ + name + "' is already in use"@
}

/// Whether `name` is among `names`.
pub fn name_taken(names: &Vec<String>, name: &String) -> (r: bool)
    ensures
        r == strings_view(names@).contains(name@),
{
    let mut i: usize = 0;
    while i < names.len()
        invariant
            i <= names@.len(),
            forall|j: int| 0 <= j < i ==> names@[j]@ != name@,
        decreases names@.len() - i,
    {
        if names[i] == *name {
            assert(strings_view(names@)[i as int] == name@);
            return true;
        }
        i += 1;
    }
    proof {
        if strings_view(names@).contains(name@) {
            let k = choose|k: int| 0 <= k < strings_view(names@).len() && strings_view(names@)[k] == name@;
            assert(names@[k]@ == name@);
        }
    }
    false
}

/// The window that renames an endpoint: the open one, or one picked from a
/// stored project.
#[derive(Debug)]
pub struct EditEndpointName {
    pub persisted_project_name: Option<String>,
    pub persisted_endpoint: Option<PersistedEndpoint>,
}

/// What the endpoint renaming window holds.
#[derive(Debug)]
pub struct EditEndpointNameState {
    pub name: String,
    pub unique_name_error: String,
    pub current_names: Vec<String>,
    pub specific_name_change: Option<SpecificNameUpdate>,
}

impl EditEndpointNameState {
    pub fn new() -> (r: EditEndpointNameState)
        ensures
            r.name@ == ""@,
            r.unique_name_error@ == ""@,
            r.current_names@.len() == 0,
            r.specific_name_change is None,
    {
        EditEndpointNameState {
            name: "".to_owned(),
            unique_name_error: "".to_owned(),
            current_names: Vec::new(),
            specific_name_change: None,
        }
    }
}

impl EditEndpointName {
    pub fn new() -> (r: EditEndpointName)
        ensures
            r.persisted_project_name is None,
            r.persisted_endpoint is None,
    {
        EditEndpointName { persisted_project_name: None, persisted_endpoint: None }
    }

    /// A message arrives: the input is cleared, set to the open endpoint's
    /// name, or set to an endpoint picked for renaming, which is kept with
    /// its project's name. The result is what the text input is given.
    pub fn message(&mut self, state: &mut EditEndpointNameState, msg: EditEndpointNameMessages) -> (r:
        InputRequest)
        ensures
            match msg {
                EditEndpointNameMessages::ClearInput => {
                    &&& final(state).unique_name_error@ == ""@
                    &&& final(state).name@ == ""@
                    &&& final(state).current_names@ == old(state).current_names@
                    &&& r.text@ == ""@ && !r.focus
                    &&& final(self).persisted_project_name == old(self).persisted_project_name
                    &&& final(self).persisted_endpoint == old(self).persisted_endpoint
                },
                EditEndpointNameMessages::InputValue((v, names)) => {
                    &&& final(state).unique_name_error@ == ""@
                    &&& final(state).name@ == v@
                    &&& final(state).current_names@ == names@
                    &&& r.text@ == v@ && r.focus
                    &&& final(self).persisted_project_name == old(self).persisted_project_name
                    &&& final(self).persisted_endpoint == old(self).persisted_endpoint
                },
                EditEndpointNameMessages::Specifically((pn, e, names)) => {
                    &&& final(state).unique_name_error@ == ""@
                    &&& final(state).name@ == e.name@
                    &&& final(state).current_names@ == names@
                    &&& r.text@ == e.name@ && r.focus
                    &&& final(self).persisted_project_name == Some(pn)
                    &&& final(self).persisted_endpoint == Some(e)
                },
            },
            final(state).specific_name_change == old(state).specific_name_change,
    {
        match msg {
            EditEndpointNameMessages::ClearInput => {
                state.unique_name_error = "".to_owned();
                state.name = "".to_owned();
                InputRequest { text: "".to_owned(), focus: false }
            },
            EditEndpointNameMessages::InputValue((v, names)) => {
                state.unique_name_error = "".to_owned();
                state.name = v.clone();
                state.current_names = names;
                InputRequest { text: v, focus: true }
            },
            EditEndpointNameMessages::Specifically((pn, e, names)) => {
                state.current_names = names;
                state.unique_name_error = "".to_owned();
                state.name = e.name.clone();
                let text = e.name.clone();
                self.persisted_project_name = Some(pn);
                self.persisted_endpoint = Some(e);
                InputRequest { text, focus: true }
            },
        }
    }

    /// The name input reports a change, which the window takes; an input
    /// giving up focus hands it back to the window.
    pub fn receive(&self, state: &mut EditEndpointNameState, ident: &str, value: &str) -> (r: WindowAction)
        ensures
            ident@ == "name_input_update"@ ==> final(state).name@ == value@ && r is Nothing
                && final(state).current_names == old(state).current_names
                && final(state).unique_name_error == old(state).unique_name_error
                && final(state).specific_name_change == old(state).specific_name_change,
            ident@ == "name_input_escape"@ ==> *final(state) == *old(state) && (r matches WindowAction::Focus(
                n,
            ) && n@ == "edit_endpoint_name"@),
            !(ident@ == "name_input_update"@ || ident@ == "name_input_escape"@) ==> *final(state) == *old(
                state,
            ) && r is Nothing,
    {
        proof {
            reveal_strlit("name_input_update");
            reveal_strlit("name_input_escape");
            assert("name_input_update"@[11] == 'u' && "name_input_escape"@[11] == 'e');
        }
        if str_is(ident, "name_input_escape") {
            WindowAction::Focus("edit_endpoint_name")
        } else if str_is(ident, "name_input_update") {
            state.name = value.to_owned();
            WindowAction::Nothing
        } else {
            WindowAction::Nothing
        }
    }

    /// `s` submits the name unless another endpoint already has it; for a
    /// picked endpoint it asks for the stored rename. `c` and escape cancel
    /// and clear the error.
    pub fn on_key(&self, key: KeyEvent, state: &mut EditEndpointNameState) -> (r: WindowAction)
        ensures
            key.code == KeyCode::Char('s') ==> if strings_view(old(state).current_names@).contains(
                old(state).name@,
            ) {
                &&& r is Nothing
                &&& final(state).unique_name_error@ == name_in_use_text(old(state).name@)
                &&& final(state).name == old(state).name
                &&& final(state).specific_name_change == old(state).specific_name_change
            } else {
                &&& final(state).unique_name_error == old(state).unique_name_error
                &&& final(state).name == old(state).name
                &&& match self.persisted_endpoint {
                    Some(e) => {
                        &&& final(state).specific_name_change matches Some(u) && u.old_name@
                            == e.name@ && u.new_name@ == old(state).name@
                        &&& match self.persisted_project_name {
                            Some(pn) => r matches WindowAction::RenameEndpoint {
                                project_name,
                                endpoint,
                                new_name,
                            } && project_name@ == pn@ && endpoint@ == e@ && new_name@ == old(
                                state,
                            ).name@,
                            None => r is Nothing,
                        }
                    },
                    None => final(state).specific_name_change == old(state).specific_name_change && (
                    r matches WindowAction::Publish(ev) && ev@ == "edit_endpoint_name__submit"@),
                }
            },
            (key.code == KeyCode::Char('c') || key.code == KeyCode::Esc) ==> {
                &&& r matches WindowAction::Publish(ev) && ev@ == "edit_endpoint_name__cancel"@
                &&& final(state).unique_name_error@ == ""@
                &&& final(state).name == old(state).name
                &&& final(state).specific_name_change == old(state).specific_name_change
            },
            !(key.code == KeyCode::Char('s') || key.code == KeyCode::Char('c') || key.code
                == KeyCode::Esc) ==> r is Nothing && *final(state) == *old(state),
    {
        match key.code {
            KeyCode::Char(c) => {
                if c == 's' {
                    if name_taken(&state.current_names, &state.name) {
                        let error = concat("The name '", state.name.as_str());
                        state.unique_name_error = concat(error.as_str(), "' is already in use");
                        return WindowAction::Nothing;
                    }
                    match &self.persisted_endpoint {
                        Some(e) => {
                            state.specific_name_change = Some(
                                SpecificNameUpdate { old_name: e.name.clone(), new_name: state.name.clone() },
                            );
                            match &self.persisted_project_name {
                                Some(pn) => WindowAction::RenameEndpoint {
                                    project_name: pn.clone(),
                                    endpoint: e.clone(),
                                    new_name: state.name.clone(),
                                },
                                None => WindowAction::Nothing,
                            }
                        },
                        None => WindowAction::Publish("edit_endpoint_name__submit"),
                    }
                } else if c == 'c' {
                    state.unique_name_error = "".to_owned();
                    WindowAction::Publish("edit_endpoint_name__cancel")
                } else {
                    WindowAction::Nothing
                }
            },
            KeyCode::Esc => {
                state.unique_name_error = "".to_owned();
                WindowAction::Publish("edit_endpoint_name__cancel")
            },
            _ => WindowAction::Nothing,
        }
    }
}

/// The window that renames a project: the open one, or one picked from the
/// stored projects.
#[derive(Debug)]
pub struct EditProjectName {
    pub persisted_project: Option<PersistedProject>,
}

/// What the project renaming window holds.
#[derive(Debug)]
pub struct EditProjectNameState {
    pub name: String,
    pub specific_name_change: Option<SpecificNameUpdate>,
}

impl EditProjectNameState {
    pub fn new() -> (r: EditProjectNameState)
        ensures
            r.name@ == ""@,
            r.specific_name_change is None,
    {
        EditProjectNameState { name: "".to_owned(), specific_name_change: None }
    }
}

impl EditProjectName {
    pub fn new() -> (r: EditProjectName)
        ensures
            r.persisted_project is None,
    {
        EditProjectName { persisted_project: None }
    }

    /// A message arrives: the input is cleared, set to the open project's
    /// name, or set to a project picked for renaming, which is kept. The
    /// result is what the text input is given.
    pub fn message(&mut self, state: &mut EditProjectNameState, msg: EditProjectNameMessages) -> (r:
        InputRequest)
        ensures
            match msg {
                EditProjectNameMessages::ClearInput => final(state).name@ == ""@ && r.text@ == ""@
                    && !r.focus && final(self).persisted_project == old(self).persisted_project,
                EditProjectNameMessages::InputValue(v) => final(state).name@ == v@ && r.text@ == v@
                    && r.focus && final(self).persisted_project == old(self).persisted_project,
                EditProjectNameMessages::Specifically(p) => final(state).name@ == p.name@ && r.text@
                    == p.name@ && r.focus && final(self).persisted_project == Some(p),
            },
            final(state).specific_name_change == old(state).specific_name_change,
    {
        match msg {
            EditProjectNameMessages::ClearInput => {
                state.name = "".to_owned();
                InputRequest { text: "".to_owned(), focus: false }
            },
            EditProjectNameMessages::InputValue(v) => {
                state.name = v.clone();
                InputRequest { text: v, focus: true }
            },
            EditProjectNameMessages::Specifically(p) => {
                state.name = p.name.clone();
                let text = p.name.clone();
                self.persisted_project = Some(p);
                InputRequest { text, focus: true }
            },
        }
    }

    /// The name input reports a change, which the window takes; an input
    /// giving up focus hands it back to the window.
    pub fn receive(&self, state: &mut EditProjectNameState, ident: &str, value: &str) -> (r: WindowAction)
        ensures
            ident@ == "name_input_update"@ ==> final(state).name@ == value@ && r is Nothing
                && final(state).specific_name_change == old(state).specific_name_change,
            ident@ == "name_input_escape"@ ==> *final(state) == *old(state) && (r matches WindowAction::Focus(
                n,
            ) && n@ == "edit_project_name"@),
            !(ident@ == "name_input_update"@ || ident@ == "name_input_escape"@) ==> *final(state) == *old(
                state,
            ) && r is Nothing,
    {
        proof {
            reveal_strlit("name_input_update");
            reveal_strlit("name_input_escape");
            assert("name_input_update"@[11] == 'u' && "name_input_escape"@[11] == 'e');
        }
        if str_is(ident, "name_input_escape") {
            WindowAction::Focus("edit_project_name")
        } else if str_is(ident, "name_input_update") {
            state.name = value.to_owned();
            WindowAction::Nothing
        } else {
            WindowAction::Nothing
        }
    }

    /// `p` focuses the input; `s` submits the name, or for a picked project
    /// asks for the stored rename; `c` and escape cancel.
    pub fn on_key(&self, key: KeyEvent, state: &mut EditProjectNameState) -> (r: WindowAction)
        ensures
            final(state).name == old(state).name,
            key.code == KeyCode::Char('p') ==> *final(state) == *old(state) && (r matches WindowAction::Focus(
                n,
            ) && n@ == "project_name_input"@),
            key.code == KeyCode::Char('s') ==> match self.persisted_project {
                Some(p) => {
                    &&& final(state).specific_name_change matches Some(u) && u.old_name@ == p.name@
                        && u.new_name@ == old(state).name@
                    &&& r matches WindowAction::RenameProject { project, new_name } && project@ == p@
                        && new_name@ == old(state).name@
                },
                None => *final(state) == *old(state) && (r matches WindowAction::Publish(ev) && ev@
                    == "edit_project_name__submit"@),
            },
            (key.code == KeyCode::Char('c') || key.code == KeyCode::Esc) ==> *final(state) == *old(state) && (r matches WindowAction::Publish(ev) && ev@ == "edit_project_name__cancel"@),
            !(key.code == KeyCode::Char('p') || key.code == KeyCode::Char('s') || key.code
                == KeyCode::Char('c') || key.code == KeyCode::Esc) ==> r is Nothing && *final(state)
                == *old(state),
    {
        match key.code {
            KeyCode::Char(c) => {
                if c == 'p' {
                    WindowAction::Focus("project_name_input")
                } else if c == 's' {
                    match &self.persisted_project {
                        Some(p) => {
                            state.specific_name_change = Some(
                                SpecificNameUpdate { old_name: p.name.clone(), new_name: state.name.clone() },
                            );
                            WindowAction::RenameProject { project: p.clone(), new_name: state.name.clone() }
                        },
                        None => WindowAction::Publish("edit_project_name__submit"),
                    }
                } else if c == 'c' {
                    WindowAction::Publish("edit_project_name__cancel")
                } else {
                    WindowAction::Nothing
                }
            },
            KeyCode::Esc => WindowAction::Publish("edit_project_name__cancel"),
            _ => WindowAction::Nothing,
        }
    }
}

// ---------------------------------------------------------------------------
// Adding or editing a header
// ---------------------------------------------------------------------------
/// The window that adds a header to the open endpoint, or edits one.
#[derive(Debug, Default)]
pub struct AddHeaderWindow;

/// What the header window holds.
#[derive(Debug)]
pub struct AddHeaderWindowState {
    pub header: Header,
    pub current_names: Vec<String>,
    pub current_name: String,
    pub unique_name_error: String,
}

impl AddHeaderWindowState {
    pub fn new() -> (r: AddHeaderWindowState)
        ensures
            r.header@ == (HeaderData { name: ""@, value: ""@ }),
            r.current_names@.len() == 0,
            r.current_name@ == ""@,
            r.unique_name_error@ == ""@,
    {
        AddHeaderWindowState {
            header: Header { name: "".to_owned(), value: "".to_owned() },
            current_names: Vec::new(),
            current_name: "".to_owned(),
            unique_name_error: "".to_owned(),
        }
    }
}

impl AddHeaderWindow {
    /// A header to edit arrives with the endpoint's header names: the window
    /// holds them, and the name and value inputs are given the header's.
    pub fn message(&self, state: &mut AddHeaderWindowState, msg: AddHeaderWindowMessages) -> (r: (
        String,
        String,
    ))
        ensures
            match msg {
                AddHeaderWindowMessages::Specifically((n, h, names)) => {
                    &&& final(state).current_name@ == n@
                    &&& final(state).current_names@ == names@
                    &&& final(state).unique_name_error@ == ""@
                    &&& final(state).header@ == h@
                    &&& r.0@ == h@.name && r.1@ == h@.value
                },
            },
    {
        match msg {
            AddHeaderWindowMessages::Specifically((n, h, names)) => {
                state.current_name = n;
                state.current_names = names;
                state.unique_name_error = "".to_owned();
                let r = (h.name.clone(), h.value.clone());
                state.header = h;
                r
            },
        }
    }

    /// An input reports a change: the header takes it and the dashboard is
    /// told, with the header as it now is. An input giving up focus hands it
    /// back to the window.
    pub fn receive(&self, state: &mut AddHeaderWindowState, ident: &str, value: &str) -> (r:
        WindowAction)
        ensures
            ident@ == "header_name_update"@ ==> final(state).header@ == (HeaderData {
                name: value@,
                value: old(state).header@.value,
            }) && (r matches WindowAction::Publish(e) && e@ == "add_header__name_update"@),
            ident@ == "header_value_update"@ ==> final(state).header@ == (HeaderData {
                name: old(state).header@.name,
                value: value@,
            }) && (r matches WindowAction::Publish(e) && e@ == "add_header__value_update"@),
            (ident@ == "name_input_focus"@ || ident@ == "value_input_focus"@) ==> *final(state)
                == *old(state) && (r matches WindowAction::Focus(n) && n@ == "add_header_window"@),
            !(ident@ == "header_name_update"@ || ident@ == "header_value_update"@ || ident@
                == "name_input_focus"@ || ident@ == "value_input_focus"@) ==> *final(state) == *old(state) && r is Nothing,
    {
        proof {
            reveal_strlit("header_name_update");
            reveal_strlit("header_value_update");
            reveal_strlit("name_input_focus");
            reveal_strlit("value_input_focus");
            assert("header_name_update"@.len() == 18);
            assert("header_value_update"@.len() == 19);
            assert("name_input_focus"@.len() == 16);
            assert("value_input_focus"@.len() == 17);
        }
        if str_is(ident, "header_name_update") {
            state.header.name = value.to_owned();
            WindowAction::Publish("add_header__name_update")
        } else if str_is(ident, "header_value_update") {
            state.header.value = value.to_owned();
            WindowAction::Publish("add_header__value_update")
        } else if str_is(ident, "name_input_focus") || str_is(ident, "value_input_focus") {
            WindowAction::Focus("add_header_window")
        } else {
            WindowAction::Nothing
        }
    }

    /// `s` submits, `c` and escape cancel, `n` and `v` focus the name and
    /// value inputs.
    pub fn on_key(&self, key: KeyEvent) -> (r: WindowAction)
        ensures
            key.code == KeyCode::Char('s') ==> (r matches WindowAction::Publish(e) && e@
                == "add_header__submit"@),
            (key.code == KeyCode::Char('c') || key.code == KeyCode::Esc) ==> (r matches WindowAction::Publish(
                e,
            ) && e@ == "add_header__cancel"@),
            key.code == KeyCode::Char('n') ==> (r matches WindowAction::Focus(n) && n@
                == "header_name_input"@),
            key.code == KeyCode::Char('v') ==> (r matches WindowAction::Focus(n) && n@
                == "header_value_input"@),
            !(key.code == KeyCode::Char('s') || key.code == KeyCode::Char('c') || key.code
                == KeyCode::Esc || key.code == KeyCode::Char('n') || key.code == KeyCode::Char('v'))
                ==> r is Nothing,
    {
        match key.code {
            KeyCode::Esc => WindowAction::Publish("add_header__cancel"),
            KeyCode::Char(c) => {
                if c == 's' {
                    WindowAction::Publish("add_header__submit")
                } else if c == 'c' {
                    WindowAction::Publish("add_header__cancel")
                } else if c == 'n' {
                    WindowAction::Focus("header_name_input")
                } else if c == 'v' {
                    WindowAction::Focus("header_value_input")
                } else {
                    WindowAction::Nothing
                }
            },
            _ => WindowAction::Nothing,
        }
    }
}

} // verus!
