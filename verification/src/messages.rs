//! The messages the components of the interface send one another.

use vstd::prelude::*;

use crate::projects::{Header, PersistedEndpoint, PersistedProject, PersistedVariable};

verus! {

/// A question put to the user before something is deleted.
#[derive(Debug)]
pub struct ConfirmDetails<T> {
    pub title: String,
    pub message: String,
    pub data: T,
}

/// The user's answer to a question about `data`.
#[derive(Debug)]
pub struct ConfirmationAnswer<T> {
    pub data: T,
    pub answer: bool,
}

/// Questions before a deletion, and their answers.
#[derive(Debug)]
pub enum ConfirmAction {
    ConfirmDeletePersistedProject(ConfirmDetails<PersistedProject>),
    ConfirmDeletePersistedEndpoint(ConfirmDetails<PersistedEndpoint>),
    ConfirmDeletePersistedVariable(ConfirmDetails<PersistedVariable>),
    ConfirmDeleteHeader(ConfirmDetails<Header>),
    ConfirmationDeletePersistedProject(ConfirmationAnswer<PersistedProject>),
    ConfirmationDeletePersistedEndpoint(ConfirmationAnswer<PersistedEndpoint>),
    ConfirmationDeletePersistedVariable(ConfirmationAnswer<PersistedVariable>),
    ConfirmationDeleteHeader(ConfirmationAnswer<Header>),
}

/// A text input's identifier and its current text.
#[derive(Debug)]
pub struct TextUpdate {
    pub id: String,
    pub value: String,
}

/// Messages from a text input.
#[derive(Debug)]
pub enum TextInputMessages {
    Change(String),
    Update(TextUpdate),
    Escape(TextUpdate),
}

/// Messages to and from a text area.
#[derive(Debug)]
pub enum TextAreaMessages {
    InputChange(String),
    SetInput(String),
}

/// Messages to the dashboard.
#[derive(Debug)]
pub enum DashboardMessages {
    TextInput(TextInputMessages),
    TextArea(TextAreaMessages),
    ThemeUpdate,
    ShowSucces((String, String)),
    ShowError(String),
    Confirmations(ConfirmAction),
}

/// Messages to the response renderer.
#[derive(Debug)]
pub enum ResponseRendererMessages {
    ResponseUpdate(String),
    SyntaxPreview(Option<String>),
    ThemeUpdate,
}

/// Messages to the window that renames an endpoint.
#[derive(Debug)]
pub enum EditEndpointNameMessages {
    ClearInput,
    InputValue((String, Vec<String>)),
    Specifically((String, PersistedEndpoint, Vec<String>)),
}

/// Messages to the window that renames a project.
#[derive(Debug)]
pub enum EditProjectNameMessages {
    ClearInput,
    InputValue(String),
    Specifically(PersistedProject),
}

/// A name that changes from `old_name` to `new_name`.
#[derive(Debug)]
pub struct SpecificNameUpdate {
    pub old_name: String,
    pub new_name: String,
}

/// Messages to the project variables window.
#[derive(Debug)]
pub enum ProjectVariablesMessages {
    SetList(Vec<PersistedVariable>),
}

/// Messages to the header selector.
#[derive(Debug)]
pub enum EditHeaderSelectorMessages {
    HeadersList(Vec<Header>),
}

/// Messages to the window that adds or edits a header.
#[derive(Debug)]
pub enum AddHeaderWindowMessages {
    Specifically((String, Header, Vec<String>)),
}

/// Messages to the window that adds or edits a project variable.
#[derive(Debug)]
pub enum AddProjectVariableMessages {
    InitialFocus,
    Specifically((String, PersistedVariable, Vec<String>)),
}

/// Messages to the endpoints selector.
#[derive(Debug)]
pub enum EndpointsSelectorMessages {
    EndpointsList(Vec<PersistedEndpoint>),
}

} // verus!
