//! The plain values the terminal interface is made of: keys, which window is
//! open, what the dashboard shows, and the components that hold no state.

use vstd::prelude::*;

verus! {

/// A key that was pressed.
#[derive(Debug, Clone, Copy, PartialEq, Eq, Structural)]
pub enum KeyCode {
    Char(char),
    Esc,
    Enter,
    Up,
    Down,
    /// Any other key.
    Other,
}

/// A key press, with whether Ctrl was held.
#[derive(Debug, Clone, Copy, PartialEq, Eq, Structural)]
pub struct KeyEvent {
    pub code: KeyCode,
    pub ctrl: bool,
}

/// The window floating over the dashboard, if any.
#[derive(Debug, Clone, Copy, PartialEq, Eq, Structural)]
pub enum FloatingWindow {
    NoWindow,
    Method,
    AddHeader,
    Error,
    EditHeaderSelector,
    Project,
    ConfirmAction,
    Message,
    ChangeEndpointName,
    ChangeProjectName,
    EndpointsSelector,
    Commands,
    CodeGen,
    PostmanFileSelector,
    BodyModeSelector,
    AddProjectVariable,
    ViewProjectVariables,
}

/// The name a template uses for a floating window.
pub open spec fn floating_window_name(w: FloatingWindow) -> Seq<char> {
    match w {
        FloatingWindow::NoWindow => "None"@,
        FloatingWindow::Method => "Method"@,
        FloatingWindow::AddHeader => "AddHeader"@,
        FloatingWindow::Error => "Error"@,
        FloatingWindow::EditHeaderSelector => "EditHeaderSelector"@,
        FloatingWindow::Project => "Project"@,
        FloatingWindow::ConfirmAction => "ConfirmAction"@,
        FloatingWindow::Message => "Message"@,
        FloatingWindow::ChangeEndpointName => "ChangeEndpointName"@,
        FloatingWindow::ChangeProjectName => "ChangeProjectName"@,
        FloatingWindow::EndpointsSelector => "EndpointsSelector"@,
        FloatingWindow::Commands => "Commands"@,
        FloatingWindow::CodeGen => "CodeGen"@,
        FloatingWindow::PostmanFileSelector => "PostmanFileSelector"@,
        FloatingWindow::BodyModeSelector => "BodyModeSelector"@,
        FloatingWindow::AddProjectVariable => "AddProjectVariable"@,
        FloatingWindow::ViewProjectVariables => "ViewProjectVariables"@,
    }
}

impl FloatingWindow {
    /// The name a template uses for this window.
    pub fn as_str(&self) -> (r: &'static str)
        ensures
            r@ == floating_window_name(*self),
    {
        match self {
            FloatingWindow::NoWindow => "None",
            FloatingWindow::Method => "Method",
            FloatingWindow::AddHeader => "AddHeader",
            FloatingWindow::Error => "Error",
            FloatingWindow::EditHeaderSelector => "EditHeaderSelector",
            FloatingWindow::Project => "Project",
            FloatingWindow::ConfirmAction => "ConfirmAction",
            FloatingWindow::Message => "Message",
            FloatingWindow::ChangeEndpointName => "ChangeEndpointName",
            FloatingWindow::ChangeProjectName => "ChangeProjectName",
            FloatingWindow::EndpointsSelector => "EndpointsSelector",
            FloatingWindow::Commands => "Commands",
            FloatingWindow::CodeGen => "CodeGen",
            FloatingWindow::PostmanFileSelector => "PostmanFileSelector",
            FloatingWindow::BodyModeSelector => "BodyModeSelector",
            FloatingWindow::AddProjectVariable => "AddProjectVariable",
            FloatingWindow::ViewProjectVariables => "ViewProjectVariables",
        }
    }
}

/// What the main area of the dashboard shows.
#[derive(Debug, Clone, Copy, PartialEq, Eq, Structural)]
pub enum DashboardDisplay {
    RequestBody,
    RequestHeadersEditor,
    ResponseBody,
    ResponseHeaders,
}

/// The name a template uses for a display.
pub open spec fn display_name(d: DashboardDisplay) -> Seq<char> {
    match d {
        DashboardDisplay::RequestBody => "request_body"@,
        DashboardDisplay::RequestHeadersEditor => "request_headers_editor"@,
        DashboardDisplay::ResponseBody => "response_body"@,
        DashboardDisplay::ResponseHeaders => "response_headers"@,
    }
}

impl DashboardDisplay {
    /// The name a template uses for this display.
    pub fn as_str(&self) -> (r: &'static str)
        ensures
            r@ == display_name(*self),
    {
        match self {
            DashboardDisplay::RequestBody => "request_body",
            DashboardDisplay::RequestHeadersEditor => "request_headers_editor",
            DashboardDisplay::ResponseBody => "response_body",
            DashboardDisplay::ResponseHeaders => "response_headers",
        }
    }
}

/// What the application shows: the dashboard or the options.
#[derive(Debug, Clone, Copy, PartialEq, Eq, Structural)]
pub enum AppDisplay {
    Dashboard,
    Options,
}

impl AppDisplay {
    /// The name a template uses for this display.
    pub fn as_str(&self) -> (r: &'static str)
        ensures
            *self is Dashboard ==> r@ == "Dashboard"@,
            *self is Options ==> r@ == "Options"@,
    {
        match self {
            AppDisplay::Dashboard => "Dashboard",
            AppDisplay::Options => "Options",
        }
    }
}

/// Messages to the application layout.
#[derive(Debug, Clone, Copy, PartialEq, Eq, Structural)]
pub enum AppLayoutMessages {
    OpenOptions,
    OpenDashboard,
}

/// The state of the application layout.
#[derive(Debug, Clone, Copy, PartialEq, Eq, Structural)]
pub struct AppLayoutState {
    pub display: AppDisplay,
}

/// The component to focus after the layout handled a message.
#[derive(Debug, Clone, Copy, PartialEq, Eq, Structural)]
pub enum LayoutFocus {
    /// The options view.
    Options,
    /// The dashboard.
    App,
}

impl AppLayoutState {
    /// The layout a session starts with: the dashboard.
    pub fn new() -> (r: AppLayoutState)
        ensures
            r.display == AppDisplay::Dashboard,
    {
        AppLayoutState { display: AppDisplay::Dashboard }
    }

    /// Shows the options or the dashboard, as the message asks, and names the
    /// component to focus.
    pub fn message(&mut self, message: AppLayoutMessages) -> (focus: LayoutFocus)
        ensures
            message is OpenOptions ==> final(self).display == AppDisplay::Options && focus
                == LayoutFocus::Options,
            message is OpenDashboard ==> final(self).display == AppDisplay::Dashboard && focus
                == LayoutFocus::App,
    {
        match message {
            AppLayoutMessages::OpenOptions => {
                self.display = AppDisplay::Options;
                LayoutFocus::Options
            },
            AppLayoutMessages::OpenDashboard => {
                self.display = AppDisplay::Dashboard;
                LayoutFocus::App
            },
        }
    }
}

/// A row of a list; it takes no focus.
#[derive(Debug, Clone, Copy, PartialEq, Eq, Structural)]
pub struct Row;

/// The state of a row: none.
#[derive(Debug, Clone, Copy, PartialEq, Eq, Structural)]
pub struct RowState {}

impl RowState {
    pub fn new() -> (r: RowState)
        ensures
            r == (RowState {}),
    {
        RowState {}
    }
}

impl Row {
    /// A row never takes focus.
    pub fn accept_focus(&self) -> (r: bool)
        ensures
            !r,
    {
        false
    }
}

/// The editor of the request headers.
#[derive(Debug, Clone, Copy, PartialEq, Eq, Structural)]
pub struct RequestHeadersEditor;

/// The state of the headers editor: none.
#[derive(Debug, Clone, Copy, PartialEq, Eq, Structural)]
pub struct RequestHeadersEditorState {}

impl RequestHeadersEditorState {
    pub fn new() -> (r: RequestHeadersEditorState)
        ensures
            r == (RequestHeadersEditorState {}),
    {
        RequestHeadersEditorState {}
    }
}

/// The section holding the request body; it takes no focus.
#[derive(Debug, Clone, Copy, PartialEq, Eq, Structural)]
pub struct RequestBodySection;

/// The state of the request body section: none.
#[derive(Debug, Clone, Copy, PartialEq, Eq, Structural)]
pub struct RequestBodySectionState {}

impl RequestBodySection {
    /// The section never takes focus.
    pub fn accept_focus(&self) -> (r: bool)
        ensures
            !r,
    {
        false
    }

    /// Whether the border of the request body should be recolored after its
    /// focus changed: only when it lost focus.
    pub fn recolor_border(&self, ident: &str, focused: bool) -> (r: bool)
        ensures
            r == (ident@ == "request_body_border"@ && !focused),
    {
        crate::text::str_is(ident, "request_body_border") && !focused
    }
}

} // verus!
