//! The dashboard: the open project and endpoint, the last response, and the
//! window floating over it; how keys and messages change it, and what the
//! interface around it has to do in turn.

use vstd::prelude::*;

use crate::messages::{DashboardMessages, TextAreaMessages, TextInputMessages};
use crate::projects::{
    Endpoint, EndpointView, HeaderState, HeaderStateView, Project, ProjectView,
    DEFAULT_ENDPOINT_NAME, DEFAULT_PROJECT_NAME, new_endpoint_view, new_project_view,
};
use crate::text::str_is;
use crate::ui::{DashboardDisplay, FloatingWindow, KeyCode, KeyEvent};

verus! {

/// The colors of the interface.
#[derive(Debug)]
pub struct AppTheme {
    pub background: String,
    pub foreground: String,
    pub project_name_background: String,
    pub project_name_foreground: String,
    pub border_focused: String,
    pub border_unfocused: String,
    pub overlay_heading: String,
    pub overlay_background: String,
    pub overlay_foreground: String,
    pub overlay_submit_background: String,
    pub overlay_submit_foreground: String,
    pub overlay_cancel_background: String,
    pub overlay_cancel_foreground: String,
    pub menu_color_1: String,
    pub menu_color_2: String,
    pub menu_color_3: String,
    pub menu_color_4: String,
    pub menu_color_5: String,
    pub endpoint_name_background: String,
    pub endpoint_name_foreground: String,
    pub menu_opt_background: String,
    pub menu_opt_foreground: String,
    pub top_bar_background: String,
    pub top_bar_foreground: String,
    pub bottom_bar_background: String,
    pub bottom_bar_foreground: String,
}

/// An entry of a menu bar.
#[derive(Debug)]
pub struct MenuItem {
    pub label: String,
    pub color: String,
}

pub struct MenuItemView {
    pub label: Seq<char>,
    pub color: Seq<char>,
}

impl View for MenuItem {
    type V = MenuItemView;

    open spec fn view(&self) -> MenuItemView {
        MenuItemView { label: self.label@, color: self.color@ }
    }
}

/// What the dashboard holds.
#[derive(Debug)]
pub struct DashboardState {
    pub main_display: DashboardDisplay,
    pub floating_window: FloatingWindow,
    pub endpoint: Endpoint,
    pub response_headers: Vec<HeaderState>,
    pub response: String,
    pub response_body_window_label: String,
    pub error_message: String,
    pub message: String,
    pub message_label: String,
    pub menu_items: Vec<MenuItem>,
    pub top_menu_items: Vec<MenuItem>,
    pub logs: String,
    pub new_header_name: String,
    pub new_header_value: String,
    pub edit_header_name: String,
    pub edit_header_value: String,
    pub project: Project,
    pub endpoint_count: u8,
    pub filter_indexes: Vec<usize>,
    pub filter_total: usize,
    pub filter_nav_index: usize,
    pub app_bg: String,
    pub app_theme: AppTheme,
}

/// The dashboard, as values.
pub struct DashboardView {
    pub main_display: DashboardDisplay,
    pub floating_window: FloatingWindow,
    pub endpoint: EndpointView,
    pub response_headers: Seq<HeaderStateView>,
    pub response: Seq<char>,
    pub response_body_window_label: Seq<char>,
    pub error_message: Seq<char>,
    pub message: Seq<char>,
    pub message_label: Seq<char>,
    pub menu_items: Seq<MenuItemView>,
    pub top_menu_items: Seq<MenuItemView>,
    pub logs: Seq<char>,
    pub new_header_name: Seq<char>,
    pub new_header_value: Seq<char>,
    pub edit_header_name: Seq<char>,
    pub edit_header_value: Seq<char>,
    pub project: ProjectView,
    pub endpoint_count: u8,
    pub filter_indexes: Seq<usize>,
    pub filter_total: usize,
    pub filter_nav_index: usize,
    pub app_bg: Seq<char>,
    pub app_theme: AppTheme,
}

impl View for DashboardState {
    type V = DashboardView;

    open spec fn view(&self) -> DashboardView {
        DashboardView {
            main_display: self.main_display,
            floating_window: self.floating_window,
            endpoint: self.endpoint@,
            response_headers: self.response_headers@.map_values(|h: HeaderState| h@),
            response: self.response@,
            response_body_window_label: self.response_body_window_label@,
            error_message: self.error_message@,
            message: self.message@,
            message_label: self.message_label@,
            menu_items: self.menu_items@.map_values(|m: MenuItem| m@),
            top_menu_items: self.top_menu_items@.map_values(|m: MenuItem| m@),
            logs: self.logs@,
            new_header_name: self.new_header_name@,
            new_header_value: self.new_header_value@,
            edit_header_name: self.edit_header_name@,
            edit_header_value: self.edit_header_value@,
            project: self.project@,
            endpoint_count: self.endpoint_count,
            filter_indexes: self.filter_indexes@,
            filter_total: self.filter_total,
            filter_nav_index: self.filter_nav_index,
            app_bg: self.app_bg@,
            app_theme: self.app_theme,
        }
    }
}

/// The menu of the bottom bar, colored by the theme.
pub open spec fn menu_view(t: AppTheme) -> Seq<MenuItemView> {
    seq![
        MenuItemView { label: "(S)ave Project"@, color: t.menu_color_1@ },
        MenuItemView { label: "Save Endpo(i)nt"@, color: t.menu_color_2@ },
        MenuItemView { label: "Swap (P)roject"@, color: t.menu_color_3@ },
        MenuItemView { label: "Swap (E)ndpoint"@, color: t.menu_color_4@ },
        MenuItemView { label: "(O)ptions"@, color: t.menu_color_5@ },
    ]
}

/// The dashboard a session starts with.
pub open spec fn initial_view(t: AppTheme) -> DashboardView {
    DashboardView {
        main_display: DashboardDisplay::RequestBody,
        floating_window: FloatingWindow::NoWindow,
        endpoint: new_endpoint_view(),
        response_headers: Seq::empty(),
        response: ""@,
        response_body_window_label: ""@,
        error_message: ""@,
        message: ""@,
        message_label: ""@,
        menu_items: menu_view(t),
        top_menu_items: seq![MenuItemView { label: "(P)rojects"@, color: t.menu_color_1@ }],
        logs: ""@,
        new_header_name: ""@,
        new_header_value: ""@,
        edit_header_name: ""@,
        edit_header_value: ""@,
        project: new_project_view(),
        endpoint_count: 0,
        filter_indexes: Seq::empty(),
        filter_total: 0,
        filter_nav_index: 0,
        app_bg: "#000000"@,
        app_theme: t,
    }
}

fn owned(s: &str) -> (r: String)
    ensures
        r@ == s@,
{
    s.to_owned()
}

fn item(label: &str, color: &String) -> (r: MenuItem)
    ensures
        r@ == (MenuItemView { label: label@, color: color@ }),
{
    MenuItem { label: owned(label), color: color.clone() }
}

impl DashboardState {
    pub fn new(app_theme: AppTheme) -> (r: DashboardState)
        ensures
            r@ == initial_view(app_theme),
    {
        let mut menu_items: Vec<MenuItem> = Vec::new();
        menu_items.push(item("(S)ave Project", &app_theme.menu_color_1));
        menu_items.push(item("Save Endpo(i)nt", &app_theme.menu_color_2));
        menu_items.push(item("Swap (P)roject", &app_theme.menu_color_3));
        menu_items.push(item("Swap (E)ndpoint", &app_theme.menu_color_4));
        menu_items.push(item("(O)ptions", &app_theme.menu_color_5));
        let mut top_menu_items: Vec<MenuItem> = Vec::new();
        top_menu_items.push(item("(P)rojects", &app_theme.menu_color_1));
        let r = DashboardState {
            project: Project::new(),
            endpoint_count: 0,
            endpoint: Endpoint::new(),
            response: owned(""),
            message: owned(""),
            message_label: owned(""),
            response_body_window_label: owned(""),
            error_message: owned(""),
            new_header_name: owned(""),
            new_header_value: owned(""),
            edit_header_name: owned(""),
            edit_header_value: owned(""),
            floating_window: FloatingWindow::NoWindow,
            main_display: DashboardDisplay::RequestBody,
            logs: owned(""),
            menu_items,
            top_menu_items,
            response_headers: Vec::new(),
            filter_indexes: Vec::new(),
            filter_total: 0,
            filter_nav_index: 0,
            app_bg: owned("#000000"),
            app_theme,
        };
        assert(r@.menu_items =~= menu_view(app_theme));
        assert(r@.top_menu_items =~= initial_view(app_theme).top_menu_items);
        assert(r@.response_headers =~= Seq::<HeaderStateView>::empty());
        assert(r@.filter_indexes =~= Seq::<usize>::empty());
        r
    }

    /// Shows a message window with a title.
    pub fn show_message(&mut self, title: &str, message: &str)
        ensures
            final(self)@ == (DashboardView {
                message: message@,
                message_label: title@,
                floating_window: FloatingWindow::Message,
                ..old(self)@
            }),
    {
        self.message = owned(message);
        self.message_label = owned(title);
        self.floating_window = FloatingWindow::Message;
    }

    /// Shows an error window.
    pub fn show_error(&mut self, message: &str)
        ensures
            final(self)@ == (DashboardView {
                error_message: message@,
                floating_window: FloatingWindow::Error,
                ..old(self)@
            }),
    {
        self.error_message = owned(message);
        self.floating_window = FloatingWindow::Error;
    }

    /// Takes the colors of `theme`.
    pub fn update_theme(&mut self, theme: AppTheme)
        ensures
            final(self)@ == (DashboardView { app_theme: theme, ..old(self)@ }),
    {
        self.app_theme = theme;
    }
}

/// What the interface has to do after the dashboard handled a key.
#[derive(Debug, Clone, Copy, PartialEq, Eq, Structural)]
pub enum DashboardAction {
    /// Nothing more.
    Nothing,
    /// Focus the commands window.
    FocusCommandsWindow,
    /// Save the project; show a message on success when asked.
    SaveProject { show_message: bool },
    /// Focus the window renaming the endpoint and give it the current name.
    OpenEditEndpointName,
    /// Focus the window renaming the project and give it the current name.
    OpenEditProjectName,
    /// Save the endpoint into its project; show a message on success when asked.
    SaveEndpoint { show_message: bool },
    /// Show the options.
    OpenOptions,
    /// Save the endpoint quietly and start a new one.
    NewEndpoint,
    /// Save the project quietly and start a new one.
    NewProject,
    /// Save the response body to a file.
    SaveResponse,
    /// Focus the URL input.
    FocusUrlInput,
    /// Quit the application.
    Quit,
    /// Send the request.
    SendRequest,
    /// Focus the response renderer.
    FocusResponseRenderer,
    /// Focus the endpoints selector and give it the project's endpoints.
    OpenEndpointsSelector,
    /// Focus the project selector and ask it to list the projects.
    OpenProjects,
    /// Focus the header selector and give it the endpoint's headers.
    OpenEditHeaderSelector,
    /// Focus the method selector.
    FocusMethodSelector,
    /// Focus the window adding a header.
    OpenAddHeaderWindow,
    /// Focus the body mode selector.
    FocusBodyModeSelector,
    /// Copy the response body to the clipboard.
    YankResponse,
    /// Give the focus back to the application.
    FocusApp,
}

/// The display, floating window and action after a key, given the display
/// and floating window before it.
pub open spec fn key_outcome(d: DashboardDisplay, f: FloatingWindow, key: KeyEvent) -> (
    DashboardDisplay,
    FloatingWindow,
    DashboardAction,
) {
    match key.code {
        KeyCode::Char(c) => {
            if c == 'c' {
                (d, FloatingWindow::Commands, DashboardAction::FocusCommandsWindow)
            } else if c == 's' {
                (d, f, DashboardAction::SaveProject { show_message: true })
            } else if c == 'n' {
                (d, FloatingWindow::ChangeEndpointName, DashboardAction::OpenEditEndpointName)
            } else if c == 'j' {
                (d, FloatingWindow::ChangeProjectName, DashboardAction::OpenEditProjectName)
            } else if c == 'i' {
                (d, f, DashboardAction::SaveEndpoint { show_message: true })
            } else if c == 'o' {
                (d, f, DashboardAction::OpenOptions)
            } else if c == 't' {
                (d, f, DashboardAction::NewEndpoint)
            } else if c == 'w' {
                (d, f, DashboardAction::NewProject)
            } else if c == 'v' {
                (d, f, if d is ResponseBody { DashboardAction::SaveResponse } else { DashboardAction::Nothing })
            } else if c == 'u' {
                (d, f, if key.ctrl { DashboardAction::Nothing } else { DashboardAction::FocusUrlInput })
            } else if c == 'q' {
                (d, f, DashboardAction::Quit)
            } else if c == 'r' {
                (d, f, DashboardAction::SendRequest)
            } else if c == 'b' {
                match d {
                    DashboardDisplay::RequestBody => (d, f, DashboardAction::Nothing),
                    DashboardDisplay::RequestHeadersEditor => (DashboardDisplay::RequestBody, f, DashboardAction::Nothing),
                    DashboardDisplay::ResponseBody => (d, f, DashboardAction::FocusResponseRenderer),
                    DashboardDisplay::ResponseHeaders => (DashboardDisplay::ResponseBody, f, DashboardAction::Nothing),
                }
            } else if c == 'd' {
                (if key.ctrl { d } else { DashboardDisplay::RequestHeadersEditor }, f, DashboardAction::Nothing)
            } else if c == 'e' {
                (d, FloatingWindow::EndpointsSelector, DashboardAction::OpenEndpointsSelector)
            } else if c == 'p' {
                (d, FloatingWindow::Project, DashboardAction::OpenProjects)
            } else if c == 'h' {
                match d {
                    DashboardDisplay::RequestHeadersEditor => (d, FloatingWindow::EditHeaderSelector, DashboardAction::OpenEditHeaderSelector),
                    DashboardDisplay::ResponseBody => (DashboardDisplay::ResponseHeaders, f, DashboardAction::Nothing),
                    _ => (d, f, DashboardAction::Nothing),
                }
            } else if c == 'm' {
                (d, FloatingWindow::Method, DashboardAction::FocusMethodSelector)
            } else if c == 'a' {
                if d is RequestHeadersEditor {
                    (d, FloatingWindow::AddHeader, DashboardAction::OpenAddHeaderWindow)
                } else {
                    (d, f, DashboardAction::Nothing)
                }
            } else if c == 'y' {
                match d {
                    DashboardDisplay::RequestBody => (d, FloatingWindow::BodyModeSelector, DashboardAction::FocusBodyModeSelector),
                    DashboardDisplay::ResponseBody => (d, f, DashboardAction::YankResponse),
                    _ => (d, f, DashboardAction::Nothing),
                }
            } else {
                (d, f, DashboardAction::Nothing)
            }
        },
        KeyCode::Esc => {
            if f != FloatingWindow::NoWindow {
                (d, FloatingWindow::NoWindow, DashboardAction::FocusApp)
            } else if d != DashboardDisplay::RequestBody {
                (DashboardDisplay::RequestBody, f, DashboardAction::FocusApp)
            } else {
                (d, f, DashboardAction::FocusApp)
            }
        },
        _ => (d, f, DashboardAction::Nothing),
    }
}

impl DashboardState {
    /// Handles a key pressed on the dashboard: changes what it shows and
    /// which window floats over it, and says what the interface has to do.
    pub fn on_key(&mut self, key: KeyEvent) -> (r: DashboardAction)
        ensures
            ({
                let (d, f, a) = key_outcome(old(self).main_display, old(self).floating_window, key);
                &&& r == a
                &&& final(self)@ == (DashboardView { main_display: d, floating_window: f, ..old(self)@ })
            }),
    {
        let d = self.main_display;
        match key.code {
            KeyCode::Char(c) => {
                if c == 'c' {
                    self.floating_window = FloatingWindow::Commands;
                    DashboardAction::FocusCommandsWindow
                } else if c == 's' {
                    DashboardAction::SaveProject { show_message: true }
                } else if c == 'n' {
                    self.floating_window = FloatingWindow::ChangeEndpointName;
                    DashboardAction::OpenEditEndpointName
                } else if c == 'j' {
                    self.floating_window = FloatingWindow::ChangeProjectName;
                    DashboardAction::OpenEditProjectName
                } else if c == 'i' {
                    DashboardAction::SaveEndpoint { show_message: true }
                } else if c == 'o' {
                    DashboardAction::OpenOptions
                } else if c == 't' {
                    DashboardAction::NewEndpoint
                } else if c == 'w' {
                    DashboardAction::NewProject
                } else if c == 'v' {
                    match d {
                        DashboardDisplay::ResponseBody => DashboardAction::SaveResponse,
                        _ => DashboardAction::Nothing,
                    }
                } else if c == 'u' {
                    if key.ctrl {
                        DashboardAction::Nothing
                    } else {
                        DashboardAction::FocusUrlInput
                    }
                } else if c == 'q' {
                    DashboardAction::Quit
                } else if c == 'r' {
                    DashboardAction::SendRequest
                } else if c == 'b' {
                    match d {
                        DashboardDisplay::RequestBody => DashboardAction::Nothing,
                        DashboardDisplay::RequestHeadersEditor => {
                            self.main_display = DashboardDisplay::RequestBody;
                            DashboardAction::Nothing
                        },
                        DashboardDisplay::ResponseBody => DashboardAction::FocusResponseRenderer,
                        DashboardDisplay::ResponseHeaders => {
                            self.main_display = DashboardDisplay::ResponseBody;
                            DashboardAction::Nothing
                        },
                    }
                } else if c == 'd' {
                    if !key.ctrl {
                        self.main_display = DashboardDisplay::RequestHeadersEditor;
                    }
                    DashboardAction::Nothing
                } else if c == 'e' {
                    self.floating_window = FloatingWindow::EndpointsSelector;
                    DashboardAction::OpenEndpointsSelector
                } else if c == 'p' {
                    self.floating_window = FloatingWindow::Project;
                    DashboardAction::OpenProjects
                } else if c == 'h' {
                    match d {
                        DashboardDisplay::RequestHeadersEditor => {
                            self.floating_window = FloatingWindow::EditHeaderSelector;
                            DashboardAction::OpenEditHeaderSelector
                        },
                        DashboardDisplay::ResponseBody => {
                            self.main_display = DashboardDisplay::ResponseHeaders;
                            DashboardAction::Nothing
                        },
                        _ => DashboardAction::Nothing,
                    }
                } else if c == 'm' {
                    self.floating_window = FloatingWindow::Method;
                    DashboardAction::FocusMethodSelector
                } else if c == 'a' {
                    match d {
                        DashboardDisplay::RequestHeadersEditor => {
                            self.floating_window = FloatingWindow::AddHeader;
                            DashboardAction::OpenAddHeaderWindow
                        },
                        _ => DashboardAction::Nothing,
                    }
                } else if c == 'y' {
                    match d {
                        DashboardDisplay::RequestBody => {
                            self.floating_window = FloatingWindow::BodyModeSelector;
                            DashboardAction::FocusBodyModeSelector
                        },
                        DashboardDisplay::ResponseBody => DashboardAction::YankResponse,
                        _ => DashboardAction::Nothing,
                    }
                } else {
                    DashboardAction::Nothing
                }
            },
            KeyCode::Esc => {
                if self.floating_window != FloatingWindow::NoWindow {
                    self.floating_window = FloatingWindow::NoWindow;
                } else if self.main_display != DashboardDisplay::RequestBody {
                    self.main_display = DashboardDisplay::RequestBody;
                }
                DashboardAction::FocusApp
            },
            _ => DashboardAction::Nothing,
        }
    }
}

/// Whatever the dashboard shows, whichever window floats over it and
/// whether control is held, the keys that act on the request, the project,
/// the endpoint or the application always do so and leave the view as it
/// is: `r` sends the request, `s` saves the project and `i` the endpoint
/// (both saying so), `t` and `w` start a new endpoint and a new project, `o`
/// opens the options and `q` quits. The keys that open a window always open
/// theirs: `c` the commands, `n` the endpoint name, `j` the project name, `e`
/// the endpoints, `p` the projects and `m` the method.
pub proof fn law_action_keys(d: DashboardDisplay, f: FloatingWindow, ctrl: bool)
    ensures
        key_outcome(d, f, KeyEvent { code: KeyCode::Char('r'), ctrl }) == (d, f, DashboardAction::SendRequest),
        key_outcome(d, f, KeyEvent { code: KeyCode::Char('s'), ctrl }) == (
            d,
            f,
            DashboardAction::SaveProject { show_message: true },
        ),
        key_outcome(d, f, KeyEvent { code: KeyCode::Char('i'), ctrl }) == (
            d,
            f,
            DashboardAction::SaveEndpoint { show_message: true },
        ),
        key_outcome(d, f, KeyEvent { code: KeyCode::Char('t'), ctrl }) == (d, f, DashboardAction::NewEndpoint),
        key_outcome(d, f, KeyEvent { code: KeyCode::Char('w'), ctrl }) == (d, f, DashboardAction::NewProject),
        key_outcome(d, f, KeyEvent { code: KeyCode::Char('o'), ctrl }) == (d, f, DashboardAction::OpenOptions),
        key_outcome(d, f, KeyEvent { code: KeyCode::Char('q'), ctrl }) == (d, f, DashboardAction::Quit),
        key_outcome(d, f, KeyEvent { code: KeyCode::Char('c'), ctrl }) == (
            d,
            FloatingWindow::Commands,
            DashboardAction::FocusCommandsWindow,
        ),
        key_outcome(d, f, KeyEvent { code: KeyCode::Char('n'), ctrl }) == (
            d,
            FloatingWindow::ChangeEndpointName,
            DashboardAction::OpenEditEndpointName,
        ),
        key_outcome(d, f, KeyEvent { code: KeyCode::Char('j'), ctrl }) == (
            d,
            FloatingWindow::ChangeProjectName,
            DashboardAction::OpenEditProjectName,
        ),
        key_outcome(d, f, KeyEvent { code: KeyCode::Char('e'), ctrl }) == (
            d,
            FloatingWindow::EndpointsSelector,
            DashboardAction::OpenEndpointsSelector,
        ),
        key_outcome(d, f, KeyEvent { code: KeyCode::Char('p'), ctrl }) == (
            d,
            FloatingWindow::Project,
            DashboardAction::OpenProjects,
        ),
        key_outcome(d, f, KeyEvent { code: KeyCode::Char('m'), ctrl }) == (
            d,
            FloatingWindow::Method,
            DashboardAction::FocusMethodSelector,
        ),
{
}

/// The keys whose meaning depends on what is shown: `v` saves and `y` copies
/// the response only while its body is shown, and `y` picks the body mode
/// while the request body is shown; `a` adds a header and `h` edits them only
/// in the headers editor, while on the response body `h` shows its headers
/// and `b` focuses it; `d` (without control) opens the headers editor and
/// `u` (without control) focuses the URL input from anywhere.
pub proof fn law_view_keys(d: DashboardDisplay, f: FloatingWindow, ctrl: bool)
    ensures
        key_outcome(d, f, KeyEvent { code: KeyCode::Char('v'), ctrl }).2 == (if d is ResponseBody {
            DashboardAction::SaveResponse
        } else {
            DashboardAction::Nothing
        }),
        key_outcome(d, f, KeyEvent { code: KeyCode::Char('y'), ctrl }) == (match d {
            DashboardDisplay::RequestBody => (d, FloatingWindow::BodyModeSelector, DashboardAction::FocusBodyModeSelector),
            DashboardDisplay::ResponseBody => (d, f, DashboardAction::YankResponse),
            _ => (d, f, DashboardAction::Nothing),
        }),
        key_outcome(d, f, KeyEvent { code: KeyCode::Char('a'), ctrl }) == (if d is RequestHeadersEditor {
            (d, FloatingWindow::AddHeader, DashboardAction::OpenAddHeaderWindow)
        } else {
            (d, f, DashboardAction::Nothing)
        }),
        d is RequestHeadersEditor ==> key_outcome(d, f, KeyEvent { code: KeyCode::Char('h'), ctrl }) == (
            d,
            FloatingWindow::EditHeaderSelector,
            DashboardAction::OpenEditHeaderSelector,
        ),
        d is ResponseBody ==> key_outcome(d, f, KeyEvent { code: KeyCode::Char('h'), ctrl }) == (
            DashboardDisplay::ResponseHeaders,
            f,
            DashboardAction::Nothing,
        ),
        d is ResponseBody ==> key_outcome(d, f, KeyEvent { code: KeyCode::Char('b'), ctrl }) == (
            d,
            f,
            DashboardAction::FocusResponseRenderer,
        ),
        !ctrl ==> key_outcome(d, f, KeyEvent { code: KeyCode::Char('d'), ctrl }) == (
            DashboardDisplay::RequestHeadersEditor,
            f,
            DashboardAction::Nothing,
        ),
        !ctrl ==> key_outcome(d, f, KeyEvent { code: KeyCode::Char('u'), ctrl }) == (d, f, DashboardAction::FocusUrlInput),
{
}

/// Only `r` sends the request: no other key, on any view and under any
/// window, asks for it.
pub proof fn law_only_r_sends(d: DashboardDisplay, f: FloatingWindow, key: KeyEvent)
    ensures
        key_outcome(d, f, key).2 == DashboardAction::SendRequest <==> key.code == KeyCode::Char('r'),
{
}

/// Escape closes the floating window first; with none open, it brings the
/// request body back; so two presses always reach the plain dashboard.
pub proof fn law_escape_twice_resets(d: DashboardDisplay, f: FloatingWindow, ctrl: bool)
    ensures
        ({
            let esc = KeyEvent { code: KeyCode::Esc, ctrl: ctrl };
            let (d1, f1, a1) = key_outcome(d, f, esc);
            let (d2, f2, a2) = key_outcome(d1, f1, esc);
            &&& f != FloatingWindow::NoWindow ==> d1 == d && f1 == FloatingWindow::NoWindow
            &&& d2 == DashboardDisplay::RequestBody
            &&& f2 == FloatingWindow::NoWindow
            &&& a1 == DashboardAction::FocusApp
            &&& a2 == DashboardAction::FocusApp
        }),
{
}

/// A key that asks nothing of the interface never opens or closes a window.
pub proof fn law_quiet_keys_keep_window(d: DashboardDisplay, f: FloatingWindow, key: KeyEvent)
    ensures
        key_outcome(d, f, key).2 is Nothing ==> key_outcome(d, f, key).1 == f,
{
}

/// What the interface has to do after the dashboard handled a message.
#[derive(Debug)]
pub enum MessageOutcome {
    /// Nothing more.
    Nothing,
    /// Give the focus back to the application and tell the URL input it lost
    /// focus.
    LeaveUrlInput,
    /// Run the confirmed (or declined) action.
    Confirm(crate::messages::ConfirmAction),
}

impl DashboardState {
    /// Handles a message sent to the dashboard.
    ///
    /// A text area never asks the dashboard to set its input.
    pub fn message(&mut self, message: DashboardMessages) -> (r: MessageOutcome)
        requires
            !(message matches DashboardMessages::TextArea(TextAreaMessages::SetInput(_))),
        ensures
            match message {
                DashboardMessages::Confirmations(c) => r matches MessageOutcome::Confirm(x) && x == c
                    && final(self)@ == old(self)@,
                DashboardMessages::ShowSucces((t, m)) => r is Nothing && final(self)@
                    == (DashboardView {
                    message: m@,
                    message_label: t@,
                    floating_window: FloatingWindow::Message,
                    ..old(self)@
                }),
                DashboardMessages::ShowError(m) => r is Nothing && final(self)@ == (DashboardView {
                    error_message: m@,
                    floating_window: FloatingWindow::Error,
                    ..old(self)@
                }),
                DashboardMessages::ThemeUpdate => r is Nothing && final(self)@ == old(self)@,
                DashboardMessages::TextInput(TextInputMessages::Change(v)) => r is Nothing
                    && final(self)@ == (DashboardView {
                    endpoint: EndpointView {
                        url: v@,
                        name: if old(self)@.endpoint.url == old(self)@.endpoint.name {
                            v@
                        } else {
                            old(self)@.endpoint.name
                        },
                        ..old(self)@.endpoint
                    },
                    ..old(self)@
                }),
                DashboardMessages::TextInput(TextInputMessages::Update(u)) => r is Nothing && if u.id@
                    == "endpoint_url_input"@ {
                    final(self)@ == (DashboardView {
                        endpoint: EndpointView { url: u.value@, ..old(self)@.endpoint },
                        ..old(self)@
                    })
                } else {
                    final(self)@ == old(self)@
                },
                DashboardMessages::TextInput(TextInputMessages::Escape(u)) => final(self)@ == old(
                    self,
                )@ && if u.id@ == "endpoint_url_input"@ {
                    r is LeaveUrlInput
                } else {
                    r is Nothing
                },
                DashboardMessages::TextArea(TextAreaMessages::InputChange(v)) => r is Nothing
                    && final(self)@ == (DashboardView {
                    endpoint: EndpointView { body: v@, ..old(self)@.endpoint },
                    ..old(self)@
                }),
                DashboardMessages::TextArea(TextAreaMessages::SetInput(_)) => false,
            },
    {
        match message {
            DashboardMessages::Confirmations(c) => MessageOutcome::Confirm(c),
            DashboardMessages::ShowSucces((title, msg)) => {
                self.show_message(title.as_str(), msg.as_str());
                MessageOutcome::Nothing
            },
            DashboardMessages::ShowError(msg) => {
                self.show_error(msg.as_str());
                MessageOutcome::Nothing
            },
            DashboardMessages::ThemeUpdate => MessageOutcome::Nothing,
            DashboardMessages::TextInput(TextInputMessages::Change(value)) => {
                let name_still_default = self.endpoint.url == self.endpoint.name;
                self.endpoint.url = value.clone();
                if name_still_default {
                    self.endpoint.name = value;
                }
                MessageOutcome::Nothing
            },
            DashboardMessages::TextInput(TextInputMessages::Update(update)) => {
                if str_is(update.id.as_str(), "endpoint_url_input") {
                    self.endpoint.url = update.value;
                }
                MessageOutcome::Nothing
            },
            DashboardMessages::TextInput(TextInputMessages::Escape(update)) => {
                if str_is(update.id.as_str(), "endpoint_url_input") {
                    MessageOutcome::LeaveUrlInput
                } else {
                    MessageOutcome::Nothing
                }
            },
            DashboardMessages::TextArea(TextAreaMessages::InputChange(value)) => {
                self.endpoint.body = value;
                MessageOutcome::Nothing
            },
            DashboardMessages::TextArea(TextAreaMessages::SetInput(_)) => {
                proof {
                    assert(false);
                }
                MessageOutcome::Nothing
            },
        }
    }
}

} // verus!
