//! Projects, their endpoints, headers and variables: the form in which they
//! are stored (`Persisted*`) and the form in which the dashboard edits them,
//! the conversions between the two, and the edits that renaming and deleting
//! make.

use vstd::prelude::*;

verus! {

pub const DEFAULT_ROW_COLOR: &'static str = "#333333";

pub const SELECTED_ROW_COLOR: &'static str = "#FFFFFF";

pub const DEFAULT_PROJECT_NAME: &'static str = "Unnamed";

pub const DEFAULT_ENDPOINT_NAME: &'static str = "Unnamed";

/// The characters of an optional string.
pub open spec fn opt_chars(o: Option<String>) -> Option<Seq<char>> {
    match o {
        Some(s) => Some(s@),
        None => None,
    }
}

/// `o`'s characters, or none when `o` is absent.
pub open spec fn chars_or_empty(o: Option<Seq<char>>) -> Seq<char> {
    match o {
        Some(s) => s,
        None => Seq::empty(),
    }
}

/// `o`, or `false` when it is absent.
pub open spec fn bool_or_false(o: Option<bool>) -> bool {
    match o {
        Some(b) => b,
        None => false,
    }
}

pub fn clone_opt_string(o: &Option<String>) -> (r: Option<String>)
    ensures
        opt_chars(r) == opt_chars(*o),
{
    match o {
        Some(s) => Some(s.clone()),
        None => None,
    }
}

fn opt_string_eq(a: &Option<String>, b: &Option<String>) -> (r: bool)
    ensures
        r == (opt_chars(*a) == opt_chars(*b)),
{
    match (a, b) {
        (Some(x), Some(y)) => *x == *y,
        (None, None) => true,
        _ => false,
    }
}

fn owned(s: &str) -> (r: String)
    ensures
        r@ == s@,
{
    s.to_owned()
}

/// The kind of value a stored variable holds.
#[derive(Clone, Copy, Debug, PartialEq, Eq, Structural)]
pub enum VariableType {
    String,
    Boolean,
    Any,
    Number,
}

impl VariableType {
    /// The kind a variable has when none is given.
    pub fn default_type() -> (r: VariableType)
        ensures
            r == VariableType::String,
    {
        VariableType::String
    }
}

/// The kind of value a variable of an open project holds.
#[derive(Clone, Copy, Debug, PartialEq, Eq, Structural)]
pub enum ProjectVariableType {
    String,
    Boolean,
    Any,
    Number,
}

/// The same kind, as stored.
pub open spec fn stored_type(t: ProjectVariableType) -> VariableType {
    match t {
        ProjectVariableType::String => VariableType::String,
        ProjectVariableType::Boolean => VariableType::Boolean,
        ProjectVariableType::Any => VariableType::Any,
        ProjectVariableType::Number => VariableType::Number,
    }
}

/// The same kind, as an open project holds it.
pub open spec fn open_type(t: VariableType) -> ProjectVariableType {
    match t {
        VariableType::String => ProjectVariableType::String,
        VariableType::Boolean => ProjectVariableType::Boolean,
        VariableType::Any => ProjectVariableType::Any,
        VariableType::Number => ProjectVariableType::Number,
    }
}

pub fn to_stored_type(t: ProjectVariableType) -> (r: VariableType)
    ensures
        r == stored_type(t),
{
    match t {
        ProjectVariableType::String => VariableType::String,
        ProjectVariableType::Boolean => VariableType::Boolean,
        ProjectVariableType::Any => VariableType::Any,
        ProjectVariableType::Number => VariableType::Number,
    }
}

pub fn to_open_type(t: VariableType) -> (r: ProjectVariableType)
    ensures
        r == open_type(t),
{
    match t {
        VariableType::String => ProjectVariableType::String,
        VariableType::Boolean => ProjectVariableType::Boolean,
        VariableType::Any => ProjectVariableType::Any,
        VariableType::Number => ProjectVariableType::Number,
    }
}

// ---------------------------------------------------------------------------
// Stored forms
// ---------------------------------------------------------------------------
/// A stored request header.
#[derive(Debug)]
pub struct Header {
    pub name: String,
    pub value: String,
}

/// A header, as characters.
pub struct HeaderData {
    pub name: Seq<char>,
    pub value: Seq<char>,
}

impl View for Header {
    type V = HeaderData;

    open spec fn view(&self) -> HeaderData {
        HeaderData { name: self.name@, value: self.value@ }
    }
}

impl Clone for Header {
    fn clone(&self) -> (r: Header)
        ensures
            r@ == self@,
    {
        Header { name: self.name.clone(), value: self.value.clone() }
    }
}

impl Header {
    /// Whether two headers have the same name and value.
    pub fn same_as(&self, other: &Header) -> (r: bool)
        ensures
            r == (self@ == other@),
    {
        self.name == other.name && self.value == other.value
    }
}

/// A stored project variable; every field may be missing from the file.
#[derive(Debug)]
pub struct PersistedVariable {
    pub id: Option<String>,
    pub key: Option<String>,
    pub value: Option<String>,
    pub private: Option<String>,
    pub var_type: Option<VariableType>,
    pub name: Option<String>,
    pub system: Option<bool>,
    pub disabled: Option<bool>,
}

/// A stored variable, as characters.
pub struct VariableData {
    pub id: Option<Seq<char>>,
    pub key: Option<Seq<char>>,
    pub value: Option<Seq<char>>,
    pub private: Option<Seq<char>>,
    pub var_type: Option<VariableType>,
    pub name: Option<Seq<char>>,
    pub system: Option<bool>,
    pub disabled: Option<bool>,
}

impl View for PersistedVariable {
    type V = VariableData;

    open spec fn view(&self) -> VariableData {
        VariableData {
            id: opt_chars(self.id),
            key: opt_chars(self.key),
            value: opt_chars(self.value),
            private: opt_chars(self.private),
            var_type: self.var_type,
            name: opt_chars(self.name),
            system: self.system,
            disabled: self.disabled,
        }
    }
}

impl Clone for PersistedVariable {
    fn clone(&self) -> (r: PersistedVariable)
        ensures
            r@ == self@,
    {
        PersistedVariable {
            id: clone_opt_string(&self.id),
            key: clone_opt_string(&self.key),
            value: clone_opt_string(&self.value),
            private: clone_opt_string(&self.private),
            var_type: self.var_type,
            name: clone_opt_string(&self.name),
            system: self.system,
            disabled: self.disabled,
        }
    }
}

impl PersistedVariable {
    /// Whether two stored variables hold the same fields.
    pub fn same_as(&self, other: &PersistedVariable) -> (r: bool)
        ensures
            r == (self@ == other@),
    {
        opt_string_eq(&self.id, &other.id) && opt_string_eq(&self.key, &other.key)
            && opt_string_eq(&self.value, &other.value) && opt_string_eq(
            &self.private,
            &other.private,
        ) && self.var_type == other.var_type && opt_string_eq(&self.name, &other.name)
            && self.system == other.system && self.disabled == other.disabled
    }
}

/// A stored endpoint.
#[derive(Debug)]
pub struct PersistedEndpoint {
    pub name: String,
    pub url: String,
    pub method: String,
    pub headers: Vec<Header>,
    pub body: String,
    pub body_mode: String,
    pub raw_type: String,
}

/// A stored endpoint, as characters.
pub struct EndpointData {
    pub name: Seq<char>,
    pub url: Seq<char>,
    pub method: Seq<char>,
    pub headers: Seq<HeaderData>,
    pub body: Seq<char>,
    pub body_mode: Seq<char>,
    pub raw_type: Seq<char>,
}

impl View for PersistedEndpoint {
    type V = EndpointData;

    open spec fn view(&self) -> EndpointData {
        EndpointData {
            name: self.name@,
            url: self.url@,
            method: self.method@,
            headers: self.headers@.map_values(|h: Header| h@),
            body: self.body@,
            body_mode: self.body_mode@,
            raw_type: self.raw_type@,
        }
    }
}

pub fn clone_headers(headers: &Vec<Header>) -> (r: Vec<Header>)
    ensures
        r@.map_values(|h: Header| h@) == headers@.map_values(|h: Header| h@),
{
    let mut r: Vec<Header> = Vec::new();
    let mut i: usize = 0;
    while i < headers.len()
        invariant
            i <= headers@.len(),
            r@.len() == i,
            forall|j: int| 0 <= j < i ==> r@[j]@ == headers@[j]@,
        decreases headers@.len() - i,
    {
        r.push(headers[i].clone());
        i += 1;
    }
    assert(r@.map_values(|x: Header| x@) =~= headers@.map_values(|x: Header| x@));
    r
}

fn headers_same(a: &Vec<Header>, b: &Vec<Header>) -> (r: bool)
    ensures
        r == (a@.map_values(|h: Header| h@) == b@.map_values(|h: Header| h@)),
{
    if a.len() != b.len() {
        assert(a@.map_values(|h: Header| h@).len() != b@.map_values(|h: Header| h@).len());
        return false;
    }
    let mut i: usize = 0;
    while i < a.len()
        invariant
            a@.len() == b@.len(),
            i <= a@.len(),
            forall|j: int| 0 <= j < i ==> a@[j]@ == b@[j]@,
        decreases a@.len() - i,
    {
        if !a[i].same_as(&b[i]) {
            assert(a@.map_values(|h: Header| h@)[i as int] != b@.map_values(|h: Header| h@)[i as int]);
            return false;
        }
        i += 1;
    }
    assert(a@.map_values(|h: Header| h@) =~= b@.map_values(|h: Header| h@));
    true
}

impl Clone for PersistedEndpoint {
    fn clone(&self) -> (r: PersistedEndpoint)
        ensures
            r@ == self@,
    {
        PersistedEndpoint {
            name: self.name.clone(),
            url: self.url.clone(),
            method: self.method.clone(),
            headers: clone_headers(&self.headers),
            body: self.body.clone(),
            body_mode: self.body_mode.clone(),
            raw_type: self.raw_type.clone(),
        }
    }
}

impl PersistedEndpoint {
    /// Whether two stored endpoints hold the same fields.
    pub fn same_as(&self, other: &PersistedEndpoint) -> (r: bool)
        ensures
            r == (self@ == other@),
    {
        self.name == other.name && self.url == other.url && self.method == other.method
            && headers_same(&self.headers, &other.headers) && self.body == other.body
            && self.body_mode == other.body_mode && self.raw_type == other.raw_type
    }
}

/// A stored project.
#[derive(Debug)]
pub struct PersistedProject {
    pub name: String,
    pub endpoints: Vec<PersistedEndpoint>,
    pub variable: Vec<PersistedVariable>,
}

/// A stored project, as characters.
pub struct ProjectData {
    pub name: Seq<char>,
    pub endpoints: Seq<EndpointData>,
    pub variable: Seq<VariableData>,
}

impl View for PersistedProject {
    type V = ProjectData;

    open spec fn view(&self) -> ProjectData {
        ProjectData {
            name: self.name@,
            endpoints: self.endpoints@.map_values(|e: PersistedEndpoint| e@),
            variable: self.variable@.map_values(|v: PersistedVariable| v@),
        }
    }
}

pub fn clone_endpoints(es: &Vec<PersistedEndpoint>) -> (r: Vec<PersistedEndpoint>)
    ensures
        r@.map_values(|e: PersistedEndpoint| e@) == es@.map_values(|e: PersistedEndpoint| e@),
{
    let mut r: Vec<PersistedEndpoint> = Vec::new();
    let mut i: usize = 0;
    while i < es.len()
        invariant
            i <= es@.len(),
            r@.len() == i,
            forall|j: int| 0 <= j < i ==> r@[j]@ == es@[j]@,
        decreases es@.len() - i,
    {
        r.push(es[i].clone());
        i += 1;
    }
    assert(r@.map_values(|x: PersistedEndpoint| x@) =~= es@.map_values(|x: PersistedEndpoint| x@));
    r
}

pub fn clone_variables(vs: &Vec<PersistedVariable>) -> (r: Vec<PersistedVariable>)
    ensures
        r@.map_values(|v: PersistedVariable| v@) == vs@.map_values(|v: PersistedVariable| v@),
{
    let mut r: Vec<PersistedVariable> = Vec::new();
    let mut i: usize = 0;
    while i < vs.len()
        invariant
            i <= vs@.len(),
            r@.len() == i,
            forall|j: int| 0 <= j < i ==> r@[j]@ == vs@[j]@,
        decreases vs@.len() - i,
    {
        r.push(vs[i].clone());
        i += 1;
    }
    assert(r@.map_values(|x: PersistedVariable| x@) =~= vs@.map_values(|x: PersistedVariable| x@));
    r
}

impl Clone for PersistedProject {
    fn clone(&self) -> (r: PersistedProject)
        ensures
            r@ == self@,
    {
        PersistedProject {
            name: self.name.clone(),
            endpoints: clone_endpoints(&self.endpoints),
            variable: clone_variables(&self.variable),
        }
    }
}

// ---------------------------------------------------------------------------
// Open forms, as the dashboard edits them
// ---------------------------------------------------------------------------
/// A header of the open endpoint, with the colors of its row.
#[derive(Debug)]
pub struct HeaderState {
    pub name: String,
    pub value: String,
    pub row_color: String,
    pub row_fg_color: String,
}

pub struct HeaderStateView {
    pub name: Seq<char>,
    pub value: Seq<char>,
    pub row_color: Seq<char>,
    pub row_fg_color: Seq<char>,
}

impl View for HeaderState {
    type V = HeaderStateView;

    open spec fn view(&self) -> HeaderStateView {
        HeaderStateView {
            name: self.name@,
            value: self.value@,
            row_color: self.row_color@,
            row_fg_color: self.row_fg_color@,
        }
    }
}

/// The stored form of an open header.
pub open spec fn stored_header(h: HeaderStateView) -> HeaderData {
    HeaderData { name: h.name, value: h.value }
}

/// An open header made from a stored one: its row has no colors.
pub open spec fn opened_header(h: HeaderData) -> HeaderStateView {
    HeaderStateView { name: h.name, value: h.value, row_color: ""@, row_fg_color: ""@ }
}

impl Header {
    pub fn from_state(h: &HeaderState) -> (r: Header)
        ensures
            r@ == stored_header(h@),
    {
        Header { name: h.name.clone(), value: h.value.clone() }
    }
}

impl HeaderState {
    pub fn from_header(h: &Header) -> (r: HeaderState)
        ensures
            r@ == opened_header(h@),
    {
        HeaderState {
            name: h.name.clone(),
            value: h.value.clone(),
            row_color: owned(""),
            row_fg_color: owned(""),
        }
    }

    /// A copy of the name and value, on a row without colors.
    pub fn clone(&self) -> (r: HeaderState)
        ensures
            r@ == opened_header(stored_header(self@)),
    {
        HeaderState {
            name: self.name.clone(),
            value: self.value.clone(),
            row_color: owned(""),
            row_fg_color: owned(""),
        }
    }
}

/// The headers a new endpoint starts with.
pub open spec fn default_headers_view() -> Seq<HeaderStateView> {
    seq![
        opened_header(HeaderData { name: "user-agent"@, value: "tome-tui"@ }),
        opened_header(HeaderData { name: "content-type"@, value: "application/json"@ }),
    ]
}

pub fn get_default_headers() -> (r: Vec<HeaderState>)
    ensures
        r@.map_values(|h: HeaderState| h@) == default_headers_view(),
{
    let mut r: Vec<HeaderState> = Vec::new();
    r.push(
        HeaderState {
            name: owned("user-agent"),
            value: owned("tome-tui"),
            row_color: owned(""),
            row_fg_color: owned(""),
        },
    );
    r.push(
        HeaderState {
            name: owned("content-type"),
            value: owned("application/json"),
            row_color: owned(""),
            row_fg_color: owned(""),
        },
    );
    assert(r@.map_values(|h: HeaderState| h@) =~= default_headers_view());
    r
}

fn headers_to_stored(hs: &Vec<HeaderState>) -> (r: Vec<Header>)
    ensures
        r@.map_values(|h: Header| h@) == hs@.map_values(|h: HeaderState| stored_header(h@)),
{
    let mut r: Vec<Header> = Vec::new();
    let mut i: usize = 0;
    while i < hs.len()
        invariant
            i <= hs@.len(),
            r@.len() == i,
            forall|j: int| 0 <= j < i ==> r@[j]@ == stored_header(hs@[j]@),
        decreases hs@.len() - i,
    {
        r.push(Header::from_state(&hs[i]));
        i += 1;
    }
    assert(r@.map_values(|h: Header| h@) =~= hs@.map_values(|h: HeaderState| stored_header(h@)));
    r
}

fn headers_to_open(hs: &Vec<Header>) -> (r: Vec<HeaderState>)
    ensures
        r@.map_values(|h: HeaderState| h@) == hs@.map_values(|h: Header| opened_header(h@)),
{
    let mut r: Vec<HeaderState> = Vec::new();
    let mut i: usize = 0;
    while i < hs.len()
        invariant
            i <= hs@.len(),
            r@.len() == i,
            forall|j: int| 0 <= j < i ==> r@[j]@ == opened_header(hs@[j]@),
        decreases hs@.len() - i,
    {
        r.push(HeaderState::from_header(&hs[i]));
        i += 1;
    }
    assert(r@.map_values(|h: HeaderState| h@) =~= hs@.map_values(|h: Header| opened_header(h@)));
    r
}

fn headers_recolored(hs: &Vec<HeaderState>) -> (r: Vec<HeaderState>)
    ensures
        r@.map_values(|h: HeaderState| h@) == hs@.map_values(
            |h: HeaderState| opened_header(stored_header(h@)),
        ),
{
    let mut r: Vec<HeaderState> = Vec::new();
    let mut i: usize = 0;
    while i < hs.len()
        invariant
            i <= hs@.len(),
            r@.len() == i,
            forall|j: int| 0 <= j < i ==> r@[j]@ == opened_header(stored_header(hs@[j]@)),
        decreases hs@.len() - i,
    {
        r.push(hs[i].clone());
        i += 1;
    }
    assert(r@.map_values(|h: HeaderState| h@) =~= hs@.map_values(
        |h: HeaderState| opened_header(stored_header(h@)),
    ));
    r
}

/// The endpoint open in the dashboard.
#[derive(Debug)]
pub struct Endpoint {
    pub name: String,
    pub url: String,
    pub method: String,
    pub headers: Vec<HeaderState>,
    pub body: String,
    pub row_color: String,
    pub row_fg_color: String,
    pub body_mode: String,
    pub raw_type: String,
}

pub struct EndpointView {
    pub name: Seq<char>,
    pub url: Seq<char>,
    pub method: Seq<char>,
    pub headers: Seq<HeaderStateView>,
    pub body: Seq<char>,
    pub row_color: Seq<char>,
    pub row_fg_color: Seq<char>,
    pub body_mode: Seq<char>,
    pub raw_type: Seq<char>,
}

impl View for Endpoint {
    type V = EndpointView;

    open spec fn view(&self) -> EndpointView {
        EndpointView {
            name: self.name@,
            url: self.url@,
            method: self.method@,
            headers: self.headers@.map_values(|h: HeaderState| h@),
            body: self.body@,
            row_color: self.row_color@,
            row_fg_color: self.row_fg_color@,
            body_mode: self.body_mode@,
            raw_type: self.raw_type@,
        }
    }
}

/// The endpoint a dashboard starts with.
pub open spec fn new_endpoint_view() -> EndpointView {
    EndpointView {
        name: DEFAULT_ENDPOINT_NAME@,
        url: ""@,
        method: "GET"@,
        headers: default_headers_view(),
        body: ""@,
        row_color: DEFAULT_ROW_COLOR@,
        row_fg_color: DEFAULT_ROW_COLOR@,
        body_mode: "raw"@,
        raw_type: "text"@,
    }
}

/// The stored form of an open endpoint.
pub open spec fn stored_endpoint(e: EndpointView) -> EndpointData {
    EndpointData {
        name: e.name,
        url: e.url,
        method: e.method,
        headers: e.headers.map_values(|h: HeaderStateView| stored_header(h)),
        body: e.body,
        body_mode: e.body_mode,
        raw_type: e.raw_type,
    }
}

/// An open endpoint made from a stored one, on a row of the default color.
pub open spec fn opened_endpoint(e: EndpointData) -> EndpointView {
    EndpointView {
        name: e.name,
        url: e.url,
        method: e.method,
        headers: e.headers.map_values(|h: HeaderData| opened_header(h)),
        body: e.body,
        row_color: DEFAULT_ROW_COLOR@,
        row_fg_color: DEFAULT_ROW_COLOR@,
        body_mode: e.body_mode,
        raw_type: e.raw_type,
    }
}

impl Endpoint {
    pub fn new() -> (r: Endpoint)
        ensures
            r@ == new_endpoint_view(),
    {
        Endpoint {
            name: owned(DEFAULT_ENDPOINT_NAME),
            url: owned(""),
            method: owned("GET"),
            body: owned(""),
            body_mode: owned("raw"),
            raw_type: owned("text"),
            headers: get_default_headers(),
            row_color: owned(DEFAULT_ROW_COLOR),
            row_fg_color: owned(DEFAULT_ROW_COLOR),
        }
    }

    /// A copy of the endpoint on a row of the default color; its headers'
    /// rows lose their colors.
    pub fn clone(&self) -> (r: Endpoint)
        ensures
            r@ == opened_endpoint(stored_endpoint(self@)),
    {
        let r = Endpoint {
            name: self.name.clone(),
            url: self.url.clone(),
            method: self.method.clone(),
            body: self.body.clone(),
            body_mode: self.body_mode.clone(),
            raw_type: self.raw_type.clone(),
            row_color: owned(DEFAULT_ROW_COLOR),
            row_fg_color: owned(DEFAULT_ROW_COLOR),
            headers: headers_recolored(&self.headers),
        };
        assert(r@.headers =~= opened_endpoint(stored_endpoint(self@)).headers);
        r
    }

    pub fn from_persisted(e: &PersistedEndpoint) -> (r: Endpoint)
        ensures
            r@ == opened_endpoint(e@),
    {
        let r = Endpoint {
            name: e.name.clone(),
            body: e.body.clone(),
            body_mode: e.body_mode.clone(),
            raw_type: e.raw_type.clone(),
            url: e.url.clone(),
            method: e.method.clone(),
            row_color: owned(DEFAULT_ROW_COLOR),
            row_fg_color: owned(DEFAULT_ROW_COLOR),
            headers: headers_to_open(&e.headers),
        };
        assert(r@.headers =~= opened_endpoint(e@).headers);
        r
    }
}

impl PersistedEndpoint {
    pub fn from_endpoint(e: &Endpoint) -> (r: PersistedEndpoint)
        ensures
            r@ == stored_endpoint(e@),
    {
        let r = PersistedEndpoint {
            name: e.name.clone(),
            url: e.url.clone(),
            method: e.method.clone(),
            body: e.body.clone(),
            body_mode: e.body_mode.clone(),
            raw_type: e.raw_type.clone(),
            headers: headers_to_stored(&e.headers),
        };
        assert(r@.headers =~= stored_endpoint(e@).headers);
        r
    }
}

/// A variable of the open project.
#[derive(Debug)]
pub struct ProjectVariable {
    pub id: String,
    pub key: String,
    pub value: String,
    pub var_type: ProjectVariableType,
    pub name: String,
    pub system: bool,
    pub disabled: bool,
    pub private: String,
    pub row_fg_color: String,
    pub row_color: String,
}

pub struct ProjectVariableView {
    pub id: Seq<char>,
    pub key: Seq<char>,
    pub value: Seq<char>,
    pub var_type: ProjectVariableType,
    pub name: Seq<char>,
    pub system: bool,
    pub disabled: bool,
    pub private: Seq<char>,
    pub row_fg_color: Seq<char>,
    pub row_color: Seq<char>,
}

impl View for ProjectVariable {
    type V = ProjectVariableView;

    open spec fn view(&self) -> ProjectVariableView {
        ProjectVariableView {
            id: self.id@,
            key: self.key@,
            value: self.value@,
            var_type: self.var_type,
            name: self.name@,
            system: self.system,
            disabled: self.disabled,
            private: self.private@,
            row_fg_color: self.row_fg_color@,
            row_color: self.row_color@,
        }
    }
}

/// The stored form of an open variable: every field is present.
pub open spec fn stored_variable(v: ProjectVariableView) -> VariableData {
    VariableData {
        id: Some(v.id),
        key: Some(v.key),
        value: Some(v.value),
        private: Some(v.private),
        var_type: Some(stored_type(v.var_type)),
        name: Some(v.name),
        system: Some(v.system),
        disabled: Some(v.disabled),
    }
}

/// A variable converted on its own from its stored form: missing text is
/// empty, a missing kind is `String`, a missing flag is `false`, and its row
/// has the default color.
pub open spec fn variable_from_stored(v: VariableData) -> ProjectVariableView {
    ProjectVariableView {
        id: chars_or_empty(v.id),
        key: chars_or_empty(v.key),
        value: chars_or_empty(v.value),
        var_type: match v.var_type {
            Some(t) => open_type(t),
            None => ProjectVariableType::String,
        },
        name: chars_or_empty(v.name),
        system: bool_or_false(v.system),
        disabled: bool_or_false(v.disabled),
        private: chars_or_empty(v.private),
        row_fg_color: DEFAULT_ROW_COLOR@,
        row_color: DEFAULT_ROW_COLOR@,
    }
}

/// A variable as a project being opened holds it: missing text is empty, a
/// missing kind is `Any`, a missing flag is `false`, and its row has no
/// colors.
pub open spec fn opened_variable(v: VariableData) -> ProjectVariableView {
    ProjectVariableView {
        id: chars_or_empty(v.id),
        key: chars_or_empty(v.key),
        value: chars_or_empty(v.value),
        var_type: match v.var_type {
            Some(t) => open_type(t),
            None => ProjectVariableType::Any,
        },
        name: chars_or_empty(v.name),
        system: bool_or_false(v.system),
        disabled: bool_or_false(v.disabled),
        private: chars_or_empty(v.private),
        row_fg_color: ""@,
        row_color: ""@,
    }
}

fn string_or_empty(o: &Option<String>) -> (r: String)
    ensures
        r@ == chars_or_empty(opt_chars(*o)),
{
    match o {
        Some(s) => s.clone(),
        None => String::new(),
    }
}

fn bool_or_default(o: Option<bool>) -> (r: bool)
    ensures
        r == bool_or_false(o),
{
    match o {
        Some(b) => b,
        None => false,
    }
}

impl PersistedVariable {
    pub fn from_variable(v: &ProjectVariable) -> (r: PersistedVariable)
        ensures
            r@ == stored_variable(v@),
    {
        PersistedVariable {
            id: Some(v.id.clone()),
            key: Some(v.key.clone()),
            value: Some(v.value.clone()),
            private: Some(v.private.clone()),
            var_type: Some(to_stored_type(v.var_type)),
            name: Some(v.name.clone()),
            system: Some(v.system),
            disabled: Some(v.disabled),
        }
    }
}

impl ProjectVariable {
    pub fn from_persisted(v: &PersistedVariable) -> (r: ProjectVariable)
        ensures
            r@ == variable_from_stored(v@),
    {
        ProjectVariable {
            id: string_or_empty(&v.id),
            key: string_or_empty(&v.key),
            value: string_or_empty(&v.value),
            var_type: match v.var_type {
                Some(t) => to_open_type(t),
                None => to_open_type(VariableType::default_type()),
            },
            name: string_or_empty(&v.name),
            system: bool_or_default(v.system),
            disabled: bool_or_default(v.disabled),
            private: string_or_empty(&v.private),
            row_color: owned(DEFAULT_ROW_COLOR),
            row_fg_color: owned(DEFAULT_ROW_COLOR),
        }
    }

    fn opened(v: &PersistedVariable) -> (r: ProjectVariable)
        ensures
            r@ == opened_variable(v@),
    {
        ProjectVariable {
            id: string_or_empty(&v.id),
            key: string_or_empty(&v.key),
            value: string_or_empty(&v.value),
            var_type: match v.var_type {
                Some(t) => to_open_type(t),
                None => ProjectVariableType::Any,
            },
            name: string_or_empty(&v.name),
            system: bool_or_default(v.system),
            disabled: bool_or_default(v.disabled),
            private: string_or_empty(&v.private),
            row_color: owned(""),
            row_fg_color: owned(""),
        }
    }
}

/// The project open in the dashboard.
#[derive(Debug)]
pub struct Project {
    pub name: String,
    pub endpoints: Vec<Endpoint>,
    pub row_color: String,
    pub row_fg_color: String,
    pub variable: Vec<ProjectVariable>,
}

pub struct ProjectView {
    pub name: Seq<char>,
    pub endpoints: Seq<EndpointView>,
    pub row_color: Seq<char>,
    pub row_fg_color: Seq<char>,
    pub variable: Seq<ProjectVariableView>,
}

impl View for Project {
    type V = ProjectView;

    open spec fn view(&self) -> ProjectView {
        ProjectView {
            name: self.name@,
            endpoints: self.endpoints@.map_values(|e: Endpoint| e@),
            row_color: self.row_color@,
            row_fg_color: self.row_fg_color@,
            variable: self.variable@.map_values(|v: ProjectVariable| v@),
        }
    }
}

/// The project a dashboard starts with.
pub open spec fn new_project_view() -> ProjectView {
    ProjectView {
        name: DEFAULT_PROJECT_NAME@,
        endpoints: Seq::empty(),
        row_color: DEFAULT_ROW_COLOR@,
        row_fg_color: DEFAULT_ROW_COLOR@,
        variable: Seq::empty(),
    }
}

/// The stored form of an open project.
pub open spec fn stored_project(p: ProjectView) -> ProjectData {
    ProjectData {
        name: p.name,
        endpoints: p.endpoints.map_values(|e: EndpointView| stored_endpoint(e)),
        variable: p.variable.map_values(|v: ProjectVariableView| stored_variable(v)),
    }
}

/// An open project made from a stored one.
pub open spec fn opened_project(p: ProjectData) -> ProjectView {
    ProjectView {
        name: p.name,
        endpoints: p.endpoints.map_values(|e: EndpointData| opened_endpoint(e)),
        row_color: DEFAULT_ROW_COLOR@,
        row_fg_color: DEFAULT_ROW_COLOR@,
        variable: p.variable.map_values(|v: VariableData| opened_variable(v)),
    }
}

impl Project {
    pub fn new() -> (r: Project)
        ensures
            r@ == new_project_view(),
    {
        let r = Project {
            name: owned(DEFAULT_PROJECT_NAME),
            row_color: owned(DEFAULT_ROW_COLOR),
            row_fg_color: owned(DEFAULT_ROW_COLOR),
            endpoints: Vec::new(),
            variable: Vec::new(),
        };
        assert(r@.endpoints =~= Seq::<EndpointView>::empty());
        assert(r@.variable =~= Seq::<ProjectVariableView>::empty());
        r
    }

    pub fn from_persisted(p: &PersistedProject) -> (r: Project)
        ensures
            r@ == opened_project(p@),
    {
        let mut endpoints: Vec<Endpoint> = Vec::new();
        let mut i: usize = 0;
        while i < p.endpoints.len()
            invariant
                i <= p.endpoints@.len(),
                endpoints@.len() == i,
                forall|j: int| 0 <= j < i ==> endpoints@[j]@ == opened_endpoint(p.endpoints@[j]@),
            decreases p.endpoints@.len() - i,
        {
            endpoints.push(Endpoint::from_persisted(&p.endpoints[i]));
            i += 1;
        }
        let mut variable: Vec<ProjectVariable> = Vec::new();
        let mut k: usize = 0;
        while k < p.variable.len()
            invariant
                k <= p.variable@.len(),
                variable@.len() == k,
                forall|j: int| 0 <= j < k ==> variable@[j]@ == opened_variable(p.variable@[j]@),
            decreases p.variable@.len() - k,
        {
            variable.push(ProjectVariable::opened(&p.variable[k]));
            k += 1;
        }
        let r = Project {
            name: p.name.clone(),
            row_color: owned(DEFAULT_ROW_COLOR),
            row_fg_color: owned(DEFAULT_ROW_COLOR),
            endpoints,
            variable,
        };
        assert(r@.endpoints =~= opened_project(p@).endpoints);
        assert(r@.variable =~= opened_project(p@).variable);
        r
    }
}

impl PersistedProject {
    pub fn from_project(p: &Project) -> (r: PersistedProject)
        ensures
            r@ == stored_project(p@),
    {
        let mut endpoints: Vec<PersistedEndpoint> = Vec::new();
        let mut i: usize = 0;
        while i < p.endpoints.len()
            invariant
                i <= p.endpoints@.len(),
                endpoints@.len() == i,
                forall|j: int| 0 <= j < i ==> endpoints@[j]@ == stored_endpoint(p.endpoints@[j]@),
            decreases p.endpoints@.len() - i,
        {
            endpoints.push(PersistedEndpoint::from_endpoint(&p.endpoints[i]));
            i += 1;
        }
        let mut variable: Vec<PersistedVariable> = Vec::new();
        let mut k: usize = 0;
        while k < p.variable.len()
            invariant
                k <= p.variable@.len(),
                variable@.len() == k,
                forall|j: int| 0 <= j < k ==> variable@[j]@ == stored_variable(p.variable@[j]@),
            decreases p.variable@.len() - k,
        {
            variable.push(PersistedVariable::from_variable(&p.variable[k]));
            k += 1;
        }
        let r = PersistedProject { name: p.name.clone(), endpoints, variable };
        assert(r@.endpoints =~= stored_project(p@).endpoints);
        assert(r@.variable =~= stored_project(p@).variable);
        r
    }
}

// ---------------------------------------------------------------------------
// Edits of stored projects
// ---------------------------------------------------------------------------
/// Why a project could not be saved or changed on disk.
#[derive(Debug)]
pub enum ProjectError {
    /// The project's name is empty once trimmed.
    MissingName,
    /// The project could not be turned into text.
    Unserializable,
    /// The directory of the projects could not be reached.
    DirectoryUnavailable,
    /// The file system refused an operation; the text describes why.
    Io(String),
}

impl ProjectError {
    /// The text of the message shown for this error.
    pub open spec fn message_text(&self) -> Seq<char> {
        match self {
            ProjectError::MissingName => "Project must have name"@,
            ProjectError::Unserializable => "Unable to serialize project"@,
            ProjectError::DirectoryUnavailable => "Unable to access projects directory"@,
            ProjectError::Io(m) => m@,
        }
    }

    /// The message shown for this error.
    pub fn message(&self) -> (r: String)
        ensures
            r@ == self.message_text(),
    {
        match self {
            ProjectError::MissingName => owned("Project must have name"),
            ProjectError::Unserializable => owned("Unable to serialize project"),
            ProjectError::DirectoryUnavailable => owned("Unable to access projects directory"),
            ProjectError::Io(m) => m.clone(),
        }
    }
}

/// A project can be saved when its name is not blank.
pub open spec fn has_saveable_name(p: ProjectData) -> bool {
    crate::text::spec_trim(p.name).len() != 0
}

/// Checks the one rule a project must meet to be saved: a name that is not
/// blank.
pub fn check_project_name(project: &PersistedProject) -> (r: Result<(), ProjectError>)
    ensures
        r is Ok <==> has_saveable_name(project@),
        r matches Err(e) ==> e is MissingName,
{
    if crate::text::trim(project.name.as_str()).is_empty() {
        Err(ProjectError::MissingName)
    } else {
        Ok(())
    }
}

/// The name of the file a project is saved in.
pub fn project_file_name(name: &str) -> (r: String)
    ensures
        r@ == name@ + ".project"@,
{
    crate::text::concat(name, ".project")
}

/// `e` under another name.
pub open spec fn with_name(e: EndpointData, name: Seq<char>) -> EndpointData {
    EndpointData {
        name: name,
        url: e.url,
        method: e.method,
        headers: e.headers,
        body: e.body,
        body_mode: e.body_mode,
        raw_type: e.raw_type,
    }
}

/// The project after the endpoint `e` is renamed `new_name`: the endpoints
/// named as `e` leave, and `e` under its new name comes last.
pub open spec fn endpoint_renamed(p: ProjectData, e: EndpointData, new_name: Seq<char>) -> ProjectData {
    ProjectData {
        name: p.name,
        endpoints: p.endpoints.filter(|x: EndpointData| x.name != e.name).push(
            with_name(e, new_name),
        ),
        variable: p.variable,
    }
}

/// The project after every endpoint equal to `e` is removed.
pub open spec fn endpoint_deleted(p: ProjectData, e: EndpointData) -> ProjectData {
    ProjectData {
        name: p.name,
        endpoints: p.endpoints.filter(|x: EndpointData| x != e),
        variable: p.variable,
    }
}

/// The project under another name.
pub open spec fn project_renamed(p: ProjectData, new_name: Seq<char>) -> ProjectData {
    ProjectData { name: new_name, endpoints: p.endpoints, variable: p.variable }
}

/// The edit that renaming an endpoint makes to the project that holds it.
pub fn rename_endpoint(
    project: &PersistedProject,
    endpoint: &PersistedEndpoint,
    new_name: &str,
) -> (r: PersistedProject)
    ensures
        r@ == endpoint_renamed(project@, endpoint@, new_name@),
{
    let ghost pred = |x: EndpointData| x.name != endpoint@.name;
    let ghost all = project@.endpoints;
    let mut endpoints: Vec<PersistedEndpoint> = Vec::new();
    let mut i: usize = 0;
    while i < project.endpoints.len()
        invariant
            i <= project.endpoints@.len(),
            all == project@.endpoints,
            pred == (|x: EndpointData| x.name != endpoint@.name),
            endpoints@.map_values(|e: PersistedEndpoint| e@) == all.take(i as int).filter(pred),
        decreases project.endpoints@.len() - i,
    {
        proof {
            reveal(Seq::filter);
            assert(all.take(i + 1).drop_last() =~= all.take(i as int));
        }
        let ghost before = endpoints@;
        if project.endpoints[i].name != endpoint.name {
            endpoints.push(project.endpoints[i].clone());
            assert(endpoints@.map_values(|e: PersistedEndpoint| e@) =~= before.map_values(
                |e: PersistedEndpoint| e@,
            ).push(all[i as int]));
        }
        i += 1;
    }
    assert(all.take(i as int) =~= all);
    let mut renamed = endpoint.clone();
    renamed.name = owned(new_name);
    let ghost kept = endpoints@;
    endpoints.push(renamed);
    let r = PersistedProject {
        name: project.name.clone(),
        endpoints,
        variable: clone_variables(&project.variable),
    };
    assert(r@.endpoints =~= kept.map_values(|e: PersistedEndpoint| e@).push(
        with_name(endpoint@, new_name@),
    ));
    r
}

/// The edit that renaming a project makes to it.
pub fn rename_project(project: &PersistedProject, new_name: &str) -> (r: PersistedProject)
    ensures
        r@ == project_renamed(project@, new_name@),
{
    PersistedProject {
        name: owned(new_name),
        endpoints: clone_endpoints(&project.endpoints),
        variable: clone_variables(&project.variable),
    }
}

/// Removes from the project every endpoint equal to `endpoint`.
pub fn delete_endpoint(project: &mut PersistedProject, endpoint: &PersistedEndpoint)
    ensures
        final(project)@ == endpoint_deleted(old(project)@, endpoint@),
{
    let ghost pred = |x: EndpointData| x != endpoint@;
    let ghost all = project@.endpoints;
    let mut endpoints: Vec<PersistedEndpoint> = Vec::new();
    let mut i: usize = 0;
    while i < project.endpoints.len()
        invariant
            i <= project.endpoints@.len(),
            all == project@.endpoints,
            pred == (|x: EndpointData| x != endpoint@),
            endpoints@.map_values(|e: PersistedEndpoint| e@) == all.take(i as int).filter(pred),
        decreases project.endpoints@.len() - i,
    {
        proof {
            reveal(Seq::filter);
            assert(all.take(i + 1).drop_last() =~= all.take(i as int));
        }
        let ghost before = endpoints@;
        if !project.endpoints[i].same_as(endpoint) {
            endpoints.push(project.endpoints[i].clone());
            assert(endpoints@.map_values(|e: PersistedEndpoint| e@) =~= before.map_values(
                |e: PersistedEndpoint| e@,
            ).push(all[i as int]));
        }
        i += 1;
    }
    assert(all.take(i as int) =~= all);
    project.endpoints = endpoints;
}

// ---------------------------------------------------------------------------
// Laws
// ---------------------------------------------------------------------------
/// A stored variable has every field present.
pub open spec fn variable_complete(v: VariableData) -> bool {
    &&& v.id is Some
    &&& v.key is Some
    &&& v.value is Some
    &&& v.private is Some
    &&& v.var_type is Some
    &&& v.name is Some
    &&& v.system is Some
    &&& v.disabled is Some
}

/// Saving an endpoint that was just opened from storage writes back exactly
/// what was read.
pub proof fn law_endpoint_round_trip(e: EndpointData)
    ensures
        stored_endpoint(opened_endpoint(e)) == e,
{
    assert(stored_endpoint(opened_endpoint(e)).headers =~= e.headers);
}

/// A stored project whose variables carry every field is saved back, once
/// opened, exactly as it was read.
pub proof fn law_project_round_trip(p: ProjectData)
    requires
        forall|i: int| 0 <= i < p.variable.len() ==> variable_complete(#[trigger] p.variable[i]),
    ensures
        stored_project(opened_project(p)) == p,
{
    let q = stored_project(opened_project(p));
    assert forall|i: int| 0 <= i < p.endpoints.len() implies q.endpoints[i] == p.endpoints[i] by {
        law_endpoint_round_trip(p.endpoints[i]);
    }
    assert(q.endpoints =~= p.endpoints);
    assert forall|i: int| 0 <= i < p.variable.len() implies q.variable[i] == p.variable[i] by {
        let v = p.variable[i];
        assert(variable_complete(v));
        match v.var_type {
            Some(t) => {
                assert(stored_type(open_type(t)) == t);
            },
            None => {},
        }
    }
    assert(q.variable =~= p.variable);
}

/// Saving an open project, opening what was saved and saving that again
/// writes the same data as the first save.
pub proof fn law_project_save_stable(p: ProjectView)
    ensures
        stored_project(opened_project(stored_project(p))) == stored_project(p),
{
    let s = stored_project(p);
    assert forall|i: int| 0 <= i < s.variable.len() implies variable_complete(
        #[trigger] s.variable[i],
    ) by {}
    law_project_round_trip(s);
}

/// After an endpoint is renamed, the renamed endpoint comes last under its
/// new name, and no other endpoint keeps the old name.
pub proof fn law_rename_endpoint_moves_last(p: ProjectData, e: EndpointData, new_name: Seq<char>)
    ensures
        ({
            let r = endpoint_renamed(p, e, new_name);
            &&& r.endpoints.last() == with_name(e, new_name)
            &&& forall|i: int| 0 <= i < r.endpoints.len() - 1 ==> r.endpoints[i].name != e.name
            &&& r.endpoints.len() <= p.endpoints.len() + 1
        }),
{
    let pred = |x: EndpointData| x.name != e.name;
    let kept = p.endpoints.filter(pred);
    assert forall|i: int| 0 <= i < kept.len() implies kept[i].name != e.name by {
        p.endpoints.lemma_filter_pred(pred, i);
    }
    p.endpoints.lemma_filter_len(pred);
}

/// After an endpoint is deleted, no endpoint equal to it remains, and every
/// endpoint that differs from it is still there.
pub proof fn law_delete_endpoint_removes_only_it(p: ProjectData, e: EndpointData)
    ensures
        ({
            let r = endpoint_deleted(p, e);
            &&& forall|i: int| 0 <= i < r.endpoints.len() ==> r.endpoints[i] != e
            &&& forall|i: int|
                0 <= i < p.endpoints.len() && p.endpoints[i] != e ==> r.endpoints.contains(
                    p.endpoints[i],
                )
        }),
{
    let pred = |x: EndpointData| x != e;
    let kept = p.endpoints.filter(pred);
    assert forall|i: int| 0 <= i < kept.len() implies kept[i] != e by {
        p.endpoints.lemma_filter_pred(pred, i);
    }
    assert forall|i: int| 0 <= i < p.endpoints.len() && p.endpoints[i] != e implies kept.contains(
        p.endpoints[i],
    ) by {
        p.endpoints.lemma_filter_contains(pred, i);
    }
}

} // verus!
