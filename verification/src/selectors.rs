//! The selector windows: lists moved through with `j`/`k` and the arrows,
//! a window of rows of which one is highlighted, and a key that picks the
//! entry under the cursor. The headers selector, the project variables
//! window, the file selector and the syntax theme selector.

use vstd::prelude::*;

use crate::dashboard::AppTheme;
use crate::list_window::{
    ListCursor, WindowRow, can_move_down, can_move_up, clamped_end, clamped_window, full_window,
    full_window_ok, law_moves_keep_full_window, law_moves_keep_window, moved_down, moved_up,
    rows_spec, variable_bounds, variables_window, window_ok,
};
use crate::messages::EditHeaderSelectorMessages;
use crate::projects::{
    Header, HeaderData, HeaderState, HeaderStateView, PersistedVariable, ProjectVariable,
    ProjectVariableView, VariableData, variable_from_stored,
};
use crate::template::{replace_all, replace_text};
use crate::ui::{KeyCode, KeyEvent};

verus! {

/// The background of a row: the overlay's foreground when highlighted, its
/// background otherwise.
pub open spec fn row_color_for(highlighted: bool, t: AppTheme) -> Seq<char> {
    if highlighted {
        t.overlay_foreground@
    } else {
        t.overlay_background@
    }
}

/// The text color of a row: the overlay's background when highlighted, its
/// foreground otherwise.
pub open spec fn row_fg_color_for(highlighted: bool, t: AppTheme) -> Seq<char> {
    if highlighted {
        t.overlay_background@
    } else {
        t.overlay_foreground@
    }
}

fn colors(highlighted: bool, t: &AppTheme) -> (r: (String, String))
    ensures
        r.0@ == row_color_for(highlighted, *t),
        r.1@ == row_fg_color_for(highlighted, *t),
{
    if highlighted {
        (t.overlay_foreground.clone(), t.overlay_background.clone())
    } else {
        (t.overlay_background.clone(), t.overlay_foreground.clone())
    }
}

/// A move the list keys ask for.
pub open spec fn is_down_key(key: KeyEvent) -> bool {
    key.code == KeyCode::Char('j') || key.code == KeyCode::Down
}

/// A move the list keys ask for.
pub open spec fn is_up_key(key: KeyEvent) -> bool {
    key.code == KeyCode::Char('k') || key.code == KeyCode::Up
}

// ---------------------------------------------------------------------------
// Headers
// ---------------------------------------------------------------------------
/// The rows showing `items` at the window's rows.
pub open spec fn header_rows(items: Seq<HeaderData>, rows: Seq<WindowRow>, t: AppTheme) -> Seq<
    HeaderStateView,
> {
    rows.map_values(
        |w: WindowRow|
            HeaderStateView {
                name: items[w.index as int].name,
                value: items[w.index as int].value,
                row_color: row_color_for(w.highlighted, t),
                row_fg_color: row_fg_color_for(w.highlighted, t),
            },
    )
}

/// The rows the headers selector shows for the window `first..=last` with
/// `selected` highlighted: none for an empty list.
pub open spec fn header_window(
    items: Seq<HeaderData>,
    first: nat,
    last: nat,
    selected: nat,
    t: AppTheme,
) -> Seq<HeaderStateView> {
    if items.len() == 0 {
        Seq::empty()
    } else {
        header_rows(
            items,
            rows_spec(first as int, clamped_end(last, items.len()) as int, selected as int, first as int),
            t,
        )
    }
}

/// The headers of the open endpoint, listed to be edited or deleted.
#[derive(Debug)]
pub struct EditHeaderSelector {
    pub items_list: Vec<Header>,
}

/// The cursor, window and rows of the headers selector.
#[derive(Debug)]
pub struct EditHeaderSelectorState {
    pub list: ListCursor,
    pub window_list: Vec<HeaderState>,
    pub count: u8,
    pub app_theme: AppTheme,
}

/// What the headers selector asks of the interface after a key.
#[derive(Debug)]
pub enum HeaderSelectorAction {
    Nothing,
    /// Publish `edit_header_selector__cancel`.
    Cancel,
    /// Publish `edit_header_selector__delete` with this header.
    Delete(Header),
    /// Publish `edit_header_selector__edit` with this header.
    Edit(Header),
    /// Publish `edit_header_selector__add`.
    Add,
}

impl EditHeaderSelectorState {
    pub fn new(app_theme: AppTheme) -> (r: EditHeaderSelectorState)
        ensures
            r.list == (ListCursor { cursor: 0, first: 0, last: 4, visible_rows: 5 }),
            r.window_list@.len() == 0,
            r.count == 0,
            r.app_theme == app_theme,
    {
        EditHeaderSelectorState { list: ListCursor::initial(), window_list: Vec::new(), count: 0, app_theme }
    }
}

impl EditHeaderSelector {
    pub fn new() -> (r: EditHeaderSelector)
        ensures
            r.items_list@.len() == 0,
    {
        EditHeaderSelector { items_list: Vec::new() }
    }

    pub open spec fn items(&self) -> Seq<HeaderData> {
        self.items_list@.map_values(|h: Header| h@)
    }

    /// Shows the window `first..=last` of the headers, `selected` highlighted.
    pub fn update_list(&self, first: usize, last: usize, selected: usize, state: &mut EditHeaderSelectorState)
        requires
            self.items_list@.len() > 0 ==> first <= clamped_end(last as nat, self.items_list@.len()),
        ensures
            final(state).window_list@.map_values(|h: HeaderState| h@) == header_window(
                self.items(),
                first as nat,
                last as nat,
                selected as nat,
                old(state).app_theme,
            ),
            final(state).list == old(state).list,
            final(state).count == old(state).count,
            final(state).app_theme == old(state).app_theme,
    {
        let rows = clamped_window(first, last, selected, self.items_list.len());
        let mut out: Vec<HeaderState> = Vec::new();
        let ghost items = self.items();
        let mut k: usize = 0;
        while k < rows.len()
            invariant
                k <= rows@.len(),
                items == self.items(),
                self.items_list@.len() > 0 ==> rows@ == rows_spec(
                    first as int,
                    clamped_end(last as nat, self.items_list@.len()) as int,
                    selected as int,
                    first as int,
                ),
                self.items_list@.len() == 0 ==> rows@.len() == 0,
                self.items_list@.len() > 0 ==> first <= clamped_end(last as nat, self.items_list@.len()),
                out@.map_values(|h: HeaderState| h@) == header_rows(items, rows@.take(k as int), state.app_theme),
            decreases rows@.len() - k,
        {
            let w = rows[k];
            assert(self.items_list@.len() > 0);
            assert(rows@[k as int] == crate::list_window::row_at(
                first as int,
                k as int,
                selected as int,
                first as int,
            ));
            assert(clamped_end(last as nat, self.items_list@.len()) < self.items_list@.len());
            assert(rows@.len() == clamped_end(last as nat, self.items_list@.len()) - first + 1);
            assert(first + k <= clamped_end(last as nat, self.items_list@.len()));
            assert(w.index == first + k);
            assert(w.index < self.items_list@.len());
            let h = &self.items_list[w.index];
            let (row_color, row_fg_color) = colors(w.highlighted, &state.app_theme);
            let ghost before = out@;
            out.push(HeaderState { name: h.name.clone(), value: h.value.clone(), row_color, row_fg_color });
            assert(rows@.take(k + 1) =~= rows@.take(k as int).push(w));
            assert(out@.map_values(|x: HeaderState| x@) =~= before.map_values(|x: HeaderState| x@).push(
                header_rows(items, seq![w], state.app_theme)[0],
            ));
            assert(header_rows(items, rows@.take(k + 1), state.app_theme) =~= header_rows(
                items,
                rows@.take(k as int),
                state.app_theme,
            ).push(header_rows(items, seq![w], state.app_theme)[0]));
            k += 1;
        }
        assert(rows@.take(k as int) =~= rows@);
        state.window_list = out;
    }

    /// The endpoint's headers arrive: the cursor goes to the first, and as
    /// many rows as fit are shown.
    pub fn message(&mut self, state: &mut EditHeaderSelectorState, msg: EditHeaderSelectorMessages)
        ensures
            match msg {
                EditHeaderSelectorMessages::HeadersList(hs) => final(self).items() == hs@.map_values(
                    |h: Header| h@,
                ),
            },
            final(state).list.cursor == 0,
            final(state).list.first == 0,
            final(state).list.visible_rows == old(state).list.visible_rows,
            final(state).list.last == (if old(state).list.visible_rows <= (final(self).items_list@.len() as u8) {
                if old(state).list.visible_rows == 0 { 0 } else { (old(state).list.visible_rows - 1) as u8 }
            } else {
                if (final(self).items_list@.len() as u8) == 0 { 0 } else { ((final(self).items_list@.len() as u8) - 1) as u8 }
            }),
            window_ok(final(state).list, final(self).items_list@.len() as nat),
            final(state).window_list@.map_values(|h: HeaderState| h@) == header_window(
                final(self).items(),
                0,
                final(state).list.last as nat,
                0,
                old(state).app_theme,
            ),
            final(state).app_theme == old(state).app_theme,
    {
        match msg {
            EditHeaderSelectorMessages::HeadersList(hs) => {
                self.items_list = hs;
            },
        }
        state.list.reset_for(self.items_list.len());
        let last = state.list.last as usize;
        self.update_list(0, last, 0, state);
    }

    /// `j`/`k` and the arrows move the cursor and redraw the window; `d`
    /// and `e` pick the header under the cursor for deletion or editing
    /// (cancelling when there is none); `a` asks to add one; escape cancels.
    ///
    /// The window fits the list, and a move stays within byte arithmetic.
    pub fn on_key(&self, key: KeyEvent, state: &mut EditHeaderSelectorState) -> (r: HeaderSelectorAction)
        requires
            window_ok(old(state).list, self.items_list@.len() as nat),
            is_down_key(key) ==> can_move_down(old(state).list, self.items_list@.len() as nat),
            is_up_key(key) ==> can_move_up(old(state).list),
        ensures
            window_ok(final(state).list, self.items_list@.len() as nat),
            final(state).app_theme == old(state).app_theme,
            is_down_key(key) ==> ({
                let c = moved_down(old(state).list, self.items_list@.len() as nat);
                &&& r is Nothing
                &&& final(state).list == c
                &&& final(state).window_list@.map_values(|h: HeaderState| h@) == header_window(
                    self.items(),
                    c.first as nat,
                    c.last as nat,
                    c.cursor as nat,
                    old(state).app_theme,
                )
            }),
            is_up_key(key) ==> ({
                let c = moved_up(old(state).list);
                &&& r is Nothing
                &&& final(state).list == c
                &&& final(state).window_list@.map_values(|h: HeaderState| h@) == header_window(
                    self.items(),
                    c.first as nat,
                    c.last as nat,
                    c.cursor as nat,
                    old(state).app_theme,
                )
            }),
            !(is_down_key(key) || is_up_key(key)) ==> final(state).list == old(state).list
                && final(state).window_list@ == old(state).window_list@,
            key.code == KeyCode::Char('d') ==> if (old(state).list.cursor as int) < self.items_list@.len() {
                r matches HeaderSelectorAction::Delete(h) && h@ == self.items()[old(state).list.cursor as int]
            } else {
                r is Cancel
            },
            key.code == KeyCode::Char('e') ==> if (old(state).list.cursor as int) < self.items_list@.len() {
                r matches HeaderSelectorAction::Edit(h) && h@ == self.items()[old(state).list.cursor as int]
            } else {
                r is Cancel
            },
            key.code == KeyCode::Char('a') ==> r is Add,
            key.code == KeyCode::Esc ==> r is Cancel,
            !(is_down_key(key) || is_up_key(key) || key.code == KeyCode::Char('d') || key.code
                == KeyCode::Char('e') || key.code == KeyCode::Char('a') || key.code == KeyCode::Esc)
                ==> r is Nothing,
    {
        let len = self.items_list.len();
        let is_down = match key.code {
            KeyCode::Char(c) => c == 'j',
            KeyCode::Down => true,
            _ => false,
        };
        let is_up = match key.code {
            KeyCode::Char(c) => c == 'k',
            KeyCode::Up => true,
            _ => false,
        };
        if is_down {
            proof {
                law_moves_keep_window(state.list, len as nat);
            }
            state.list.move_down(len);
            self.update_list(state.list.first as usize, state.list.last as usize, state.list.cursor as usize, state);
            return HeaderSelectorAction::Nothing;
        }
        if is_up {
            proof {
                law_moves_keep_window(state.list, len as nat);
            }
            state.list.move_up();
            self.update_list(state.list.first as usize, state.list.last as usize, state.list.cursor as usize, state);
            return HeaderSelectorAction::Nothing;
        }
        match key.code {
            KeyCode::Char(c) => {
                if c == 'd' || c == 'e' {
                    let i = state.list.cursor as usize;
                    if i < len {
                        let h = self.items_list[i].clone();
                        if c == 'd' {
                            HeaderSelectorAction::Delete(h)
                        } else {
                            HeaderSelectorAction::Edit(h)
                        }
                    } else {
                        HeaderSelectorAction::Cancel
                    }
                } else if c == 'a' {
                    HeaderSelectorAction::Add
                } else {
                    HeaderSelectorAction::Nothing
                }
            },
            KeyCode::Esc => HeaderSelectorAction::Cancel,
            _ => HeaderSelectorAction::Nothing,
        }
    }
}

// ---------------------------------------------------------------------------
// Project variables
// ---------------------------------------------------------------------------
/// The rows showing the stored variables `items` at the window's rows.
pub open spec fn variable_rows(items: Seq<VariableData>, rows: Seq<WindowRow>, t: AppTheme) -> Seq<
    ProjectVariableView,
> {
    rows.map_values(
        |w: WindowRow|
            ProjectVariableView {
                row_color: row_color_for(w.highlighted, t),
                row_fg_color: row_fg_color_for(w.highlighted, t),
                ..variable_from_stored(items[w.index as int])
            },
    )
}

/// The rows the variables window shows for a requested window
/// `first..=last` with `selected` highlighted (see `variable_bounds`).
pub open spec fn variable_window(
    items: Seq<VariableData>,
    first: nat,
    last: nat,
    selected: nat,
    t: AppTheme,
) -> Seq<ProjectVariableView> {
    let b = variable_bounds(first, last, items.len());
    variable_rows(items, rows_spec(b.0 as int, b.1 as int, selected as int, first as int), t)
}

/// The variables of the open project, listed to be added, renamed or
/// deleted.
#[derive(Debug)]
pub struct ProjectVariables {
    pub variables_list: Vec<PersistedVariable>,
}

/// The cursor, window and rows of the variables window.
#[derive(Debug)]
pub struct ProjectVariablesState {
    pub list: ListCursor,
    pub window_list: Vec<ProjectVariable>,
    pub project_count: u8,
    /// The variable last picked with `d` or enter.
    pub selected_variable: Option<PersistedVariable>,
    pub app_theme: AppTheme,
}

/// What the variables window asks of the interface after a key.
#[derive(Debug)]
pub enum VariablesAction {
    Nothing,
    /// Publish `project_variables__cancel`.
    Cancel,
    /// Publish `open_add_variable_window`.
    AddVariable,
    /// Publish `rename_variable` with this variable.
    Rename(PersistedVariable),
}

impl ProjectVariablesState {
    pub fn new(app_theme: AppTheme) -> (r: ProjectVariablesState)
        ensures
            r.list == (ListCursor { cursor: 0, first: 0, last: 4, visible_rows: 5 }),
            r.window_list@.len() == 0,
            r.project_count == 0,
            r.selected_variable is None,
            r.app_theme == app_theme,
    {
        ProjectVariablesState {
            list: ListCursor::initial(),
            window_list: Vec::new(),
            project_count: 0,
            selected_variable: None,
            app_theme,
        }
    }
}

impl ProjectVariables {
    pub fn new() -> (r: ProjectVariables)
        ensures
            r.variables_list@.len() == 0,
    {
        ProjectVariables { variables_list: Vec::new() }
    }

    pub open spec fn items(&self) -> Seq<VariableData> {
        self.variables_list@.map_values(|v: PersistedVariable| v@)
    }

    /// Shows the window of the variables asked for; an empty list leaves the
    /// rows as they were.
    pub fn update_project_list(&self, first: usize, last: usize, selected: usize, state: &mut ProjectVariablesState)
        requires
            self.variables_list@.len() > 0 ==> variable_bounds(
                first as nat,
                last as nat,
                self.variables_list@.len(),
            ).0 <= variable_bounds(first as nat, last as nat, self.variables_list@.len()).1,
        ensures
            final(state).window_list@.map_values(|v: ProjectVariable| v@) == if self.variables_list@.len()
                == 0 {
                old(state).window_list@.map_values(|v: ProjectVariable| v@)
            } else {
                variable_window(self.items(), first as nat, last as nat, selected as nat, old(state).app_theme)
            },
            final(state).list == old(state).list,
            final(state).project_count == old(state).project_count,
            final(state).selected_variable == old(state).selected_variable,
            final(state).app_theme == old(state).app_theme,
    {
        let len = self.variables_list.len();
        if len == 0 {
            return;
        }
        let rows = variables_window(first, last, selected, len);
        let ghost b = variable_bounds(first as nat, last as nat, len as nat);
        let ghost items = self.items();
        let mut out: Vec<ProjectVariable> = Vec::new();
        let mut k: usize = 0;
        while k < rows.len()
            invariant
                k <= rows@.len(),
                len == self.variables_list@.len(),
                len > 0,
                items == self.items(),
                b == variable_bounds(first as nat, last as nat, len as nat),
                b.0 <= b.1,
                rows@ == rows_spec(b.0 as int, b.1 as int, selected as int, first as int),
                out@.map_values(|v: ProjectVariable| v@) == variable_rows(items, rows@.take(k as int), state.app_theme),
            decreases rows@.len() - k,
        {
            let w = rows[k];
            assert(rows@[k as int] == crate::list_window::row_at(
                b.0 as int,
                k as int,
                selected as int,
                first as int,
            ));
            assert(w.index == b.0 + k);
            assert(w.index < len);
            let mut v = ProjectVariable::from_persisted(&self.variables_list[w.index]);
            let (row_color, row_fg_color) = colors(w.highlighted, &state.app_theme);
            v.row_color = row_color;
            v.row_fg_color = row_fg_color;
            let ghost before = out@;
            out.push(v);
            assert(rows@.take(k + 1) =~= rows@.take(k as int).push(w));
            assert(out@.map_values(|x: ProjectVariable| x@) =~= before.map_values(|x: ProjectVariable| x@).push(
                variable_rows(items, seq![w], state.app_theme)[0],
            ));
            assert(variable_rows(items, rows@.take(k + 1), state.app_theme) =~= variable_rows(
                items,
                rows@.take(k as int),
                state.app_theme,
            ).push(variable_rows(items, seq![w], state.app_theme)[0]));
            k += 1;
        }
        assert(rows@.take(k as int) =~= rows@);
        state.window_list = out;
    }

    /// The project's variables arrive: the first five are shown from the
    /// first, whatever the cursor.
    pub fn set_list(&mut self, state: &mut ProjectVariablesState, variables: Vec<PersistedVariable>)
        ensures
            final(self).variables_list@ == variables@,
            final(state).window_list@.map_values(|v: ProjectVariable| v@) == if variables@.len() == 0 {
                old(state).window_list@.map_values(|v: ProjectVariable| v@)
            } else {
                variable_window(final(self).items(), 0, 4, 0, old(state).app_theme)
            },
            final(state).list == old(state).list,
            final(state).selected_variable == old(state).selected_variable,
            final(state).app_theme == old(state).app_theme,
    {
        self.variables_list = variables;
        self.update_project_list(0, 4, 0, state);
    }

    /// `j`/`k` and the arrows move the cursor and redraw the window; `a`
    /// asks to add a variable; `e` picks the variable under the cursor to
    /// rename; `d` and enter remember it; without one they cancel, as escape
    /// does.
    ///
    /// The window fits the list, and a move stays within byte arithmetic.
    pub fn on_key(&self, key: KeyEvent, state: &mut ProjectVariablesState) -> (r: VariablesAction)
        requires
            window_ok(old(state).list, self.variables_list@.len() as nat),
            is_down_key(key) ==> can_move_down(old(state).list, self.variables_list@.len() as nat),
            is_up_key(key) ==> can_move_up(old(state).list),
        ensures
            window_ok(final(state).list, self.variables_list@.len() as nat),
            final(state).app_theme == old(state).app_theme,
            is_down_key(key) ==> ({
                let c = moved_down(old(state).list, self.variables_list@.len() as nat);
                &&& r is Nothing
                &&& final(state).list == c
                &&& final(state).selected_variable == old(state).selected_variable
                &&& self.variables_list@.len() > 0 ==> final(state).window_list@.map_values(
                    |v: ProjectVariable| v@,
                ) == variable_window(self.items(), c.first as nat, c.last as nat, c.cursor as nat, old(state).app_theme)
                &&& self.variables_list@.len() == 0 ==> final(state).window_list@.map_values(
                    |v: ProjectVariable| v@,
                ) == old(state).window_list@.map_values(|v: ProjectVariable| v@)
            }),
            is_up_key(key) ==> ({
                let c = moved_up(old(state).list);
                &&& r is Nothing
                &&& final(state).list == c
                &&& final(state).selected_variable == old(state).selected_variable
                &&& self.variables_list@.len() > 0 ==> final(state).window_list@.map_values(
                    |v: ProjectVariable| v@,
                ) == variable_window(self.items(), c.first as nat, c.last as nat, c.cursor as nat, old(state).app_theme)
                &&& self.variables_list@.len() == 0 ==> final(state).window_list@.map_values(
                    |v: ProjectVariable| v@,
                ) == old(state).window_list@.map_values(|v: ProjectVariable| v@)
            }),
            !(is_down_key(key) || is_up_key(key)) ==> final(state).list == old(state).list
                && final(state).window_list@ == old(state).window_list@,
            key.code == KeyCode::Char('a') ==> r is AddVariable && final(state).selected_variable
                == old(state).selected_variable,
            key.code == KeyCode::Char('e') ==> final(state).selected_variable == old(state).selected_variable
                && if (old(state).list.cursor as int) < self.variables_list@.len() {
                r matches VariablesAction::Rename(v) && v@ == self.items()[old(state).list.cursor as int]
            } else {
                r is Cancel
            },
            (key.code == KeyCode::Char('d') || key.code == KeyCode::Enter) ==> if (old(state).list.cursor as int)
                < self.variables_list@.len() {
                r is Nothing && (final(state).selected_variable matches Some(v) && v@ == self.items()[old(
                    state,
                ).list.cursor as int])
            } else {
                r is Cancel && final(state).selected_variable == old(state).selected_variable
            },
            key.code == KeyCode::Esc ==> r is Cancel && final(state).selected_variable == old(
                state,
            ).selected_variable,
            !(is_down_key(key) || is_up_key(key) || key.code == KeyCode::Char('a') || key.code
                == KeyCode::Char('e') || key.code == KeyCode::Char('d') || key.code == KeyCode::Enter
                || key.code == KeyCode::Esc) ==> r is Nothing && final(state).selected_variable == old(
                state,
            ).selected_variable,
    {
        let len = self.variables_list.len();
        let is_down = match key.code {
            KeyCode::Char(c) => c == 'j',
            KeyCode::Down => true,
            _ => false,
        };
        let is_up = match key.code {
            KeyCode::Char(c) => c == 'k',
            KeyCode::Up => true,
            _ => false,
        };
        if is_down || is_up {
            proof {
                law_moves_keep_window(state.list, len as nat);
            }
            if is_down {
                state.list.move_down(len);
            } else {
                state.list.move_up();
            }
            self.update_project_list(
                state.list.first as usize,
                state.list.last as usize,
                state.list.cursor as usize,
                state,
            );
            return VariablesAction::Nothing;
        }
        let i = state.list.cursor as usize;
        match key.code {
            KeyCode::Char(c) => {
                if c == 'a' {
                    VariablesAction::AddVariable
                } else if c == 'e' {
                    if i < len {
                        VariablesAction::Rename(self.variables_list[i].clone())
                    } else {
                        VariablesAction::Cancel
                    }
                } else if c == 'd' {
                    if i < len {
                        state.selected_variable = Some(self.variables_list[i].clone());
                        VariablesAction::Nothing
                    } else {
                        VariablesAction::Cancel
                    }
                } else {
                    VariablesAction::Nothing
                }
            },
            KeyCode::Enter => {
                if i < len {
                    state.selected_variable = Some(self.variables_list[i].clone());
                    VariablesAction::Nothing
                } else {
                    VariablesAction::Cancel
                }
            },
            KeyCode::Esc => VariablesAction::Cancel,
            _ => VariablesAction::Nothing,
        }
    }
}

// ---------------------------------------------------------------------------
// Files
// ---------------------------------------------------------------------------
/// An entry of a directory, as the file selector lists it.
#[derive(Debug)]
pub struct FileEntry {
    /// What the row shows.
    pub name: String,
    pub path: String,
    pub is_file: bool,
    pub is_dir: bool,
    /// The part of the file name after its last dot, when it has one.
    pub extension: Option<String>,
}

pub struct FileEntryView {
    pub name: Seq<char>,
    pub path: Seq<char>,
    pub is_file: bool,
    pub is_dir: bool,
    pub extension: Option<Seq<char>>,
}

impl View for FileEntry {
    type V = FileEntryView;

    open spec fn view(&self) -> FileEntryView {
        FileEntryView {
            name: self.name@,
            path: self.path@,
            is_file: self.is_file,
            is_dir: self.is_dir,
            extension: crate::projects::opt_chars(self.extension),
        }
    }
}

/// A row of a selector that shows names.
#[derive(Debug)]
pub struct NameRow {
    pub name: String,
    pub row_color: String,
    pub row_fg_color: String,
}

pub struct NameRowView {
    pub name: Seq<char>,
    pub row_color: Seq<char>,
    pub row_fg_color: Seq<char>,
}

impl View for NameRow {
    type V = NameRowView;

    open spec fn view(&self) -> NameRowView {
        NameRowView { name: self.name@, row_color: self.row_color@, row_fg_color: self.row_fg_color@ }
    }
}

/// The rows showing the names of `items` at the window's rows.
pub open spec fn name_rows(items: Seq<Seq<char>>, rows: Seq<WindowRow>, t: AppTheme) -> Seq<NameRowView> {
    rows.map_values(
        |w: WindowRow|
            NameRowView {
                name: items[w.index as int],
                row_color: row_color_for(w.highlighted, t),
                row_fg_color: row_fg_color_for(w.highlighted, t),
            },
    )
}

/// The names of directory entries.
pub open spec fn entry_names(items: Seq<FileEntryView>) -> Seq<Seq<char>> {
    items.map_values(|e: FileEntryView| e.name)
}

/// The rows the file selector shows for the window `first..=last` of a
/// non-empty list, `selected` highlighted.
pub open spec fn file_window(
    items: Seq<FileEntryView>,
    first: nat,
    last: nat,
    selected: nat,
    t: AppTheme,
) -> Seq<NameRowView> {
    name_rows(
        entry_names(items),
        rows_spec(first as int, clamped_end(last, items.len()) as int, selected as int, first as int),
        t,
    )
}

/// The message shown when a file that is not JSON is picked for import.
pub open spec fn wrong_file_text() -> Seq<char> {
    "Invalid Postman file type to import, choose a .json file"@
}

/// The selector of a Postman file to import.
#[derive(Debug)]
pub struct FileSelector {
    pub items_list: Vec<FileEntry>,
}

/// The directory shown, and the cursor, window and rows of the selector.
#[derive(Debug)]
pub struct FileSelectorState {
    pub current_directory: String,
    pub list: ListCursor,
    pub window_list: Vec<NameRow>,
    pub count: u8,
    pub app_theme: AppTheme,
}

/// What the file selector asks of the interface after a key.
#[derive(Debug)]
pub enum FileSelectorAction {
    Nothing,
    /// Publish `file_selector__cancel`.
    Cancel,
    /// Read this directory and show it.
    OpenDirectory(String),
    /// Import the Postman file at this path.
    Import(String),
    /// Show this error on the dashboard.
    Error(String),
}

fn name_rows_of(names: &Vec<String>, rows: &Vec<WindowRow>, t: &AppTheme) -> (r: Vec<NameRow>)
    requires
        forall|k: int| 0 <= k < rows@.len() ==> rows@[k].index < names@.len(),
    ensures
        r@.map_values(|x: NameRow| x@) == name_rows(
            names@.map_values(|n: String| n@),
            rows@,
            *t,
        ),
{
    let ghost items = names@.map_values(|n: String| n@);
    let mut out: Vec<NameRow> = Vec::new();
    let mut k: usize = 0;
    while k < rows.len()
        invariant
            k <= rows@.len(),
            items == names@.map_values(|n: String| n@),
            forall|j: int| 0 <= j < rows@.len() ==> rows@[j].index < names@.len(),
            out@.map_values(|x: NameRow| x@) == name_rows(items, rows@.take(k as int), *t),
        decreases rows@.len() - k,
    {
        let w = rows[k];
        assert(rows@[k as int].index < names@.len());
        let (row_color, row_fg_color) = colors(w.highlighted, t);
        let ghost before = out@;
        out.push(NameRow { name: names[w.index].clone(), row_color, row_fg_color });
        assert(rows@.take(k + 1) =~= rows@.take(k as int).push(w));
        assert(out@.map_values(|x: NameRow| x@) =~= before.map_values(|x: NameRow| x@).push(
            name_rows(items, seq![w], *t)[0],
        ));
        assert(name_rows(items, rows@.take(k + 1), *t) =~= name_rows(items, rows@.take(k as int), *t).push(
            name_rows(items, seq![w], *t)[0],
        ));
        k += 1;
    }
    assert(rows@.take(k as int) =~= rows@);
    out
}

impl FileSelectorState {
    pub fn new(app_theme: AppTheme) -> (r: FileSelectorState)
        ensures
            r.current_directory@ == ""@,
            r.list == (ListCursor { cursor: 0, first: 0, last: 4, visible_rows: 5 }),
            r.window_list@.len() == 0,
            r.count == 0,
            r.app_theme == app_theme,
    {
        FileSelectorState {
            current_directory: "".to_owned(),
            list: ListCursor::initial(),
            window_list: Vec::new(),
            count: 0,
            app_theme,
        }
    }
}

impl FileSelector {
    pub fn new() -> (r: FileSelector)
        ensures
            r.items_list@.len() == 0,
    {
        FileSelector { items_list: Vec::new() }
    }

    pub open spec fn items(&self) -> Seq<FileEntryView> {
        self.items_list@.map_values(|e: FileEntry| e@)
    }

    fn names(&self) -> (r: Vec<String>)
        ensures
            r@.map_values(|n: String| n@) == entry_names(self.items()),
    {
        let mut r: Vec<String> = Vec::new();
        let mut i: usize = 0;
        while i < self.items_list.len()
            invariant
                i <= self.items_list@.len(),
                r@.len() == i,
                forall|j: int| 0 <= j < i ==> r@[j]@ == self.items_list@[j]@.name,
            decreases self.items_list@.len() - i,
        {
            r.push(self.items_list[i].name.clone());
            i += 1;
        }
        assert(r@.map_values(|n: String| n@) =~= entry_names(self.items()));
        r
    }

    /// Shows the window `first..=last` of the entries, `selected`
    /// highlighted; an empty list leaves the rows as they were.
    pub fn update_list(&self, first: usize, last: usize, selected: usize, state: &mut FileSelectorState)
        requires
            self.items_list@.len() > 0 ==> first <= clamped_end(last as nat, self.items_list@.len()),
        ensures
            final(state).window_list@.map_values(|x: NameRow| x@) == if self.items_list@.len() == 0 {
                old(state).window_list@.map_values(|x: NameRow| x@)
            } else {
                file_window(self.items(), first as nat, last as nat, selected as nat, old(state).app_theme)
            },
            final(state).list == old(state).list,
            final(state).current_directory == old(state).current_directory,
            final(state).app_theme == old(state).app_theme,
    {
        let len = self.items_list.len();
        if len == 0 {
            return;
        }
        let rows = clamped_window(first, last, selected, len);
        proof {
            assert forall|k: int| 0 <= k < rows@.len() implies rows@[k].index < len by {
                assert(rows@[k] == crate::list_window::row_at(first as int, k, selected as int, first as int));
            }
        }
        let names = self.names();
        assert(names@.map_values(|n: String| n@).len() == names@.len());
        assert(names@.len() == len);
        state.window_list = name_rows_of(&names, &rows, &state.app_theme);
    }

    /// A directory was read: it is shown with its parent first, listed as
    /// `..`, the cursor on the parent and a full window of rows.
    pub fn set_directory(
        &mut self,
        state: &mut FileSelectorState,
        directory: String,
        parent: FileEntry,
        entries: Vec<FileEntry>,
    )
        ensures
            final(state).current_directory@ == directory@,
            final(self).items() == seq![FileEntryView { name: ".."@, ..parent@ }] + entries@.map_values(
                |e: FileEntry| e@,
            ),
            final(state).list.cursor == 0,
            final(state).list.first == 0,
            final(state).list.last == (if old(state).list.visible_rows == 0 {
                0
            } else {
                (old(state).list.visible_rows - 1) as u8
            }),
            final(state).list.visible_rows == old(state).list.visible_rows,
            window_ok(final(state).list, final(self).items_list@.len() as nat),
            final(state).window_list@.map_values(|x: NameRow| x@) == file_window(
                final(self).items(),
                0,
                final(state).list.last as nat,
                0,
                old(state).app_theme,
            ),
            final(state).app_theme == old(state).app_theme,
    {
        state.current_directory = directory;
        let mut up = parent;
        up.name = "..".to_owned();
        let mut items: Vec<FileEntry> = Vec::new();
        items.push(up);
        let mut rest = entries;
        let ghost rest_view = rest@;
        items.append(&mut rest);
        assert(items@.map_values(|e: FileEntry| e@) =~= seq![FileEntryView { name: ".."@, ..parent@ }]
            + rest_view.map_values(|e: FileEntry| e@));
        self.items_list = items;
        state.list.reset_full();
        let last = state.list.last as usize;
        self.update_list(0, last, 0, state);
    }

    /// `j`/`k` and the arrows move the cursor and redraw the window; escape
    /// cancels; enter opens the directory under the cursor, or picks the file
    /// under it for import when it is a JSON file.
    ///
    /// The window fits the list, a move stays within byte arithmetic, and
    /// enter is only pressed on an entry.
    pub fn on_key(&self, key: KeyEvent, state: &mut FileSelectorState) -> (r: FileSelectorAction)
        requires
            window_ok(old(state).list, self.items_list@.len() as nat),
            is_down_key(key) ==> can_move_down(old(state).list, self.items_list@.len() as nat),
            is_up_key(key) ==> can_move_up(old(state).list),
            key.code == KeyCode::Enter ==> (old(state).list.cursor as int) < self.items_list@.len(),
        ensures
            window_ok(final(state).list, self.items_list@.len() as nat),
            final(state).app_theme == old(state).app_theme,
            final(state).current_directory == old(state).current_directory,
            is_down_key(key) ==> ({
                let c = moved_down(old(state).list, self.items_list@.len() as nat);
                &&& r is Nothing
                &&& final(state).list == c
                &&& self.items_list@.len() > 0 ==> final(state).window_list@.map_values(|x: NameRow| x@)
                    == file_window(self.items(), c.first as nat, c.last as nat, c.cursor as nat, old(state).app_theme)
                &&& self.items_list@.len() == 0 ==> final(state).window_list@.map_values(|x: NameRow| x@)
                    == old(state).window_list@.map_values(|x: NameRow| x@)
            }),
            is_up_key(key) ==> ({
                let c = moved_up(old(state).list);
                &&& r is Nothing
                &&& final(state).list == c
                &&& self.items_list@.len() > 0 ==> final(state).window_list@.map_values(|x: NameRow| x@)
                    == file_window(self.items(), c.first as nat, c.last as nat, c.cursor as nat, old(state).app_theme)
                &&& self.items_list@.len() == 0 ==> final(state).window_list@.map_values(|x: NameRow| x@)
                    == old(state).window_list@.map_values(|x: NameRow| x@)
            }),
            !(is_down_key(key) || is_up_key(key)) ==> final(state).list == old(state).list
                && final(state).window_list@ == old(state).window_list@,
            key.code == KeyCode::Esc ==> r is Cancel,
            key.code == KeyCode::Enter ==> ({
                let e = self.items()[old(state).list.cursor as int];
                if e.is_file {
                    if e.extension == Some("json"@) {
                        r matches FileSelectorAction::Import(p) && p@ == e.path
                    } else {
                        r matches FileSelectorAction::Error(m) && m@ == wrong_file_text()
                    }
                } else if e.is_dir {
                    r matches FileSelectorAction::OpenDirectory(p) && p@ == e.path
                } else {
                    r is Nothing
                }
            }),
            !(is_down_key(key) || is_up_key(key) || key.code == KeyCode::Esc || key.code
                == KeyCode::Enter) ==> r is Nothing,
    {
        let len = self.items_list.len();
        let is_down = match key.code {
            KeyCode::Char(c) => c == 'j',
            KeyCode::Down => true,
            _ => false,
        };
        let is_up = match key.code {
            KeyCode::Char(c) => c == 'k',
            KeyCode::Up => true,
            _ => false,
        };
        if is_down || is_up {
            proof {
                law_moves_keep_window(state.list, len as nat);
            }
            if is_down {
                state.list.move_down(len);
            } else {
                state.list.move_up();
            }
            self.update_list(state.list.first as usize, state.list.last as usize, state.list.cursor as usize, state);
            return FileSelectorAction::Nothing;
        }
        match key.code {
            KeyCode::Esc => FileSelectorAction::Cancel,
            KeyCode::Enter => {
                let e = &self.items_list[state.list.cursor as usize];
                if e.is_file {
                    let is_json = match &e.extension {
                        Some(x) => crate::text::str_is(x.as_str(), "json"),
                        None => false,
                    };
                    if is_json {
                        FileSelectorAction::Import(e.path.clone())
                    } else {
                        FileSelectorAction::Error(
                            "Invalid Postman file type to import, choose a .json file".to_owned(),
                        )
                    }
                } else if e.is_dir {
                    FileSelectorAction::OpenDirectory(e.path.clone())
                } else {
                    FileSelectorAction::Nothing
                }
            },
            _ => FileSelectorAction::Nothing,
        }
    }
}

// ---------------------------------------------------------------------------
// Syntax themes
// ---------------------------------------------------------------------------
/// The name a theme file is listed under: without `.tmTheme`.
pub open spec fn theme_display_name(file: Seq<char>) -> Seq<char> {
    replace_all(file, ".tmTheme"@, ""@)
}

/// The theme in use, as the selector shows it: without `themes/` and
/// `.tmTheme`.
pub open spec fn current_theme_name(path: Seq<char>) -> Seq<char> {
    replace_all(replace_all(path, "themes/"@, ""@), ".tmTheme"@, ""@)
}

/// The names the theme selector lists.
pub open spec fn theme_names(items: Seq<Seq<char>>) -> Seq<Seq<char>> {
    items.map_values(|f: Seq<char>| theme_display_name(f))
}

/// The rows of the theme selector for the window `first..=last`, `selected`
/// highlighted.
pub open spec fn theme_window(items: Seq<Seq<char>>, first: nat, last: nat, selected: nat, t: AppTheme) -> Seq<
    NameRowView,
> {
    name_rows(theme_names(items), rows_spec(first as int, last as int, selected as int, first as int), t)
}

/// The theme previewed after a redraw: the highlighted row's, or none when
/// no row is highlighted.
pub open spec fn previewed_theme(items: Seq<Seq<char>>, first: nat, last: nat, selected: nat) -> Seq<char> {
    if selected <= first {
        theme_display_name(items[first as int])
    } else if selected <= last {
        theme_display_name(items[selected as int])
    } else {
        ""@
    }
}

/// The selector of the syntax highlighting theme.
#[derive(Debug)]
pub struct SyntaxThemeSelector {
    /// The theme files.
    pub items_list: Vec<String>,
}

/// The cursor, window and rows of the theme selector, and the theme picked.
#[derive(Debug)]
pub struct SyntaxThemeSelectorState {
    pub list: ListCursor,
    pub window_list: Vec<NameRow>,
    pub count: u8,
    pub selected_item: String,
    pub app_theme: AppTheme,
}

/// What the theme selector asks of the interface after a key.
#[derive(Debug)]
pub enum ThemeSelectorAction {
    Nothing,
    /// Publish `syntax_theme_selector__cancel`.
    Cancel,
    /// Show the code sample in the named theme.
    Preview(String),
}

fn theme_name(file: &str) -> (r: String)
    ensures
        r@ == theme_display_name(file@),
{
    proof {
        reveal_strlit(".tmTheme");
    }
    replace_text(file, ".tmTheme", "")
}

impl SyntaxThemeSelectorState {
    pub fn new(app_theme: AppTheme) -> (r: SyntaxThemeSelectorState)
        ensures
            r.list == (ListCursor { cursor: 0, first: 0, last: 4, visible_rows: 5 }),
            r.window_list@.len() == 0,
            r.count == 0,
            r.selected_item@ == ""@,
            r.app_theme == app_theme,
    {
        SyntaxThemeSelectorState {
            list: ListCursor::initial(),
            window_list: Vec::new(),
            count: 0,
            selected_item: "".to_owned(),
            app_theme,
        }
    }
}

impl SyntaxThemeSelector {
    pub fn new() -> (r: SyntaxThemeSelector)
        ensures
            r.items_list@.len() == 0,
    {
        SyntaxThemeSelector { items_list: Vec::new() }
    }

    pub open spec fn items(&self) -> Seq<Seq<char>> {
        self.items_list@.map_values(|f: String| f@)
    }

    /// Shows the window `first..=last` of the themes, `selected`
    /// highlighted, and names the theme to preview.
    pub fn update_list(&self, first: usize, last: usize, selected: usize, state: &mut SyntaxThemeSelectorState) -> (r:
        String)
        requires
            first <= last < self.items_list@.len(),
        ensures
            r@ == previewed_theme(self.items(), first as nat, last as nat, selected as nat),
            final(state).window_list@.map_values(|x: NameRow| x@) == theme_window(
                self.items(),
                first as nat,
                last as nat,
                selected as nat,
                old(state).app_theme,
            ),
            final(state).list == old(state).list,
            final(state).selected_item == old(state).selected_item,
            final(state).app_theme == old(state).app_theme,
    {
        let rows = full_window(first, last, selected, self.items_list.len());
        let mut names: Vec<String> = Vec::new();
        let mut i: usize = 0;
        while i < self.items_list.len()
            invariant
                i <= self.items_list@.len(),
                names@.len() == i,
                forall|j: int| 0 <= j < i ==> names@[j]@ == theme_display_name(self.items_list@[j]@),
            decreases self.items_list@.len() - i,
        {
            names.push(theme_name(self.items_list[i].as_str()));
            i += 1;
        }
        assert(names@.map_values(|n: String| n@) =~= theme_names(self.items()));
        proof {
            assert forall|k: int| 0 <= k < rows@.len() implies rows@[k].index < names@.len() by {
                assert(rows@[k] == crate::list_window::row_at(first as int, k, selected as int, first as int));
            }
        }
        state.window_list = name_rows_of(&names, &rows, &state.app_theme);
        let visible = selected.saturating_sub(first);
        if visible <= last - first {
            names[first + visible].clone()
        } else {
            "".to_owned()
        }
    }

    /// The selector opens on the themes found, `visible_rows` rows high: the
    /// theme in use is remembered by its name, the cursor goes to the first
    /// theme, and the result is the theme to preview.
    ///
    /// At least one theme is found.
    pub fn open(
        &mut self,
        state: &mut SyntaxThemeSelectorState,
        current_theme: &str,
        themes: Vec<String>,
        visible_rows: u8,
    ) -> (r: String)
        requires
            themes@.len() > 0,
        ensures
            final(self).items_list@ == themes@,
            final(state).selected_item@ == current_theme_name(current_theme@),
            final(state).list.cursor == 0,
            final(state).list.first == 0,
            final(state).list.visible_rows == visible_rows,
            full_window_ok(final(state).list, themes@.len()),
            final(state).window_list@.map_values(|x: NameRow| x@) == theme_window(
                final(self).items(),
                0,
                final(state).list.last as nat,
                0,
                old(state).app_theme,
            ),
            r@ == previewed_theme(final(self).items(), 0, final(state).list.last as nat, 0),
            final(state).app_theme == old(state).app_theme,
    {
        proof {
            reveal_strlit("themes/");
            reveal_strlit(".tmTheme");
        }
        let without_dir = replace_text(current_theme, "themes/", "");
        state.selected_item = replace_text(without_dir.as_str(), ".tmTheme", "");
        self.items_list = themes;
        state.list.visible_rows = visible_rows;
        state.list.reset_for(self.items_list.len());
        proof {
            crate::list_window::lemma_list_last(self.items_list@.len());
        }
        let last = state.list.last as usize;
        self.update_list(0, last, 0, state)
    }

    /// `j`/`k` and the arrows move the cursor, redraw the window and preview
    /// the highlighted theme; escape cancels; enter picks the theme under
    /// the cursor, or cancels without one.
    ///
    /// The window fits the list, and a move stays within byte arithmetic.
    pub fn on_key(&self, key: KeyEvent, state: &mut SyntaxThemeSelectorState) -> (r: ThemeSelectorAction)
        requires
            full_window_ok(old(state).list, self.items_list@.len() as nat),
            is_down_key(key) ==> can_move_down(old(state).list, self.items_list@.len() as nat),
            is_up_key(key) ==> can_move_up(old(state).list),
        ensures
            full_window_ok(final(state).list, self.items_list@.len() as nat),
            final(state).app_theme == old(state).app_theme,
            is_down_key(key) ==> ({
                let c = moved_down(old(state).list, self.items_list@.len() as nat);
                &&& final(state).list == c
                &&& final(state).selected_item == old(state).selected_item
                &&& final(state).window_list@.map_values(|x: NameRow| x@) == theme_window(
                    self.items(),
                    c.first as nat,
                    c.last as nat,
                    c.cursor as nat,
                    old(state).app_theme,
                )
                &&& r matches ThemeSelectorAction::Preview(t) && t@ == previewed_theme(
                    self.items(),
                    c.first as nat,
                    c.last as nat,
                    c.cursor as nat,
                )
            }),
            is_up_key(key) ==> ({
                let c = moved_up(old(state).list);
                &&& final(state).list == c
                &&& final(state).selected_item == old(state).selected_item
                &&& final(state).window_list@.map_values(|x: NameRow| x@) == theme_window(
                    self.items(),
                    c.first as nat,
                    c.last as nat,
                    c.cursor as nat,
                    old(state).app_theme,
                )
                &&& r matches ThemeSelectorAction::Preview(t) && t@ == previewed_theme(
                    self.items(),
                    c.first as nat,
                    c.last as nat,
                    c.cursor as nat,
                )
            }),
            !(is_down_key(key) || is_up_key(key)) ==> final(state).list == old(state).list
                && final(state).window_list@ == old(state).window_list@,
            key.code == KeyCode::Esc ==> r is Cancel && final(state).selected_item == old(state).selected_item,
            key.code == KeyCode::Enter ==> if (old(state).list.cursor as int) < self.items_list@.len() {
                r is Nothing && final(state).selected_item@ == theme_display_name(
                    self.items()[old(state).list.cursor as int],
                )
            } else {
                r is Cancel && final(state).selected_item == old(state).selected_item
            },
            !(is_down_key(key) || is_up_key(key) || key.code == KeyCode::Esc || key.code
                == KeyCode::Enter) ==> r is Nothing && final(state).selected_item == old(state).selected_item,
    {
        let len = self.items_list.len();
        let is_down = match key.code {
            KeyCode::Char(c) => c == 'j',
            KeyCode::Down => true,
            _ => false,
        };
        let is_up = match key.code {
            KeyCode::Char(c) => c == 'k',
            KeyCode::Up => true,
            _ => false,
        };
        if is_down || is_up {
            proof {
                law_moves_keep_full_window(state.list, len as nat);
            }
            if is_down {
                state.list.move_down(len);
            } else {
                state.list.move_up();
            }
            let t = self.update_list(
                state.list.first as usize,
                state.list.last as usize,
                state.list.cursor as usize,
                state,
            );
            return ThemeSelectorAction::Preview(t);
        }
        match key.code {
            KeyCode::Esc => ThemeSelectorAction::Cancel,
            KeyCode::Enter => {
                let i = state.list.cursor as usize;
                if i < len {
                    state.selected_item = theme_name(self.items_list[i].as_str());
                    ThemeSelectorAction::Nothing
                } else {
                    ThemeSelectorAction::Cancel
                }
            },
            _ => ThemeSelectorAction::Nothing,
        }
    }
}

} // verus!
