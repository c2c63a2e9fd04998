//! The keyboard state machine that drives the whole application.
//!
//! One keystroke at a time is interpreted against the current input mode
//! (normal or one of four text-entry modes) and the active panel, mutating
//! the project list and the selection. Every transition is specified by
//! [`step_spec`], a pure function from the old state, the key and the
//! current time to the new state and the effect the caller owes: nothing,
//! persist, or persist and quit.

use vstd::prelude::*;
use crate::model::{Project, ProjectV, Todo, TodoV, AppData, project_views, todo_views,
    lemma_project_views_push, lemma_project_views_update, lemma_project_views_remove};
use crate::selection::{SelectionState, cycled, reindexed, cycle_index, reindex_after_delete};
use crate::text::{push_char, pop_char};

verus! {

/// Which of the two list panels has the focus.
#[derive(Clone, Copy, Debug, PartialEq, Eq, Structural)]
pub enum Panel {
    Projects,
    Todos,
}

/// The input mode: keys either act on the lists directly or edit the
/// transient text buffer.
#[derive(Clone, Copy, Debug, PartialEq, Eq, Structural)]
pub enum InputMode {
    Normal,
    AddingProject,
    AddingTodo,
    RenamingProject,
    RenamingTodo,
}

/// A keystroke, reduced to what the state machine distinguishes.
#[derive(Clone, Copy, Debug)]
pub enum Key {
    Char(char),
    Tab,
    Enter,
    Backspace,
    Esc,
    Down,
    Up,
    Other,
}

/// What the caller owes after a step: nothing, persisting the data, or
/// persisting it and ending the session.
#[derive(Clone, Copy, Debug, PartialEq, Eq, Structural)]
pub enum Effect {
    Nothing,
    Save,
    Quit,
}

/// The whole interactive state: the data, the two cursors, the focused
/// panel, the input mode and the text buffer.
pub struct AppState {
    pub projects: Vec<Project>,
    pub selection: SelectionState,
    pub active_panel: Panel,
    pub input_mode: InputMode,
    pub input: String,
}

/// The mathematical value of an [`AppState`].
#[verifier::ext_equal]
pub struct AppV {
    pub projects: Seq<ProjectV>,
    pub selection: SelectionState,
    pub active_panel: Panel,
    pub input_mode: InputMode,
    pub input: Seq<char>,
}

impl View for AppState {
    type V = AppV;

    open spec fn view(&self) -> AppV {
        AppV {
            projects: project_views(self.projects@),
            selection: self.selection,
            active_panel: self.active_panel,
            input_mode: self.input_mode,
            input: self.input@,
        }
    }
}

impl AppV {
    /// The number of to-dos the project cursor `sel` would point into.
    pub open spec fn todos_len_at(self, sel: Option<usize>) -> nat {
        match sel {
            Some(p) => if p < self.projects.len() {
                self.projects[p as int].todos.len()
            } else {
                0
            },
            None => 0,
        }
    }

    /// The to-do list of the currently selected project, empty when none
    /// is selected.
    pub open spec fn cur_todos(self) -> Seq<TodoV> {
        match self.selection.selected_project {
            Some(p) => if p < self.projects.len() {
                self.projects[p as int].todos
            } else {
                Seq::<TodoV>::empty()
            },
            None => Seq::<TodoV>::empty(),
        }
    }

    pub open spec fn cur_todos_len(self) -> nat {
        self.todos_len_at(self.selection.selected_project)
    }

    /// The selection invariant: each cursor is `None` exactly when its
    /// list is empty and otherwise within bounds.
    pub open spec fn sel_inv(self) -> bool {
        &&& (self.selection.selected_project is None <==> self.projects.len() == 0)
        &&& (match self.selection.selected_project {
            Some(p) => p < self.projects.len(),
            None => true,
        })
        &&& (self.selection.selected_todo is None <==> self.cur_todos_len() == 0)
        &&& (match self.selection.selected_todo {
            Some(t) => t < self.cur_todos_len(),
            None => true,
        })
    }

    /// The text buffer is live only outside the normal mode.
    pub open spec fn buffer_inv(self) -> bool {
        self.input_mode is Normal ==> self.input.len() == 0
    }

    pub open spec fn inv(self) -> bool {
        self.sel_inv() && self.buffer_inv()
    }

    /// Every list is short enough to index with `usize`, with `k` slots of
    /// headroom. The view of a machine state always has `headroom(0)`,
    /// since its lists live in memory; a step can grow each list by at
    /// most one item.
    pub open spec fn headroom(self, k: nat) -> bool {
        &&& self.projects.len() + k <= usize::MAX
        &&& forall|i: int|
            0 <= i < self.projects.len() ==> (#[trigger] self.projects[i]).todos.len() + k
                <= usize::MAX
    }

    /// `now` can safely close the selected item's session, if one is
    /// selected; no other item is ever stopped by a single step.
    pub open spec fn clock_ok(self, now: u64) -> bool {
        match (self.selection.selected_project, self.selection.selected_todo) {
            (Some(p), Some(t)) => p < self.projects.len() && t
                < self.projects[p as int].todos.len()
                ==> self.projects[p as int].todos[t as int].clock_ok(now),
            _ => true,
        }
    }
}

/// Both cursors point at an existing to-do.
pub open spec fn valid_todo_selection(s: AppV) -> bool {
    match (s.selection.selected_project, s.selection.selected_todo) {
        (Some(p), Some(t)) => p < s.projects.len() && t < s.projects[p as int].todos.len(),
        _ => false,
    }
}

/// The state with the selected to-do replaced by `todo`.
pub open spec fn with_selected_todo(s: AppV, todo: TodoV) -> AppV {
    let p = s.selection.selected_project.unwrap() as int;
    let t = s.selection.selected_todo.unwrap() as int;
    AppV {
        projects: s.projects.update(
            p,
            ProjectV { todos: s.projects[p].todos.update(t, todo), ..s.projects[p] },
        ),
        ..s
    }
}

/// The selected to-do, meaningful only under [`valid_todo_selection`].
pub open spec fn selected_todo_of(s: AppV) -> TodoV {
    let p = s.selection.selected_project.unwrap() as int;
    let t = s.selection.selected_todo.unwrap() as int;
    s.projects[p].todos[t]
}

/// The state machine starts on the projects panel in normal mode, with the
/// first project and its first to-do selected where they exist.
pub open spec fn init_view(projects: Seq<ProjectV>) -> AppV {
    AppV {
        projects: projects,
        selection: SelectionState {
            selected_project: if projects.len() > 0 {
                Some(0usize)
            } else {
                None
            },
            selected_todo: if projects.len() > 0 && projects[0].todos.len() > 0 {
                Some(0usize)
            } else {
                None
            },
        },
        active_panel: Panel::Projects,
        input_mode: InputMode::Normal,
        input: Seq::<char>::empty(),
    }
}

/// Switching panels: the panel that gains the focus gets a default cursor
/// at 0 when it had none and its list is not empty.
pub open spec fn panel_toggled(s: AppV) -> AppV {
    match s.active_panel {
        Panel::Projects => AppV {
            active_panel: Panel::Todos,
            selection: SelectionState {
                selected_project: s.selection.selected_project,
                selected_todo: if s.selection.selected_todo is None && s.cur_todos_len() > 0 {
                    Some(0usize)
                } else {
                    s.selection.selected_todo
                },
            },
            ..s
        },
        Panel::Todos => AppV {
            active_panel: Panel::Projects,
            selection: SelectionState {
                selected_project: if s.selection.selected_project is None && s.projects.len()
                    > 0 {
                    Some(0usize)
                } else {
                    s.selection.selected_project
                },
                selected_todo: s.selection.selected_todo,
            },
            ..s
        },
    }
}

/// Cursor movement in the focused panel, wrapping cyclically. A project
/// change re-anchors the to-do cursor at 0, or clears it when the new
/// project has no to-dos.
pub open spec fn moved(s: AppV, down: bool) -> AppV {
    match s.active_panel {
        Panel::Projects => {
            if s.projects.len() == 0 {
                s
            } else {
                let np = cycled(s.selection.selected_project, s.projects.len(), down);
                let nt = if s.todos_len_at(np) > 0 {
                    Some(0usize)
                } else {
                    None
                };
                AppV { selection: SelectionState { selected_project: np, selected_todo: nt }, ..s }
            }
        },
        Panel::Todos => {
            let n = s.cur_todos_len();
            if n == 0 {
                s
            } else {
                AppV {
                    selection: SelectionState {
                        selected_project: s.selection.selected_project,
                        selected_todo: cycled(s.selection.selected_todo, n, down),
                    },
                    ..s
                }
            }
        },
    }
}

/// The completion key: on the to-dos panel with a valid selection, the
/// selected item's completion flag flips (stopping an open session first)
/// and the change is persisted.
pub open spec fn completion_step(s: AppV, now: u64) -> (AppV, Effect) {
    if s.active_panel is Todos && valid_todo_selection(s) {
        (with_selected_todo(s, selected_todo_of(s).completion_toggled(now)), Effect::Save)
    } else {
        (s, Effect::Nothing)
    }
}

/// Toggling the selected to-do's timer, independent of the focused panel;
/// the flag tells whether a valid selection existed.
pub open spec fn timer_toggled(s: AppV, now: u64) -> (AppV, bool) {
    if valid_todo_selection(s) {
        (with_selected_todo(s, selected_todo_of(s).toggled(now)), true)
    } else {
        (s, false)
    }
}

/// The timer key: only the to-dos panel reacts, and only a valid selection
/// is persisted.
pub open spec fn timer_step(s: AppV, now: u64) -> (AppV, Effect) {
    if s.active_panel is Todos {
        let r = timer_toggled(s, now);
        (r.0, if r.1 {
            Effect::Save
        } else {
            Effect::Nothing
        })
    } else {
        (s, Effect::Nothing)
    }
}

/// The add key: enter the matching text-entry mode with a cleared buffer.
pub open spec fn add_begun(s: AppV) -> AppV {
    AppV {
        input_mode: match s.active_panel {
            Panel::Projects => InputMode::AddingProject,
            Panel::Todos => InputMode::AddingTodo,
        },
        input: Seq::<char>::empty(),
        ..s
    }
}

/// The rename key: enter the matching rename mode with the buffer seeded
/// by the current name or title; a missing selection makes it a no-op.
pub open spec fn rename_begun(s: AppV) -> AppV {
    match s.active_panel {
        Panel::Projects => match s.selection.selected_project {
            Some(p) => if p < s.projects.len() {
                AppV {
                    input_mode: InputMode::RenamingProject,
                    input: s.projects[p as int].name,
                    ..s
                }
            } else {
                s
            },
            None => s,
        },
        Panel::Todos => if valid_todo_selection(s) {
            AppV { input_mode: InputMode::RenamingTodo, input: selected_todo_of(s).title, ..s }
        } else {
            s
        },
    }
}

/// The delete key: remove the selected project (cascading its to-dos) or
/// the selected to-do, re-anchor the cursor, and persist. After a project
/// deletion the to-do cursor restarts at 0 in the project that inherits
/// the selection, or clears when it has none.
pub open spec fn deleted(s: AppV) -> (AppV, Effect) {
    match s.active_panel {
        Panel::Projects => match s.selection.selected_project {
            Some(p) => if p < s.projects.len() {
                let projects2 = s.projects.remove(p as int);
                let np = reindexed(p, projects2.len());
                let s2 = AppV {
                    projects: projects2,
                    selection: SelectionState { selected_project: np, selected_todo: None },
                    ..s
                };
                let nt = if s2.cur_todos_len() > 0 {
                    Some(0usize)
                } else {
                    None
                };
                (
                    AppV {
                        selection: SelectionState { selected_project: np, selected_todo: nt },
                        ..s2
                    },
                    Effect::Save,
                )
            } else {
                (s, Effect::Nothing)
            },
            None => (s, Effect::Nothing),
        },
        Panel::Todos => if valid_todo_selection(s) {
            let p = s.selection.selected_project.unwrap() as int;
            let t = s.selection.selected_todo.unwrap();
            let proj2 = ProjectV {
                todos: s.projects[p].todos.remove(t as int),
                ..s.projects[p]
            };
            (
                AppV {
                    projects: s.projects.update(p, proj2),
                    selection: SelectionState {
                        selected_project: s.selection.selected_project,
                        selected_todo: reindexed(t, proj2.todos.len()),
                    },
                    ..s
                },
                Effect::Save,
            )
        } else {
            (s, Effect::Nothing)
        },
    }
}

/// One keystroke in normal mode.
pub open spec fn normal_step(s: AppV, key: Key, now: u64) -> (AppV, Effect) {
    match key {
        Key::Tab => (panel_toggled(s), Effect::Nothing),
        Key::Down => (moved(s, true), Effect::Nothing),
        Key::Up => (moved(s, false), Effect::Nothing),
        Key::Char(c) => {
            if c == 'q' {
                (s, Effect::Quit)
            } else if c == 's' {
                (s, Effect::Save)
            } else if c == 'j' {
                (moved(s, true), Effect::Nothing)
            } else if c == 'k' {
                (moved(s, false), Effect::Nothing)
            } else if c == ' ' {
                completion_step(s, now)
            } else if c == 'a' {
                (add_begun(s), Effect::Nothing)
            } else if c == 't' {
                timer_step(s, now)
            } else if c == 'r' {
                (rename_begun(s), Effect::Nothing)
            } else if c == 'd' {
                deleted(s)
            } else {
                (s, Effect::Nothing)
            }
        },
        _ => (s, Effect::Nothing),
    }
}

/// Leaving a text-entry mode: the buffer is dropped and the mode returns
/// to normal.
pub open spec fn entry_left(s: AppV) -> AppV {
    AppV { input: Seq::<char>::empty(), input_mode: InputMode::Normal, ..s }
}

/// The enter key in a text-entry mode: a non-empty buffer commits (create
/// and auto-select, or overwrite the selected name or title) and persists;
/// an empty buffer commits nothing. Either way the buffer clears and the
/// mode returns to normal.
pub open spec fn committed(s: AppV) -> (AppV, Effect) {
    if s.input.len() == 0 {
        (entry_left(s), Effect::Nothing)
    } else {
        match s.input_mode {
            InputMode::AddingProject => (
                entry_left(
                    AppV {
                        projects: s.projects.push(
                            ProjectV { name: s.input, todos: Seq::<TodoV>::empty() },
                        ),
                        selection: SelectionState {
                            selected_project: Some(s.projects.len() as usize),
                            selected_todo: None,
                        },
                        ..s
                    },
                ),
                Effect::Save,
            ),
            InputMode::AddingTodo => match s.selection.selected_project {
                Some(p) => if p < s.projects.len() {
                    let proj2 = ProjectV {
                        todos: s.projects[p as int].todos.push(TodoV::fresh(s.input)),
                        ..s.projects[p as int]
                    };
                    (
                        entry_left(
                            AppV {
                                projects: s.projects.update(p as int, proj2),
                                selection: SelectionState {
                                    selected_project: Some(p),
                                    selected_todo: Some((proj2.todos.len() - 1) as usize),
                                },
                                ..s
                            },
                        ),
                        Effect::Save,
                    )
                } else {
                    (entry_left(s), Effect::Nothing)
                },
                None => (entry_left(s), Effect::Nothing),
            },
            InputMode::RenamingProject => match s.selection.selected_project {
                Some(p) => if p < s.projects.len() {
                    (
                        entry_left(
                            AppV {
                                projects: s.projects.update(
                                    p as int,
                                    ProjectV { name: s.input, ..s.projects[p as int] },
                                ),
                                ..s
                            },
                        ),
                        Effect::Save,
                    )
                } else {
                    (entry_left(s), Effect::Nothing)
                },
                None => (entry_left(s), Effect::Nothing),
            },
            InputMode::RenamingTodo => if valid_todo_selection(s) {
                let todo2 = TodoV { title: s.input, ..selected_todo_of(s) };
                (entry_left(with_selected_todo(s, todo2)), Effect::Save)
            } else {
                (entry_left(s), Effect::Nothing)
            },
            InputMode::Normal => (s, Effect::Nothing),
        }
    }
}

/// One keystroke in any text-entry mode: printable characters append to
/// the buffer, backspace removes its last character, escape discards it,
/// enter commits.
pub open spec fn entry_step(s: AppV, key: Key) -> (AppV, Effect) {
    match key {
        Key::Char(c) => (AppV { input: s.input.push(c), ..s }, Effect::Nothing),
        Key::Backspace => (
            AppV {
                input: if s.input.len() == 0 {
                    s.input
                } else {
                    s.input.drop_last()
                },
                ..s
            },
            Effect::Nothing,
        ),
        Key::Esc => (entry_left(s), Effect::Nothing),
        Key::Enter => committed(s),
        _ => (s, Effect::Nothing),
    }
}

/// The full transition relation: one keystroke at instant `now`.
pub open spec fn step_spec(s: AppV, key: Key, now: u64) -> (AppV, Effect) {
    match s.input_mode {
        InputMode::Normal => normal_step(s, key, now),
        _ => entry_step(s, key),
    }
}

impl AppState {
    /// Starts the session on `data`; see [`init_view`].
    pub fn new(data: AppData) -> (app: AppState)
        ensures
            app@ == init_view(data@),
            app@.inv(),
    {
        let has_projects = data.projects.len() > 0;
        let first_has_todos = if data.projects.len() > 0 {
            data.projects[0].todos.len() > 0
        } else {
            false
        };
        let app = AppState {
            projects: data.projects,
            selection: SelectionState {
                selected_project: if has_projects {
                    Some(0)
                } else {
                    None
                },
                selected_todo: if first_has_todos {
                    Some(0)
                } else {
                    None
                },
            },
            active_panel: Panel::Projects,
            input_mode: InputMode::Normal,
            input: String::new(),
        };
        proof {
            assert(app@ =~= init_view(data@));
        }
        app
    }

    /// The number of to-dos in the currently selected project.
    fn current_todos_len(&self) -> (n: usize)
        ensures
            n == self@.cur_todos_len(),
    {
        match self.selection.selected_project {
            Some(p) => {
                if p < self.projects.len() {
                    self.projects[p].todos.len()
                } else {
                    0
                }
            },
            None => 0,
        }
    }

    /// The selected project, if the cursor points at one.
    pub fn get_current_project(&self) -> (r: Option<&Project>)
        ensures
            r is Some <==> (self@.selection.selected_project matches Some(p) && p
                < self@.projects.len()),
            r matches Some(pr) ==> (self@.selection.selected_project matches Some(p) && pr@
                == self@.projects[p as int]),
    {
        match self.selection.selected_project {
            Some(p) => {
                if p < self.projects.len() {
                    Some(&self.projects[p])
                } else {
                    None
                }
            },
            None => None,
        }
    }

    /// The selected project's to-do list, if a project is selected.
    pub fn get_current_todos(&self) -> (r: Option<&Vec<Todo>>)
        ensures
            r is Some <==> (self@.selection.selected_project matches Some(p) && p
                < self@.projects.len()),
            r matches Some(v) ==> todo_views(v@) == self@.cur_todos(),
    {
        match self.selection.selected_project {
            Some(p) => {
                if p < self.projects.len() {
                    Some(&self.projects[p].todos)
                } else {
                    None
                }
            },
            None => None,
        }
    }

    /// The selected to-do, if both cursors point at one.
    pub fn get_current_todo(&self) -> (r: Option<&Todo>)
        ensures
            r is Some <==> valid_todo_selection(self@),
            r matches Some(td) ==> td@ == selected_todo_of(self@),
    {
        match (self.selection.selected_project, self.selection.selected_todo) {
            (Some(p), Some(t)) => {
                if p < self.projects.len() {
                    if t < self.projects[p].todos.len() {
                        Some(&self.projects[p].todos[t])
                    } else {
                        None
                    }
                } else {
                    None
                }
            },
            _ => None,
        }
    }

    /// Whether the state satisfies the machine's invariant; unverified
    /// callers can test it before stepping.
    pub fn wf(&self) -> (b: bool)
        ensures
            b == self@.inv(),
    {
        let sp_ok = match self.selection.selected_project {
            None => self.projects.len() == 0,
            Some(p) => p < self.projects.len(),
        };
        let n = self.current_todos_len();
        let st_ok = match self.selection.selected_todo {
            None => n == 0,
            Some(t) => t < n,
        };
        let buf_ok = match self.input_mode {
            InputMode::Normal => self.input.as_str().is_empty(),
            _ => true,
        };
        sp_ok && st_ok && buf_ok
    }

    /// Whether `now` can safely close the selected item's session; see
    /// [`AppV::clock_ok`].
    pub fn clock_ok(&self, now: u64) -> (b: bool)
        ensures
            b == self@.clock_ok(now),
    {
        match (self.selection.selected_project, self.selection.selected_todo) {
            (Some(p), Some(t)) => {
                if p < self.projects.len() {
                    if t < self.projects[p].todos.len() {
                        self.projects[p].todos[t].clock_ok(now)
                    } else {
                        true
                    }
                } else {
                    true
                }
            },
            _ => true,
        }
    }

    /// Toggles the work timer of the selected to-do; returns whether a
    /// valid selection existed.
    pub fn toggle_current_todo_timer(&mut self, now: u64) -> (b: bool)
        requires
            old(self)@.clock_ok(now),
        ensures
            final(self)@ == timer_toggled(old(self)@, now).0,
            b == timer_toggled(old(self)@, now).1,
    {
        match (self.selection.selected_project, self.selection.selected_todo) {
            (Some(p), Some(t)) => {
                if p < self.projects.len() {
                    if t < self.projects[p].todos.len() {
                        let proj = &mut self.projects[p];
                        proj.toggle_todo_timer(t, now);
                        proof {
                            lemma_project_views_update(
                                old(self).projects@,
                                p as int,
                                self.projects@[p as int],
                            );
                            assert(self@ =~~= timer_toggled(old(self)@, now).0);
                        }
                        true
                    } else {
                        false
                    }
                } else {
                    false
                }
            },
            _ => false,
        }
    }

    fn do_tab(&mut self)
        ensures
            final(self)@ == panel_toggled(old(self)@),
    {
        match self.active_panel {
            Panel::Projects => {
                let n = self.current_todos_len();
                if self.selection.selected_todo.is_none() && n > 0 {
                    self.selection.selected_todo = Some(0);
                }
                self.active_panel = Panel::Todos;
            },
            Panel::Todos => {
                if self.selection.selected_project.is_none() && self.projects.len() > 0 {
                    self.selection.selected_project = Some(0);
                }
                self.active_panel = Panel::Projects;
            },
        }
        proof {
            assert(self@ =~= panel_toggled(old(self)@));
        }
    }

    fn do_move(&mut self, down: bool)
        ensures
            final(self)@ == moved(old(self)@, down),
    {
        match self.active_panel {
            Panel::Projects => {
                let len = self.projects.len();
                if len > 0 {
                    self.selection.selected_project = cycle_index(
                        self.selection.selected_project,
                        len,
                        down,
                    );
                    let n = self.current_todos_len();
                    self.selection.selected_todo = if n > 0 {
                        Some(0)
                    } else {
                        None
                    };
                }
            },
            Panel::Todos => {
                let n = self.current_todos_len();
                if n > 0 {
                    self.selection.selected_todo = cycle_index(
                        self.selection.selected_todo,
                        n,
                        down,
                    );
                }
            },
        }
        proof {
            assert(self@ =~= moved(old(self)@, down));
        }
    }

    fn do_completion(&mut self, now: u64) -> (e: Effect)
        requires
            old(self)@.clock_ok(now),
        ensures
            final(self)@ == completion_step(old(self)@, now).0,
            e == completion_step(old(self)@, now).1,
    {
        if matches!(self.active_panel, Panel::Todos) {
            match (self.selection.selected_project, self.selection.selected_todo) {
                (Some(p), Some(t)) => {
                    if p < self.projects.len() {
                        if t < self.projects[p].todos.len() {
                            let proj = &mut self.projects[p];
                            proj.toggle_todo_completed(t, now);
                            proof {
                                lemma_project_views_update(
                                    old(self).projects@,
                                    p as int,
                                    self.projects@[p as int],
                                );
                                assert(self@ =~~= completion_step(old(self)@, now).0);
                            }
                            Effect::Save
                        } else {
                            Effect::Nothing
                        }
                    } else {
                        Effect::Nothing
                    }
                },
                _ => Effect::Nothing,
            }
        } else {
            Effect::Nothing
        }
    }

    fn do_rename_begin(&mut self)
        ensures
            final(self)@ == rename_begun(old(self)@),
    {
        match self.active_panel {
            Panel::Projects => {
                match self.selection.selected_project {
                    Some(p) => {
                        if p < self.projects.len() {
                            self.input_mode = InputMode::RenamingProject;
                            self.input = self.projects[p].name.clone();
                        }
                    },
                    None => {},
                }
            },
            Panel::Todos => {
                match (self.selection.selected_project, self.selection.selected_todo) {
                    (Some(p), Some(t)) => {
                        if p < self.projects.len() {
                            if t < self.projects[p].todos.len() {
                                self.input_mode = InputMode::RenamingTodo;
                                self.input = self.projects[p].todos[t].title.clone();
                            }
                        }
                    },
                    _ => {},
                }
            },
        }
        proof {
            assert(self@ =~= rename_begun(old(self)@));
        }
    }

    fn do_delete(&mut self) -> (e: Effect)
        ensures
            final(self)@ == deleted(old(self)@).0,
            e == deleted(old(self)@).1,
    {
        match self.active_panel {
            Panel::Projects => {
                match self.selection.selected_project {
                    Some(p) => {
                        if p < self.projects.len() {
                            self.projects.remove(p);
                            proof {
                                lemma_project_views_remove(old(self).projects@, p as int);
                            }
                            let n = self.projects.len();
                            self.selection.selected_project = reindex_after_delete(p, n);
                            let nt = self.current_todos_len();
                            self.selection.selected_todo = if nt > 0 {
                                Some(0)
                            } else {
                                None
                            };
                            proof {
                                assert(self@ =~= deleted(old(self)@).0);
                            }
                            Effect::Save
                        } else {
                            Effect::Nothing
                        }
                    },
                    None => Effect::Nothing,
                }
            },
            Panel::Todos => {
                match (self.selection.selected_project, self.selection.selected_todo) {
                    (Some(p), Some(t)) => {
                        if p < self.projects.len() {
                            if t < self.projects[p].todos.len() {
                                let proj = &mut self.projects[p];
                                proj.remove_todo(t);
                                let n = proj.todos.len();
                                self.selection.selected_todo = reindex_after_delete(t, n);
                                proof {
                                    lemma_project_views_update(
                                        old(self).projects@,
                                        p as int,
                                        self.projects@[p as int],
                                    );
                                    assert(self@ =~~= deleted(old(self)@).0);
                                }
                                Effect::Save
                            } else {
                                Effect::Nothing
                            }
                        } else {
                            Effect::Nothing
                        }
                    },
                    _ => Effect::Nothing,
                }
            },
        }
    }

    fn do_commit(&mut self) -> (e: Effect)
        requires
            !(old(self)@.input_mode is Normal),
        ensures
            final(self)@ == committed(old(self)@).0,
            e == committed(old(self)@).1,
    {
        if self.input.as_str().is_empty() {
            self.input_mode = InputMode::Normal;
            proof {
                assert(self@ =~= committed(old(self)@).0);
            }
            return Effect::Nothing;
        }
        let e = match self.input_mode {
            InputMode::AddingProject => {
                let name = self.input.clone();
                let todos: Vec<Todo> = Vec::new();
                let proj = Project { name, todos };
                proof {
                    lemma_project_views_push(self.projects@, proj);
                }
                self.projects.push(proj);
                self.selection.selected_project = Some(self.projects.len() - 1);
                self.selection.selected_todo = None;
                Effect::Save
            },
            InputMode::AddingTodo => {
                match self.selection.selected_project {
                    Some(p) => {
                        if p < self.projects.len() {
                            let title = self.input.clone();
                            let proj = &mut self.projects[p];
                            proj.push_todo(title);
                            let new_index = proj.todos.len() - 1;
                            self.selection.selected_todo = Some(new_index);
                            proof {
                                lemma_project_views_update(
                                    old(self).projects@,
                                    p as int,
                                    self.projects@[p as int],
                                );
                            }
                            Effect::Save
                        } else {
                            Effect::Nothing
                        }
                    },
                    None => Effect::Nothing,
                }
            },
            InputMode::RenamingProject => {
                match self.selection.selected_project {
                    Some(p) => {
                        if p < self.projects.len() {
                            let name = self.input.clone();
                            let proj = &mut self.projects[p];
                            proj.rename(name);
                            proof {
                                lemma_project_views_update(
                                    old(self).projects@,
                                    p as int,
                                    self.projects@[p as int],
                                );
                            }
                            Effect::Save
                        } else {
                            Effect::Nothing
                        }
                    },
                    None => Effect::Nothing,
                }
            },
            InputMode::RenamingTodo => {
                match (self.selection.selected_project, self.selection.selected_todo) {
                    (Some(p), Some(t)) => {
                        if p < self.projects.len() {
                            if t < self.projects[p].todos.len() {
                                let title = self.input.clone();
                                let proj = &mut self.projects[p];
                                proj.rename_todo(t, title);
                                proof {
                                    lemma_project_views_update(
                                        old(self).projects@,
                                        p as int,
                                        self.projects@[p as int],
                                    );
                                }
                                Effect::Save
                            } else {
                                Effect::Nothing
                            }
                        } else {
                            Effect::Nothing
                        }
                    },
                    _ => Effect::Nothing,
                }
            },
            InputMode::Normal => Effect::Nothing,
        };
        self.input = String::new();
        self.input_mode = InputMode::Normal;
        proof {
            assert(self@ =~~= committed(old(self)@).0);
        }
        e
    }

    fn entry_key(&mut self, key: Key) -> (e: Effect)
        requires
            !(old(self)@.input_mode is Normal),
        ensures
            final(self)@ == entry_step(old(self)@, key).0,
            e == entry_step(old(self)@, key).1,
    {
        match key {
            Key::Char(c) => {
                push_char(&mut self.input, c);
                proof {
                    assert(self@ =~= entry_step(old(self)@, key).0);
                }
                Effect::Nothing
            },
            Key::Backspace => {
                pop_char(&mut self.input);
                proof {
                    assert(self@ =~= entry_step(old(self)@, key).0);
                }
                Effect::Nothing
            },
            Key::Esc => {
                self.input = String::new();
                self.input_mode = InputMode::Normal;
                proof {
                    assert(self@ =~= entry_step(old(self)@, key).0);
                }
                Effect::Nothing
            },
            Key::Enter => self.do_commit(),
            _ => Effect::Nothing,
        }
    }

    fn normal_key(&mut self, key: Key, now: u64) -> (e: Effect)
        requires
            old(self)@.clock_ok(now),
        ensures
            final(self)@ == normal_step(old(self)@, key, now).0,
            e == normal_step(old(self)@, key, now).1,
    {
        match key {
            Key::Tab => {
                self.do_tab();
                Effect::Nothing
            },
            Key::Down => {
                self.do_move(true);
                Effect::Nothing
            },
            Key::Up => {
                self.do_move(false);
                Effect::Nothing
            },
            Key::Char(c) => {
                if c == 'q' {
                    Effect::Quit
                } else if c == 's' {
                    Effect::Save
                } else if c == 'j' {
                    self.do_move(true);
                    Effect::Nothing
                } else if c == 'k' {
                    self.do_move(false);
                    Effect::Nothing
                } else if c == ' ' {
                    self.do_completion(now)
                } else if c == 'a' {
                    self.input_mode = match self.active_panel {
                        Panel::Projects => InputMode::AddingProject,
                        Panel::Todos => InputMode::AddingTodo,
                    };
                    self.input = String::new();
                    proof {
                        assert(self@ =~= add_begun(old(self)@));
                    }
                    Effect::Nothing
                } else if c == 't' {
                    if matches!(self.active_panel, Panel::Todos) {
                        let toggled = self.toggle_current_todo_timer(now);
                        if toggled {
                            Effect::Save
                        } else {
                            Effect::Nothing
                        }
                    } else {
                        Effect::Nothing
                    }
                } else if c == 'r' {
                    self.do_rename_begin();
                    Effect::Nothing
                } else if c == 'd' {
                    self.do_delete()
                } else {
                    Effect::Nothing
                }
            },
            _ => Effect::Nothing,
        }
    }

    /// Interprets one keystroke at instant `now`, exactly as [`step_spec`]
    /// describes, and returns what the caller owes: nothing, a save, or a
    /// save followed by quitting. A step never breaks the invariant.
    pub fn step(&mut self, key: Key, now: u64) -> (e: Effect)
        requires
            old(self)@.clock_ok(now),
        ensures
            final(self)@ == step_spec(old(self)@, key, now).0,
            e == step_spec(old(self)@, key, now).1,
            old(self)@.inv() ==> final(self)@.inv(),
    {
        let e = match self.input_mode {
            InputMode::Normal => self.normal_key(key, now),
            _ => self.entry_key(key),
        };
        proof {
            lemma_view_headroom(old(self));
            lemma_step_preserves_invariant(old(self)@, key, now);
        }
        e
    }
}

/// The view of a machine state has every list within the `usize` bound,
/// because each list is a vector living in memory.
pub proof fn lemma_view_headroom(app: &AppState)
    ensures
        app@.headroom(0),
{
    assert(app.projects.len() == app.projects@.len());
    assert forall|i: int|
        0 <= i < app@.projects.len() implies (#[trigger] app@.projects[i]).todos.len() + 0
        <= usize::MAX by {
        let v = app.projects@[i].todos;
        assert(v.len() == v@.len());
        assert(app@.projects[i].todos == todo_views(v@));
    };
}

/// Selection indices stay within bounds or `None`, and the text buffer
/// stays empty in normal mode, across every single keystroke.
pub proof fn lemma_step_preserves_invariant(s: AppV, key: Key, now: u64)
    ensures
        s.inv() && s.headroom(0) ==> step_spec(s, key, now).0.inv(),
{
}

/// A step grows each list by at most one item, so one slot of headroom
/// pays for it.
pub proof fn lemma_step_headroom(s: AppV, key: Key, now: u64, k: nat)
    ensures
        s.headroom(k + 1) ==> step_spec(s, key, now).0.headroom(k),
{
}

/// What the delete key does to the to-do cursor: deleting the last
/// remaining item clears it to `None`; deleting a non-last item keeps the
/// same index selected, which then names the item that moved up; deleting
/// the tail item moves the cursor to the new tail.
pub proof fn lemma_delete_reanchors_cursor(s: AppV)
    requires
        s.inv(),
        s.active_panel is Todos,
        valid_todo_selection(s),
    ensures
        ({
            let t = s.selection.selected_todo.unwrap();
            let new_len = s.cur_todos_len() - 1;
            let after = deleted(s).0;
            &&& deleted(s).1 == Effect::Save
            &&& after.cur_todos_len() == new_len
            &&& (new_len == 0 ==> after.selection.selected_todo is None)
            &&& (t < new_len ==> after.selection.selected_todo == Some(t))
            &&& (t >= new_len > 0 ==> after.selection.selected_todo == Some(
                (new_len - 1) as usize,
            ))
        }),
{
}

/// The state after a whole sequence of keystrokes, each with the instant
/// it arrived at.
pub open spec fn run_spec(s: AppV, inputs: Seq<(Key, u64)>) -> AppV
    decreases inputs.len(),
{
    if inputs.len() == 0 {
        s
    } else {
        run_spec(step_spec(s, inputs[0].0, inputs[0].1).0, inputs.drop_first())
    }
}

/// Selection indices remain within bounds or `None` across every sequence
/// of keystrokes, additions and deletions included; the headroom premise
/// says only that the lists can keep fitting in memory for that long.
pub proof fn lemma_run_preserves_invariant(s: AppV, inputs: Seq<(Key, u64)>)
    requires
        s.inv(),
        s.headroom(inputs.len()),
    ensures
        run_spec(s, inputs).inv(),
    decreases inputs.len(),
{
    if inputs.len() > 0 {
        lemma_step_preserves_invariant(s, inputs[0].0, inputs[0].1);
        lemma_step_headroom(s, inputs[0].0, inputs[0].1, (inputs.len() - 1) as nat);
        lemma_run_preserves_invariant(step_spec(s, inputs[0].0, inputs[0].1).0, inputs.drop_first());
    }
}

} // verus!

