use s_todo::machine::{AppState, Effect, InputMode, Key, Panel};
use s_todo::model::{default_data, AppData};

fn fresh() -> AppState {
    AppState::new(default_data())
}

fn empty() -> AppState {
    AppState::new(AppData { projects: Vec::new() })
}

fn type_word(app: &mut AppState, word: &str) {
    for c in word.chars() {
        app.step(Key::Char(c), 0);
    }
}

#[test]
fn initial_state_selects_first_entries() {
    let app = fresh();
    assert_eq!(app.projects.len(), 2);
    assert_eq!(app.selection.selected_project, Some(0));
    assert_eq!(app.selection.selected_todo, Some(0));
    assert_eq!(app.active_panel, Panel::Projects);
    assert_eq!(app.input_mode, InputMode::Normal);
    assert_eq!(app.input, "");
    assert!(app.wf());
}

#[test]
fn initial_state_on_empty_data() {
    let app = empty();
    assert_eq!(app.selection.selected_project, None);
    assert_eq!(app.selection.selected_todo, None);
    assert!(app.wf());
}

#[test]
fn quit_and_save_keys() {
    let mut app = fresh();
    assert_eq!(app.step(Key::Char('s'), 0), Effect::Save);
    assert_eq!(app.step(Key::Char('q'), 0), Effect::Quit);
    assert_eq!(app.projects.len(), 2);
}

#[test]
fn unknown_keys_are_ignored() {
    let mut app = fresh();
    assert_eq!(app.step(Key::Char('x'), 0), Effect::Nothing);
    assert_eq!(app.step(Key::Other, 0), Effect::Nothing);
    assert_eq!(app.projects.len(), 2);
    assert!(app.wf());
}

#[test]
fn project_movement_wraps() {
    let mut app = fresh();
    app.step(Key::Char('j'), 0);
    assert_eq!(app.selection.selected_project, Some(1));
    app.step(Key::Down, 0);
    assert_eq!(app.selection.selected_project, Some(0));
    app.step(Key::Char('k'), 0);
    assert_eq!(app.selection.selected_project, Some(1));
    app.step(Key::Up, 0);
    assert_eq!(app.selection.selected_project, Some(0));
    assert!(app.wf());
}

#[test]
fn todo_movement_wraps_within_project() {
    let mut app = fresh();
    app.step(Key::Tab, 0);
    assert_eq!(app.active_panel, Panel::Todos);
    assert_eq!(app.selection.selected_todo, Some(0));
    app.step(Key::Char('j'), 0);
    assert_eq!(app.selection.selected_todo, Some(0));
    assert!(app.wf());
}

#[test]
fn add_project_commits_and_selects_it() {
    let mut app = fresh();
    assert_eq!(app.step(Key::Char('a'), 0), Effect::Nothing);
    assert_eq!(app.input_mode, InputMode::AddingProject);
    type_word(&mut app, "garden");
    let e = app.step(Key::Enter, 0);
    assert_eq!(e, Effect::Save);
    assert_eq!(app.projects.len(), 3);
    assert_eq!(app.projects[2].name, "garden");
    assert_eq!(app.projects[2].todos.len(), 0);
    assert_eq!(app.selection.selected_project, Some(2));
    assert_eq!(app.selection.selected_todo, None);
    assert_eq!(app.input_mode, InputMode::Normal);
    assert_eq!(app.input, "");
    assert!(app.wf());
}

#[test]
fn add_todo_commits_and_selects_it() {
    let mut app = fresh();
    app.step(Key::Tab, 0);
    app.step(Key::Char('a'), 0);
    assert_eq!(app.input_mode, InputMode::AddingTodo);
    type_word(&mut app, "water plants");
    let e = app.step(Key::Enter, 0);
    assert_eq!(e, Effect::Save);
    assert_eq!(app.projects[0].todos.len(), 2);
    assert_eq!(app.projects[0].todos[1].title, "water plants");
    assert_eq!(app.selection.selected_todo, Some(1));
    assert_eq!(app.input_mode, InputMode::Normal);
    assert!(app.wf());
}

#[test]
fn empty_title_commit_creates_nothing() {
    let mut app = fresh();
    app.step(Key::Tab, 0);
    app.step(Key::Char('a'), 0);
    assert_eq!(app.input_mode, InputMode::AddingTodo);
    let e = app.step(Key::Enter, 0);
    assert_eq!(e, Effect::Nothing);
    assert_eq!(app.projects[0].todos.len(), 1);
    assert_eq!(app.input_mode, InputMode::Normal);
    assert_eq!(app.input, "");
    assert!(app.wf());
}

#[test]
fn escape_discards_the_buffer() {
    let mut app = fresh();
    app.step(Key::Char('a'), 0);
    type_word(&mut app, "draft");
    app.step(Key::Esc, 0);
    assert_eq!(app.input_mode, InputMode::Normal);
    assert_eq!(app.input, "");
    assert_eq!(app.projects.len(), 2);
    assert!(app.wf());
}

#[test]
fn backspace_edits_the_buffer() {
    let mut app = fresh();
    app.step(Key::Char('a'), 0);
    type_word(&mut app, "abc");
    app.step(Key::Backspace, 0);
    assert_eq!(app.input, "ab");
    app.step(Key::Backspace, 0);
    app.step(Key::Backspace, 0);
    app.step(Key::Backspace, 0);
    assert_eq!(app.input, "");
}

#[test]
fn rename_project_seeds_and_overwrites() {
    let mut app = fresh();
    app.step(Key::Char('r'), 0);
    assert_eq!(app.input_mode, InputMode::RenamingProject);
    assert_eq!(app.input, app.projects[0].name);
    app.step(Key::Esc, 0);
    app.step(Key::Char('r'), 0);
    for _ in 0..app.input.chars().count() {
        app.step(Key::Backspace, 0);
    }
    type_word(&mut app, "chores");
    let e = app.step(Key::Enter, 0);
    assert_eq!(e, Effect::Save);
    assert_eq!(app.projects[0].name, "chores");
    assert_eq!(app.projects.len(), 2);
    assert!(app.wf());
}

#[test]
fn rename_todo_overwrites_title() {
    let mut app = fresh();
    app.step(Key::Tab, 0);
    app.step(Key::Char('r'), 0);
    assert_eq!(app.input_mode, InputMode::RenamingTodo);
    for _ in 0..app.input.chars().count() {
        app.step(Key::Backspace, 0);
    }
    type_word(&mut app, "ship it");
    assert_eq!(app.step(Key::Enter, 0), Effect::Save);
    assert_eq!(app.projects[0].todos[0].title, "ship it");
    assert!(app.wf());
}

#[test]
fn rename_with_nothing_selected_is_noop() {
    let mut app = empty();
    assert_eq!(app.step(Key::Char('r'), 0), Effect::Nothing);
    assert_eq!(app.input_mode, InputMode::Normal);
    assert!(app.wf());
}

#[test]
fn delete_last_todo_clears_selection() {
    let mut app = fresh();
    app.step(Key::Tab, 0);
    let e = app.step(Key::Char('d'), 0);
    assert_eq!(e, Effect::Save);
    assert_eq!(app.projects[0].todos.len(), 0);
    assert_eq!(app.selection.selected_todo, None);
    assert!(app.wf());
}

#[test]
fn delete_inner_todo_keeps_index() {
    let mut app = fresh();
    app.step(Key::Tab, 0);
    app.step(Key::Char('a'), 0);
    type_word(&mut app, "second");
    app.step(Key::Enter, 0);
    app.step(Key::Char('k'), 0);
    assert_eq!(app.selection.selected_todo, Some(0));
    app.step(Key::Char('d'), 0);
    assert_eq!(app.selection.selected_todo, Some(0));
    assert_eq!(app.projects[0].todos[0].title, "second");
    assert!(app.wf());
}

#[test]
fn delete_projects_down_to_empty() {
    let mut app = fresh();
    assert_eq!(app.step(Key::Char('d'), 0), Effect::Save);
    assert_eq!(app.projects.len(), 1);
    assert_eq!(app.selection.selected_project, Some(0));
    assert_eq!(app.selection.selected_todo, Some(0));
    assert_eq!(app.step(Key::Char('d'), 0), Effect::Save);
    assert_eq!(app.projects.len(), 0);
    assert_eq!(app.selection.selected_project, None);
    assert_eq!(app.selection.selected_todo, None);
    assert_eq!(app.step(Key::Char('d'), 0), Effect::Nothing);
    assert!(app.wf());
}

#[test]
fn timer_key_starts_and_stops_with_save() {
    let mut app = fresh();
    app.step(Key::Tab, 0);
    assert_eq!(app.step(Key::Char('t'), 1000), Effect::Save);
    assert!(app.projects[0].todos[0].is_working());
    assert!(app.clock_ok(1500));
    assert_eq!(app.step(Key::Char('t'), 1500), Effect::Save);
    assert!(!app.projects[0].todos[0].is_working());
    assert_eq!(app.projects[0].todos[0].total_duration, 500);
}

#[test]
fn timer_key_on_projects_panel_is_ignored() {
    let mut app = fresh();
    assert_eq!(app.step(Key::Char('t'), 1000), Effect::Nothing);
    assert!(!app.projects[0].todos[0].is_working());
}

#[test]
fn completing_working_todo_stops_timer_first() {
    let mut app = fresh();
    app.step(Key::Tab, 0);
    app.step(Key::Char('t'), 1000);
    assert_eq!(app.step(Key::Char(' '), 1300), Effect::Save);
    let todo = &app.projects[0].todos[0];
    assert!(todo.completed);
    assert!(!todo.is_working());
    assert_eq!(todo.total_duration, 300);
}

#[test]
fn space_on_projects_panel_is_ignored() {
    let mut app = fresh();
    assert_eq!(app.step(Key::Char(' '), 0), Effect::Nothing);
    assert!(!app.projects[0].todos[0].completed);
}

#[test]
fn panel_toggle_defaults_cursors() {
    let mut app = empty();
    app.step(Key::Tab, 0);
    assert_eq!(app.active_panel, Panel::Todos);
    assert_eq!(app.selection.selected_todo, None);
    app.step(Key::Tab, 0);
    assert_eq!(app.active_panel, Panel::Projects);
    assert_eq!(app.selection.selected_project, None);
    assert!(app.wf());
}

#[test]
fn moving_projects_reanchors_todo_cursor() {
    let mut app = fresh();
    app.step(Key::Tab, 0);
    app.step(Key::Tab, 0);
    app.step(Key::Char('j'), 0);
    assert_eq!(app.selection.selected_project, Some(1));
    assert_eq!(app.selection.selected_todo, Some(0));
    assert!(app.wf());
}

#[test]
fn long_random_walk_keeps_invariant() {
    let mut app = fresh();
    let keys = [
        Key::Char('a'),
        Key::Char('x'),
        Key::Enter,
        Key::Tab,
        Key::Char('j'),
        Key::Char('d'),
        Key::Char('t'),
        Key::Char(' '),
        Key::Char('r'),
        Key::Esc,
        Key::Char('k'),
        Key::Backspace,
        Key::Up,
        Key::Down,
    ];
    let mut now: u64 = 0;
    for round in 0..300usize {
        let key = keys[(round * 7 + 3) % keys.len()];
        now += 13;
        if app.clock_ok(now) {
            app.step(key, now);
        }
        assert!(app.wf());
    }
}

#[test]
fn get_current_accessors_follow_selection() {
    let mut app = fresh();
    assert_eq!(app.get_current_project().unwrap().name, app.projects[0].name);
    assert_eq!(app.get_current_todos().unwrap().len(), 1);
    assert_eq!(
        app.get_current_todo().unwrap().title,
        app.projects[0].todos[0].title
    );
    app.step(Key::Char('d'), 0);
    app.step(Key::Char('d'), 0);
    assert!(app.get_current_project().is_none());
    assert!(app.get_current_todos().is_none());
    assert!(app.get_current_todo().is_none());
}

#[test]
fn toggle_current_todo_timer_reports_selection() {
    let mut app = fresh();
    assert!(app.toggle_current_todo_timer(100));
    assert!(app.projects[0].todos[0].is_working());
    let mut bare = empty();
    assert!(!bare.toggle_current_todo_timer(100));
}

#[test]
fn empty_project_name_commit_creates_nothing() {
    let mut app = fresh();
    app.step(Key::Char('a'), 0);
    assert_eq!(app.step(Key::Enter, 0), Effect::Nothing);
    assert_eq!(app.projects.len(), 2);
    assert_eq!(app.input_mode, InputMode::Normal);
}

#[test]
fn add_todo_without_any_project_is_silent() {
    let mut app = empty();
    app.step(Key::Tab, 0);
    app.step(Key::Char('a'), 0);
    assert_eq!(app.input_mode, InputMode::AddingTodo);
    type_word(&mut app, "orphan");
    assert_eq!(app.step(Key::Enter, 0), Effect::Nothing);
    assert_eq!(app.projects.len(), 0);
    assert_eq!(app.input_mode, InputMode::Normal);
    assert_eq!(app.input, "");
    assert!(app.wf());
}
