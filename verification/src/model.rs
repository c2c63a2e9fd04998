//! The data model: to-do items with a per-item work timer, projects that
//! own an ordered list of items, and the persisted root that owns the
//! projects.
//!
//! The timer is a pair of optional Unix-epoch timestamps plus an
//! accumulated counter of whole completed sessions. A session is open
//! exactly when the start timestamp is set and the end timestamp is not.
//! The current time is always handed in by the caller, so every operation
//! here is a pure function of its arguments.

use vstd::prelude::*;
use vstd::string::StringExecFns;
use crate::duration::{duration_text, format_seconds};

verus! {

/// One to-do item.
pub struct Todo {
    pub title: String,
    pub description: String,
    pub completed: bool,
    pub start_time: Option<u64>,
    pub end_time: Option<u64>,
    pub total_duration: u64,
}

/// The mathematical value of a [`Todo`].
#[verifier::ext_equal]
pub struct TodoV {
    pub title: Seq<char>,
    pub description: Seq<char>,
    pub completed: bool,
    pub start_time: Option<u64>,
    pub end_time: Option<u64>,
    pub total_duration: u64,
}

impl View for Todo {
    type V = TodoV;

    open spec fn view(&self) -> TodoV {
        TodoV {
            title: self.title@,
            description: self.description@,
            completed: self.completed,
            start_time: self.start_time,
            end_time: self.end_time,
            total_duration: self.total_duration,
        }
    }
}

impl TodoV {
    /// A freshly added item: empty description, not completed, no timer
    /// history.
    pub open spec fn fresh(title: Seq<char>) -> TodoV {
        TodoV {
            title: title,
            description: Seq::<char>::empty(),
            completed: false,
            start_time: None,
            end_time: None,
            total_duration: 0,
        }
    }

    /// A work session is open: started and not yet ended.
    pub open spec fn is_working(self) -> bool {
        self.start_time is Some && self.end_time is None
    }

    /// `now` lies at or after the recorded start, and crediting the open
    /// session cannot overflow the accumulated counter.
    pub open spec fn clock_ok(self, now: u64) -> bool {
        self.start_time matches Some(s) ==> s <= now && self.total_duration + (now - s)
            <= u64::MAX
    }

    /// After starting a session at `now`: the clock restarts even if a
    /// session was already open, without crediting the interrupted one.
    pub open spec fn started(self, now: u64) -> TodoV {
        TodoV { start_time: Some(now), end_time: None, ..self }
    }

    /// After ending at `now`: if a start is recorded, the elapsed span is
    /// credited to the counter and the end timestamp set; otherwise nothing
    /// changes.
    pub open spec fn ended(self, now: u64) -> TodoV {
        match self.start_time {
            Some(s) => TodoV {
                end_time: Some(now),
                total_duration: (self.total_duration + (now - s)) as u64,
                ..self
            },
            None => self,
        }
    }

    /// After the timer key: a working item stops, any other starts.
    pub open spec fn toggled(self, now: u64) -> TodoV {
        if self.is_working() {
            self.ended(now)
        } else {
            self.started(now)
        }
    }

    /// After the completion key: an item about to become completed first
    /// stops its open session, then the completion flag flips.
    pub open spec fn completion_toggled(self, now: u64) -> TodoV {
        let stopped = if self.is_working() && !self.completed {
            self.ended(now)
        } else {
            self
        };
        TodoV { completed: !self.completed, ..stopped }
    }
}

impl Todo {
    /// A new item carrying `title` and nothing else.
    pub fn new(title: String) -> (t: Todo)
        ensures
            t@ == TodoV::fresh(title@),
    {
        let t = Todo {
            title,
            description: String::new(),
            completed: false,
            start_time: None,
            end_time: None,
            total_duration: 0,
        };
        proof {
            assert(t@ =~= TodoV::fresh(t.title@));
        }
        t
    }

    /// Whether a work session is open.
    pub fn is_working(&self) -> (b: bool)
        ensures
            b == self@.is_working(),
    {
        self.start_time.is_some() && self.end_time.is_none()
    }

    /// Opens a session at `now`, discarding any open one uncredited.
    pub fn start_work(&mut self, now: u64)
        ensures
            final(self)@ == old(self)@.started(now),
    {
        self.start_time = Some(now);
        self.end_time = None;
        proof {
            assert(self@ =~= old(self)@.started(now));
        }
    }

    /// Closes the session at `now` and credits its length; does nothing if
    /// no start is recorded.
    pub fn end_work(&mut self, now: u64)
        requires
            old(self)@.clock_ok(now),
        ensures
            final(self)@ == old(self)@.ended(now),
            final(self)@.total_duration >= old(self)@.total_duration,
    {
        match self.start_time {
            Some(start) => {
                self.end_time = Some(now);
                self.total_duration = self.total_duration + (now - start);
            },
            None => {},
        }
        proof {
            assert(self@ =~= old(self)@.ended(now));
        }
    }

    /// Stops a working item, starts any other.
    pub fn toggle_work(&mut self, now: u64)
        requires
            old(self)@.clock_ok(now),
        ensures
            final(self)@ == old(self)@.toggled(now),
    {
        if self.is_working() {
            self.end_work(now);
        } else {
            self.start_work(now);
        }
    }

    /// Flips the completion flag; completing a working item first closes
    /// its session, so no open session survives completion.
    pub fn toggle_completed(&mut self, now: u64)
        requires
            old(self)@.clock_ok(now),
        ensures
            final(self)@ == old(self)@.completion_toggled(now),
            old(self)@.is_working() && !old(self)@.completed ==> {
                &&& !final(self)@.is_working()
                &&& final(self)@.completed
                &&& final(self)@.total_duration == old(self)@.total_duration + (now - old(
                    self,
                )@.start_time.unwrap())
            },
    {
        if self.is_working() && !self.completed {
            self.end_work(now);
        }
        self.completed = !self.completed;
        proof {
            assert(self@ =~= old(self)@.completion_toggled(now));
        }
    }

    /// Renders the accumulated seconds; see [`duration_text`].
    pub fn format_duration(&self) -> (r: String)
        ensures
            r@ == duration_text(self.total_duration),
    {
        format_seconds(self.total_duration)
    }

    /// Whether `now` can safely close this item's session; see
    /// [`TodoV::clock_ok`].
    pub fn clock_ok(&self, now: u64) -> (b: bool)
        ensures
            b == self@.clock_ok(now),
    {
        match self.start_time {
            Some(s) => s <= now && self.total_duration <= u64::MAX - (now - s),
            None => true,
        }
    }
}

/// A project owning its ordered to-do list.
pub struct Project {
    pub name: String,
    pub todos: Vec<Todo>,
}

/// The mathematical value of a [`Project`].
#[verifier::ext_equal]
pub struct ProjectV {
    pub name: Seq<char>,
    pub todos: Seq<TodoV>,
}

/// The values of a list of items.
pub open spec fn todo_views(s: Seq<Todo>) -> Seq<TodoV> {
    s.map_values(|t: Todo| t@)
}

/// The values of a list of projects.
pub open spec fn project_views(s: Seq<Project>) -> Seq<ProjectV> {
    s.map_values(|p: Project| p@)
}

impl View for Project {
    type V = ProjectV;

    open spec fn view(&self) -> ProjectV {
        ProjectV { name: self.name@, todos: todo_views(self.todos@) }
    }
}

impl Project {
    /// Appends a fresh item carrying `title`.
    pub fn push_todo(&mut self, title: String)
        ensures
            final(self)@.name == old(self)@.name,
            final(self)@.todos == old(self)@.todos.push(TodoV::fresh(title@)),
    {
        let todo = Todo::new(title);
        proof {
            lemma_todo_views_push(self.todos@, todo);
        }
        self.todos.push(todo);
    }

    /// Removes the item at `t`; the items behind it shift down one slot.
    pub fn remove_todo(&mut self, t: usize)
        requires
            t < old(self)@.todos.len(),
        ensures
            final(self)@.name == old(self)@.name,
            final(self)@.todos == old(self)@.todos.remove(t as int),
    {
        self.todos.remove(t);
        proof {
            lemma_todo_views_remove(old(self).todos@, t as int);
        }
    }

    /// Overwrites the project's name.
    pub fn rename(&mut self, name: String)
        ensures
            final(self)@.name == name@,
            final(self)@.todos == old(self)@.todos,
    {
        self.name = name;
    }

    /// Overwrites the title of the item at `t`.
    pub fn rename_todo(&mut self, t: usize, title: String)
        requires
            t < old(self)@.todos.len(),
        ensures
            final(self)@.name == old(self)@.name,
            final(self)@.todos == old(self)@.todos.update(
                t as int,
                TodoV { title: title@, ..old(self)@.todos[t as int] },
            ),
    {
        let todo = &mut self.todos[t];
        todo.title = title;
        proof {
            lemma_todo_views_update(old(self).todos@, t as int, self.todos@[t as int]);
            assert(self.todos@[t as int]@ =~= TodoV {
                title: title@,
                ..old(self)@.todos[t as int]
            });
        }
    }

    /// Toggles the work timer of the item at `t` at instant `now`.
    pub fn toggle_todo_timer(&mut self, t: usize, now: u64)
        requires
            t < old(self)@.todos.len(),
            old(self)@.todos[t as int].clock_ok(now),
        ensures
            final(self)@.name == old(self)@.name,
            final(self)@.todos == old(self)@.todos.update(
                t as int,
                old(self)@.todos[t as int].toggled(now),
            ),
    {
        let todo = &mut self.todos[t];
        todo.toggle_work(now);
        proof {
            lemma_todo_views_update(old(self).todos@, t as int, self.todos@[t as int]);
        }
    }

    /// Toggles the completion flag of the item at `t`, stopping an open
    /// session first when the item becomes completed.
    pub fn toggle_todo_completed(&mut self, t: usize, now: u64)
        requires
            t < old(self)@.todos.len(),
            old(self)@.todos[t as int].clock_ok(now),
        ensures
            final(self)@.name == old(self)@.name,
            final(self)@.todos == old(self)@.todos.update(
                t as int,
                old(self)@.todos[t as int].completion_toggled(now),
            ),
    {
        let todo = &mut self.todos[t];
        todo.toggle_completed(now);
        proof {
            lemma_todo_views_update(old(self).todos@, t as int, self.todos@[t as int]);
        }
    }
}

/// The persisted root: the whole project list.
pub struct AppData {
    pub projects: Vec<Project>,
}

impl View for AppData {
    type V = Seq<ProjectV>;

    open spec fn view(&self) -> Seq<ProjectV> {
        project_views(self.projects@)
    }
}

/// The two seeded projects that stand in when nothing was persisted yet.
pub open spec fn default_view() -> Seq<ProjectV> {
    seq![
        ProjectV { name: "工作项目"@, todos: seq![TodoV::fresh("完成报告"@)] },
        ProjectV { name: "个人学习"@, todos: seq![TodoV::fresh("学习 Rust"@)] },
    ]
}

/// Builds the built-in default data: two projects, each seeded with one
/// fresh to-do item.
pub fn default_data() -> (d: AppData)
    ensures
        d@ == default_view(),
{
    let mut todos1: Vec<Todo> = Vec::new();
    todos1.push(Todo::new(String::from_str("完成报告")));
    let mut todos2: Vec<Todo> = Vec::new();
    todos2.push(Todo::new(String::from_str("学习 Rust")));
    let mut projects: Vec<Project> = Vec::new();
    projects.push(Project { name: String::from_str("工作项目"), todos: todos1 });
    projects.push(Project { name: String::from_str("个人学习"), todos: todos2 });
    let d = AppData { projects };
    proof {
        assert(d@ =~~= default_view());
    }
    d
}

/// Appending an item appends its value.
pub proof fn lemma_todo_views_push(s: Seq<Todo>, t: Todo)
    ensures
        todo_views(s.push(t)) == todo_views(s).push(t@),
{
    assert(todo_views(s.push(t)) =~= todo_views(s).push(t@));
}

/// Replacing an item replaces its value.
pub proof fn lemma_todo_views_update(s: Seq<Todo>, i: int, t: Todo)
    requires
        0 <= i < s.len(),
    ensures
        todo_views(s.update(i, t)) == todo_views(s).update(i, t@),
{
    assert(todo_views(s.update(i, t)) =~= todo_views(s).update(i, t@));
}

/// Removing an item removes its value.
pub proof fn lemma_todo_views_remove(s: Seq<Todo>, i: int)
    requires
        0 <= i < s.len(),
    ensures
        todo_views(s.remove(i)) == todo_views(s).remove(i),
{
    assert(todo_views(s.remove(i)) =~= todo_views(s).remove(i));
}

/// Appending a project appends its value.
pub proof fn lemma_project_views_push(s: Seq<Project>, p: Project)
    ensures
        project_views(s.push(p)) == project_views(s).push(p@),
{
    assert(project_views(s.push(p)) =~= project_views(s).push(p@));
}

/// Replacing a project replaces its value.
pub proof fn lemma_project_views_update(s: Seq<Project>, i: int, p: Project)
    requires
        0 <= i < s.len(),
    ensures
        project_views(s.update(i, p)) == project_views(s).update(i, p@),
{
    assert(project_views(s.update(i, p)) =~= project_views(s).update(i, p@));
}

/// Removing a project removes its value.
pub proof fn lemma_project_views_remove(s: Seq<Project>, i: int)
    requires
        0 <= i < s.len(),
    ensures
        project_views(s.remove(i)) == project_views(s).remove(i),
{
    assert(project_views(s.remove(i)) =~= project_views(s).remove(i));
}

/// Toggling the timer twice from a stopped state is one full start/stop
/// cycle: it credits exactly the span between the two instants, never
/// decreases the counter, and leaves the item stopped.
pub proof fn lemma_toggle_work_pairing(t: TodoV, n1: u64, n2: u64)
    requires
        !t.is_working(),
        n1 <= n2,
        t.total_duration + (n2 - n1) <= u64::MAX,
    ensures
        t.toggled(n1).toggled(n2) == t.started(n1).ended(n2),
        t.toggled(n1).toggled(n2).total_duration == t.total_duration + (n2 - n1),
        t.toggled(n1).toggled(n2).total_duration >= t.total_duration,
        !t.toggled(n1).toggled(n2).is_working(),
{
    assert(t.toggled(n1).toggled(n2) =~= t.started(n1).ended(n2));
}

/// The item after working through a whole sequence of sessions, each a
/// pair of a start instant and a stop instant, via the timer toggle.
pub open spec fn after_sessions(t: TodoV, sessions: Seq<(u64, u64)>) -> TodoV
    decreases sessions.len(),
{
    if sessions.len() == 0 {
        t
    } else {
        after_sessions(t.toggled(sessions[0].0).toggled(sessions[0].1), sessions.drop_first())
    }
}

/// Each session runs forward in time and its credit still fits the
/// counter when it is added.
pub open spec fn sessions_ok(t: TodoV, sessions: Seq<(u64, u64)>) -> bool
    decreases sessions.len(),
{
    if sessions.len() == 0 {
        true
    } else {
        &&& sessions[0].0 <= sessions[0].1
        &&& t.total_duration + (sessions[0].1 - sessions[0].0) <= u64::MAX
        &&& sessions_ok(t.toggled(sessions[0].0).toggled(sessions[0].1), sessions.drop_first())
    }
}

/// The sum of the session lengths.
pub open spec fn sessions_sum(sessions: Seq<(u64, u64)>) -> int
    decreases sessions.len(),
{
    if sessions.len() == 0 {
        0
    } else {
        (sessions[0].1 - sessions[0].0) + sessions_sum(sessions.drop_first())
    }
}

/// After any number of completed sessions worked from a stopped state,
/// the counter holds exactly the old total plus the sum of all completed
/// session lengths: it never decreases, and the item ends stopped.
pub proof fn lemma_sessions_accumulate(t: TodoV, sessions: Seq<(u64, u64)>)
    requires
        !t.is_working(),
        sessions_ok(t, sessions),
    ensures
        after_sessions(t, sessions).total_duration == t.total_duration + sessions_sum(sessions),
        after_sessions(t, sessions).total_duration >= t.total_duration,
        !after_sessions(t, sessions).is_working(),
    decreases sessions.len(),
{
    if sessions.len() > 0 {
        lemma_toggle_work_pairing(t, sessions[0].0, sessions[0].1);
        lemma_sessions_accumulate(
            t.toggled(sessions[0].0).toggled(sessions[0].1),
            sessions.drop_first(),
        );
    }
}

/// Completing a working item stops the timer first: afterwards no session
/// is open, the item is completed, and the counter reflects the just-ended
/// session.
pub proof fn lemma_complete_stops_timer(t: TodoV, now: u64)
    requires
        t.clock_ok(now),
        t.is_working(),
        !t.completed,
    ensures
        !t.completion_toggled(now).is_working(),
        t.completion_toggled(now).completed,
        t.completion_toggled(now).total_duration == t.total_duration + (now
            - t.start_time.unwrap()),
{
}

} // verus!
