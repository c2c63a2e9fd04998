//! The persisted JSON document: `{"projects":[{"name":…,"todos":[…]}]}`.
//!
//! [`doc_text`] pins, character by character, the canonical text that a
//! project list serialises to, timer fields included, and
//! [`encode_app_data`] is proved to produce exactly that text. Reading a
//! document back is left to the persistence boundary around the library.

use vstd::prelude::*;
use vstd::string::{StringExecFns, StrSliceExecFns};
use crate::model::{Todo, TodoV, Project, ProjectV, AppData, todo_views, project_views};
use crate::text::{dec_str, push_decimal, push_char};

verus! {

/// How one character is written inside a JSON string: quotes, backslashes
/// and the common control characters are escaped, everything else stands
/// for itself.
pub open spec fn esc_char(c: char) -> Seq<char> {
    if c == '"' {
        seq!['\\', '"']
    } else if c == '\\' {
        seq!['\\', '\\']
    } else if c == '\n' {
        seq!['\\', 'n']
    } else if c == '\r' {
        seq!['\\', 'r']
    } else if c == '\t' {
        seq!['\\', 't']
    } else {
        seq![c]
    }
}

/// A whole string body, escaped character by character.
pub open spec fn escaped(s: Seq<char>) -> Seq<char>
    decreases s.len(),
{
    if s.len() == 0 {
        Seq::<char>::empty()
    } else {
        escaped(s.drop_last()) + esc_char(s.last())
    }
}

/// `true` or `false`.
pub open spec fn bool_text(b: bool) -> Seq<char> {
    if b {
        "true"@
    } else {
        "false"@
    }
}

/// A number or `null`.
pub open spec fn opt_text(o: Option<u64>) -> Seq<char> {
    match o {
        Some(n) => dec_str(n as nat),
        None => "null"@,
    }
}

/// One to-do item as a JSON object, fields in declaration order.
pub open spec fn todo_text(t: TodoV) -> Seq<char> {
    "{\"title\":\""@ + escaped(t.title) + "\",\"description\":\""@ + escaped(t.description)
        + "\",\"completed\":"@ + bool_text(t.completed) + ",\"start_time\":"@ + opt_text(
        t.start_time,
    ) + ",\"end_time\":"@ + opt_text(t.end_time) + ",\"total_duration\":"@ + dec_str(
        t.total_duration as nat,
    ) + "}"@
}

/// A comma-separated list of to-do objects.
pub open spec fn todos_text(ts: Seq<TodoV>) -> Seq<char>
    decreases ts.len(),
{
    if ts.len() == 0 {
        Seq::<char>::empty()
    } else if ts.len() == 1 {
        todo_text(ts[0])
    } else {
        todos_text(ts.drop_last()) + ","@ + todo_text(ts.last())
    }
}

/// One project as a JSON object.
pub open spec fn project_text(p: ProjectV) -> Seq<char> {
    "{\"name\":\""@ + escaped(p.name) + "\",\"todos\":["@ + todos_text(p.todos) + "]}"@
}

/// A comma-separated list of project objects.
pub open spec fn projects_text(ps: Seq<ProjectV>) -> Seq<char>
    decreases ps.len(),
{
    if ps.len() == 0 {
        Seq::<char>::empty()
    } else if ps.len() == 1 {
        project_text(ps[0])
    } else {
        projects_text(ps.drop_last()) + ","@ + project_text(ps.last())
    }
}

/// The whole persisted document.
pub open spec fn doc_text(ps: Seq<ProjectV>) -> Seq<char> {
    "{\"projects\":["@ + projects_text(ps) + "]}"@
}

/// Appends the escaped body of `s`.
fn push_escaped(s: &str, out: &mut String)
    ensures
        final(out)@ == old(out)@ + escaped(s@),
{
    let n = s.unicode_len();
    let mut i: usize = 0;
    while i < n
        invariant
            n == s@.len(),
            i <= n,
            out@ == old(out)@ + escaped(s@.take(i as int)),
        decreases n - i,
    {
        let c = s.get_char(i);
        if c == '"' {
            push_char(out, '\\');
            push_char(out, '"');
        } else if c == '\\' {
            push_char(out, '\\');
            push_char(out, '\\');
        } else if c == '\n' {
            push_char(out, '\\');
            push_char(out, 'n');
        } else if c == '\r' {
            push_char(out, '\\');
            push_char(out, 'r');
        } else if c == '\t' {
            push_char(out, '\\');
            push_char(out, 't');
        } else {
            push_char(out, c);
        }
        i = i + 1;
        proof {
            assert(s@.take(i as int).drop_last() =~= s@.take(i - 1));
            assert(s@.take(i as int).last() == s@[i - 1]);
            assert(out@ =~= old(out)@ + escaped(s@.take(i as int)));
        }
    }
    proof {
        assert(s@.take(n as int) =~= s@);
    }
}

/// Appends `null` or the number.
fn push_opt(o: Option<u64>, out: &mut String)
    ensures
        final(out)@ == old(out)@ + opt_text(o),
{
    match o {
        Some(n) => push_decimal(n, out),
        None => out.append("null"),
    }
}

/// Appends one to-do object; see [`todo_text`].
fn push_todo(t: &Todo, out: &mut String)
    ensures
        final(out)@ == old(out)@ + todo_text(t@),
{
    out.append("{\"title\":\"");
    push_escaped(t.title.as_str(), out);
    out.append("\",\"description\":\"");
    push_escaped(t.description.as_str(), out);
    out.append("\",\"completed\":");
    out.append(if t.completed { "true" } else { "false" });
    out.append(",\"start_time\":");
    push_opt(t.start_time, out);
    out.append(",\"end_time\":");
    push_opt(t.end_time, out);
    out.append(",\"total_duration\":");
    push_decimal(t.total_duration, out);
    out.append("}");
    proof {
        assert(out@ =~= old(out)@ + todo_text(t@));
    }
}

/// Appends one project object; see [`project_text`].
fn push_project(p: &Project, out: &mut String)
    ensures
        final(out)@ == old(out)@ + project_text(p@),
{
    out.append("{\"name\":\"");
    push_escaped(p.name.as_str(), out);
    out.append("\",\"todos\":[");
    let n = p.todos.len();
    let mut i: usize = 0;
    while i < n
        invariant
            n == p.todos.len(),
            i <= n,
            out@ == old(out)@ + "{\"name\":\""@ + escaped(p.name@) + "\",\"todos\":["@
                + todos_text(todo_views(p.todos@).take(i as int)),
        decreases n - i,
    {
        if i > 0 {
            out.append(",");
        }
        push_todo(&p.todos[i], out);
        i = i + 1;
        proof {
            let tv = todo_views(p.todos@);
            assert(tv.take(i as int).drop_last() =~= tv.take(i - 1));
            assert(tv.take(i as int).last() == p.todos@[i - 1]@);
            assert(out@ =~= old(out)@ + "{\"name\":\""@ + escaped(p.name@) + "\",\"todos\":["@
                + todos_text(tv.take(i as int)));
        }
    }
    out.append("]}");
    proof {
        assert(todo_views(p.todos@).take(n as int) =~= todo_views(p.todos@));
        assert(out@ =~= old(out)@ + project_text(p@));
    }
}

/// Serialises a project list to the canonical document text.
pub fn encode_projects(projects: &Vec<Project>) -> (r: String)
    ensures
        r@ == doc_text(project_views(projects@)),
{
    let mut out = String::new();
    out.append("{\"projects\":[");
    let n = projects.len();
    let mut i: usize = 0;
    while i < n
        invariant
            n == projects.len(),
            i <= n,
            out@ == "{\"projects\":["@ + projects_text(project_views(projects@).take(i as int)),
        decreases n - i,
    {
        if i > 0 {
            out.append(",");
        }
        push_project(&projects[i], &mut out);
        i = i + 1;
        proof {
            let pv = project_views(projects@);
            assert(pv.take(i as int).drop_last() =~= pv.take(i - 1));
            assert(pv.take(i as int).last() == projects@[i - 1]@);
            assert(out@ =~= "{\"projects\":["@ + projects_text(pv.take(i as int)));
        }
    }
    out.append("]}");
    proof {
        assert(project_views(projects@).take(n as int) =~= project_views(projects@));
        assert(out@ =~= doc_text(project_views(projects@)));
    }
    out
}

/// Serialises the whole data set; saving writes exactly this text.
pub fn encode_app_data(d: &AppData) -> (r: String)
    ensures
        r@ == doc_text(d@),
{
    encode_projects(&d.projects)
}

} // verus!
