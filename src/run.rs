use vstd::prelude::*;
use crate::command::{command_of, parse_command, ArgError, Command};
use crate::store::{
    add_todo, after_select, after_write, check_todo, init_database, list_all_todos, list_todos,
    listed_all, listed_pending, Arg, Sent, Store, StoreError, CHECK_TODO, CREATE_TABLE,
    INSERT_TODO,
};
use crate::todo::Todo;

verus! {

/// Why a run of the tool failed.
#[derive(Debug, Clone, PartialEq, Eq)]
pub enum RunError {
    /// The arguments select no command that can run.
    Argument(ArgError),
    /// The store refused the command.
    Store(StoreError),
}

/// The text of each string.
pub open spec fn texts(v: Seq<String>) -> Seq<Seq<char>> {
    v.map_values(|s: String| s@)
}

/// The lines shown for the records, one each, in the same order.
pub open spec fn lines(ts: Seq<Todo>) -> Seq<Seq<char>> {
    ts.map_values(|t: Todo| t.line())
}

/// The line that `help` shows.
pub open spec fn usage() -> Seq<char> {
    "Usage: help"@
}

/// What running `cmd` does: `before` and `after` are the statements handed to
/// the store before and after it, `ok` whether it succeeded, and `out` the
/// lines it shows when it did.
pub open spec fn outcome(
    cmd: Command,
    before: Seq<Sent>,
    after: Seq<Sent>,
    ok: bool,
    out: Seq<Seq<char>>,
) -> bool {
    match cmd {
        Command::Help => after == before && ok && out == seq![usage()],
        Command::Init => after == after_write(before, CREATE_TABLE@, Arg::Nothing, ok) && (ok
            ==> out.len() == 0),
        Command::Add(t) => after == after_write(before, INSERT_TODO@, Arg::Text(t@), ok) && (ok
            ==> out.len() == 0),
        Command::Check(id) => after == after_write(before, CHECK_TODO@, Arg::Int(id), ok) && (ok
            ==> out.len() == 0),
        Command::All => after_select(before, after, ok) && (ok ==> out == lines(
            listed_all(after.last().rows),
        )),
        Command::List => after_select(before, after, ok) && (ok ==> out == lines(
            listed_pending(after.last().rows),
        )),
    }
}

/// The kind of error that running `cmd` can fail with.
pub open spec fn error_fits(cmd: Command, e: StoreError) -> bool {
    match cmd {
        Command::Help => false,
        Command::Init => e is Schema,
        Command::Add(_) | Command::Check(_) => e is Write,
        Command::List | Command::All => e is Read,
    }
}

/// The lines of a result, or none for an error.
pub open spec fn shown<E>(r: Result<Vec<String>, E>) -> Seq<Seq<char>> {
    match r {
        Ok(v) => texts(v@),
        Err(_) => Seq::empty(),
    }
}

/// The lines shown for the records, one each, in the same order.
pub fn render_lines(todos: &Vec<Todo>) -> (r: Vec<String>)
    ensures
        texts(r@) == lines(todos@),
{
    let mut r: Vec<String> = Vec::new();
    let mut i: usize = 0;
    while i < todos.len()
        invariant
            i <= todos@.len(),
            r@.len() == i,
            texts(r@) == lines(todos@.subrange(0, i as int)),
        decreases todos@.len() - i,
    {
        let line = todos[i].to_line();
        let ghost prev = r@;
        r.push(line);
        proof {
            let done = todos@.subrange(0, i + 1);
            assert forall|k: int| 0 <= k < r@.len() implies texts(r@)[k] == lines(done)[k] by {
                if k < i {
                    assert(texts(prev)[k] == lines(todos@.subrange(0, i as int))[k]);
                }
            }
            assert(texts(r@) =~= lines(done));
        }
        i = i + 1;
    }
    assert(todos@.subrange(0, i as int) =~= todos@);
    r
}

/// Runs one command against the store and gives the lines it shows.
pub fn run_command(cmd: Command, store: &mut Store) -> (r: Result<Vec<String>, StoreError>)
    ensures
        final(store).path == old(store).path,
        outcome(cmd, old(store).sent@, final(store).sent@, r is Ok, shown(r)),
        r is Err ==> error_fits(cmd, r->Err_0),
{
    match cmd {
        Command::Help => Ok(help_lines()),
        Command::Init => {
            init_database(store)?;
            Ok(Vec::new())
        },
        Command::List => {
            let todos = list_todos(store)?;
            Ok(render_lines(&todos))
        },
        Command::All => {
            let todos = list_all_todos(store)?;
            Ok(render_lines(&todos))
        },
        Command::Check(id) => {
            check_todo(store, id)?;
            Ok(Vec::new())
        },
        Command::Add(text) => {
            add_todo(store, text.as_str())?;
            Ok(Vec::new())
        },
    }
}

/// The usage text, as lines.
fn help_lines() -> (r: Vec<String>)
    ensures
        texts(r@) == seq![usage()],
{
    let mut r: Vec<String> = Vec::new();
    r.push(String::from_str("Usage: help"));
    assert(texts(r@) =~= seq![usage()]);
    r
}

/// Runs the command that `name` and the flags select against the store.
/// Arguments that select no command are refused, and nothing is handed to the
/// store for them.
pub fn run(store: &mut Store, name: String, text: Option<String>, id: Option<i32>) -> (r: Result<
    Vec<String>,
    RunError,
>)
    ensures
        final(store).path == old(store).path,
        match command_of(name, text, id) {
            Err(e) => r == Err::<Vec<String>, RunError>(RunError::Argument(e))
                && final(store).sent@ == old(store).sent@,
            Ok(cmd) => outcome(cmd, old(store).sent@, final(store).sent@, r is Ok, shown(r)) && (
            r is Err ==> r->Err_0 is Store && error_fits(cmd, r->Err_0->Store_0)),
        },
{
    let cmd = match parse_command(name, text, id) {
        Ok(c) => c,
        Err(e) => {
            return Err(RunError::Argument(e));
        },
    };
    match run_command(cmd, store) {
        Ok(out) => Ok(out),
        Err(e) => Err(RunError::Store(e)),
    }
}

} // verus!
