use vstd::prelude::*;
use rusqlite::Connection;
use crate::todo::Todo;

verus! {

#[verifier::external_type_specification]
#[verifier::external_body]
pub struct ExConnection(rusqlite::Connection);

#[verifier::external_type_specification]
#[verifier::external_body]
pub struct ExSqlError(rusqlite::Error);

/// The parameter bound to a statement handed to the engine.
pub enum Arg {
    Nothing,
    Int(i32),
    Text(Seq<char>),
}

/// One statement handed to the engine: its text, its parameter, whether the
/// engine carried it out, and the rows it read (none for a statement that
/// reads nothing or failed).
pub struct Sent {
    pub sql: Seq<char>,
    pub arg: Arg,
    pub ok: bool,
    pub rows: Seq<(i32, String, bool)>,
}

/// An open store: the connection, the path it was opened at, and every
/// statement handed to it since, in order.
pub struct Store {
    pub conn: Connection,
    pub path: Ghost<Seq<char>>,
    pub sent: Ghost<Seq<Sent>>,
}

/// The log after one more statement that reads no rows.
pub open spec fn after_write(before: Seq<Sent>, sql: Seq<char>, arg: Arg, ok: bool) -> Seq<Sent> {
    before.push(Sent { sql, arg, ok, rows: Seq::empty() })
}

/// Whether `after` is `before` with one more statement, the query of all
/// records, whose outcome is `ok`.
pub open spec fn after_select(before: Seq<Sent>, after: Seq<Sent>, ok: bool) -> bool {
    &&& after.len() == before.len() + 1
    &&& after.drop_last() == before
    &&& after.last().sql == SELECT_TODOS@
    &&& after.last().arg == Arg::Nothing
    &&& after.last().ok == ok
    &&& !ok ==> after.last().rows.len() == 0
}

/// How a command on the store failed; each carries the engine's message.
#[derive(Debug, Clone, PartialEq, Eq)]
pub enum StoreError {
    /// The store could not be opened.
    Open(String),
    /// The table could not be created.
    Schema(String),
    /// A record could not be added or changed.
    Write(String),
    /// The records could not be read.
    Read(String),
}

/// Creates the table of records unless it exists.
pub const CREATE_TABLE: &'static str = "CREATE TABLE IF NOT EXISTS todos (
            id integer PRIMARY KEY,
            todo varchar(255) NOT NULL,
            checked BOOL DEFAULT false)";

/// Adds a record with its text; the id and the flag take their defaults.
pub const INSERT_TODO: &'static str = "INSERT INTO todos (todo) VALUES (?1)";

/// Marks the record with the given id as done.
pub const CHECK_TODO: &'static str = "UPDATE todos SET checked = true WHERE id = ?1";

/// Reads every record, by ascending id.
pub const SELECT_TODOS: &'static str = "SELECT id, todo, checked FROM todos ORDER BY id";

/// Relies on `rusqlite::Connection::open`: opens the database file at the
/// path, creating it when absent; nothing has been sent to it yet.
#[verifier::external_body]
fn open_connection(path: &str) -> (r: Result<Store, rusqlite::Error>)
    ensures
        r is Ok ==> r->Ok_0.path@ == path@ && r->Ok_0.sent@ == Seq::<Sent>::empty(),
{
    Connection::open(path).map(|conn| Store { conn, path: Ghost(path@), sent: Ghost(Seq::empty()) })
}

/// Relies on `rusqlite::Connection::execute_batch`: hands the statement to
/// the engine with no parameter; `Ok` when the engine carried it out.
#[verifier::external_body]
fn execute_plain(store: &mut Store, sql: &str) -> (r: Result<(), rusqlite::Error>)
    ensures
        final(store).path == old(store).path,
        final(store).sent@ == after_write(old(store).sent@, sql@, Arg::Nothing, r is Ok),
{
    store.conn.execute_batch(sql)
}

/// Relies on `rusqlite::Connection::execute`: hands the statement to the
/// engine with the integer bound as `?1`; `Ok` with the count of changed rows
/// when the engine carried it out.
#[verifier::external_body]
fn execute_with_int(store: &mut Store, sql: &str, arg: i32) -> (r: Result<usize, rusqlite::Error>)
    ensures
        final(store).path == old(store).path,
        final(store).sent@ == after_write(old(store).sent@, sql@, Arg::Int(arg), r is Ok),
{
    store.conn.execute(sql, [arg])
}

/// Relies on `rusqlite::Connection::execute`: hands the statement to the
/// engine with the text bound as `?1`; `Ok` with the count of changed rows
/// when the engine carried it out.
#[verifier::external_body]
fn execute_with_text(store: &mut Store, sql: &str, arg: &str) -> (r: Result<
    usize,
    rusqlite::Error,
>)
    ensures
        final(store).path == old(store).path,
        final(store).sent@ == after_write(old(store).sent@, sql@, Arg::Text(arg@), r is Ok),
{
    store.conn.execute(sql, [arg])
}

/// Relies on `rusqlite::Connection::prepare`, `Statement::query_map` and
/// `Row::get`: hands the query to the engine with no parameter, and gives the
/// first three columns of each row it yields, in the order it yields them.
#[verifier::external_body]
fn query_triples(store: &mut Store, sql: &str) -> (r: Result<
    Vec<(i32, String, bool)>,
    rusqlite::Error,
>)
    ensures
        final(store).path == old(store).path,
        final(store).sent@ == old(store).sent@.push(
            (Sent {
                sql: sql@,
                arg: Arg::Nothing,
                ok: r is Ok,
                rows: if r is Ok {
                    r->Ok_0@
                } else {
                    Seq::empty()
                },
            }),
        ),
{
    let mut stmt = store.conn.prepare(sql)?;
    let rows = stmt.query_map([], |row| Ok((row.get(0)?, row.get(1)?, row.get(2)?)))?;
    rows.collect()
}

/// Relies on `rusqlite::Error`'s `Display` (through `ToString`) for the
/// engine's message.
#[verifier::external_body]
fn message_of(e: &rusqlite::Error) -> String {
    e.to_string()
}

/// Opens the store at `path`, creating the file when absent.
pub fn open_store(path: &str) -> (r: Result<Store, StoreError>)
    ensures
        r is Ok ==> r->Ok_0.path@ == path@ && r->Ok_0.sent@ == Seq::<Sent>::empty(),
        r is Err ==> r->Err_0 is Open,
{
    match open_connection(path) {
        Ok(s) => Ok(s),
        Err(e) => Err(StoreError::Open(message_of(&e))),
    }
}

/// Creates the table of records unless it is there already: hands the engine
/// `CREATE_TABLE`, and fails exactly when the engine does.
pub fn init_database(store: &mut Store) -> (r: Result<(), StoreError>)
    ensures
        final(store).path == old(store).path,
        final(store).sent@ == after_write(old(store).sent@, CREATE_TABLE@, Arg::Nothing, r is Ok),
        r is Err ==> r->Err_0 is Schema,
{
    match execute_plain(store, CREATE_TABLE) {
        Ok(()) => Ok(()),
        Err(e) => Err(StoreError::Schema(message_of(&e))),
    }
}

/// Adds an unchecked record with this text: hands the engine `INSERT_TODO`
/// with the text bound as its parameter, and fails exactly when the engine
/// does. The store picks the id.
pub fn add_todo(store: &mut Store, text: &str) -> (r: Result<(), StoreError>)
    ensures
        final(store).path == old(store).path,
        final(store).sent@ == after_write(old(store).sent@, INSERT_TODO@, Arg::Text(text@), r is Ok),
        r is Err ==> r->Err_0 is Write,
{
    match execute_with_text(store, INSERT_TODO, text) {
        Ok(_) => Ok(()),
        Err(e) => Err(StoreError::Write(message_of(&e))),
    }
}

/// Marks the record with this id as done: hands the engine `CHECK_TODO` with
/// the id bound as its parameter, and succeeds whenever the engine does,
/// however many rows changed (none for an id that no record has).
pub fn check_todo(store: &mut Store, id: i32) -> (r: Result<(), StoreError>)
    ensures
        final(store).path == old(store).path,
        final(store).sent@ == after_write(old(store).sent@, CHECK_TODO@, Arg::Int(id), r is Ok),
        r is Err ==> r->Err_0 is Write,
{
    match execute_with_int(store, CHECK_TODO, id) {
        Ok(_) => Ok(()),
        Err(e) => Err(StoreError::Write(message_of(&e))),
    }
}

/// The record that a row of the table holds.
pub open spec fn todo_of(row: (i32, String, bool)) -> Todo {
    Todo { id: row.0, todo: row.1, checked: row.2 }
}

/// Whether a record is still to be done.
pub open spec fn is_unchecked(t: Todo) -> bool {
    !t.checked
}

/// The records that the rows hold, in the same order.
pub fn todos_from_rows(rows: &Vec<(i32, String, bool)>) -> (r: Vec<Todo>)
    ensures
        r@ == rows@.map_values(|row: (i32, String, bool)| todo_of(row)),
{
    let mut r: Vec<Todo> = Vec::new();
    let mut i: usize = 0;
    while i < rows.len()
        invariant
            i <= rows@.len(),
            r@ == rows@.subrange(0, i as int).map_values(|row: (i32, String, bool)| todo_of(row)),
        decreases rows@.len() - i,
    {
        let row = &rows[i];
        r.push(Todo { id: row.0, todo: row.1.clone(), checked: row.2 });
        i = i + 1;
        assert(r@ =~= rows@.subrange(0, i as int).map_values(
            |row: (i32, String, bool)| todo_of(row),
        ));
    }
    assert(rows@.subrange(0, i as int) =~= rows@);
    r
}

/// The records still to be done, in the order given.
pub fn unchecked_only(todos: &Vec<Todo>) -> (r: Vec<Todo>)
    ensures
        r@ == todos@.filter(|t: Todo| is_unchecked(t)),
{
    let mut r: Vec<Todo> = Vec::new();
    let mut i: usize = 0;
    while i < todos.len()
        invariant
            i <= todos@.len(),
            r@ == todos@.subrange(0, i as int).filter(|t: Todo| is_unchecked(t)),
        decreases todos@.len() - i,
    {
        proof {
            reveal(Seq::filter);
            assert(todos@.subrange(0, i + 1).drop_last() =~= todos@.subrange(0, i as int));
        }
        if !todos[i].checked {
            let t = &todos[i];
            r.push(Todo { id: t.id, todo: t.todo.clone(), checked: t.checked });
        }
        i = i + 1;
    }
    assert(todos@.subrange(0, i as int) =~= todos@);
    r
}

/// The records that the full listing gives for the rows read.
pub open spec fn listed_all(rows: Seq<(i32, String, bool)>) -> Seq<Todo> {
    rows.map_values(|row: (i32, String, bool)| todo_of(row))
}

/// The records that the listing of unchecked records gives for the rows read.
pub open spec fn listed_pending(rows: Seq<(i32, String, bool)>) -> Seq<Todo> {
    listed_all(rows).filter(|t: Todo| is_unchecked(t))
}

/// Every record in the store, by id: hands the engine `SELECT_TODOS`, fails
/// exactly when the engine does, and else gives a record for each row read.
pub fn list_all_todos(store: &mut Store) -> (r: Result<Vec<Todo>, StoreError>)
    ensures
        final(store).path == old(store).path,
        after_select(old(store).sent@, final(store).sent@, r is Ok),
        r is Ok ==> r->Ok_0@ == listed_all(final(store).sent@.last().rows),
        r is Err ==> r->Err_0 is Read,
{
    let ghost before = store.sent@;
    let q = query_triples(store, SELECT_TODOS);
    assert(store.sent@.drop_last() =~= before);
    match q {
        Ok(rows) => Ok(todos_from_rows(&rows)),
        Err(e) => Err(StoreError::Read(message_of(&e))),
    }
}

/// The records of the store that are still to be done, by id: the same query
/// as `list_all_todos`, keeping the unchecked records of the rows read.
pub fn list_todos(store: &mut Store) -> (r: Result<Vec<Todo>, StoreError>)
    ensures
        final(store).path == old(store).path,
        after_select(old(store).sent@, final(store).sent@, r is Ok),
        r is Ok ==> r->Ok_0@ == listed_pending(final(store).sent@.last().rows),
        r is Err ==> r->Err_0 is Read,
{
    match list_all_todos(store) {
        Ok(all) => Ok(unchecked_only(&all)),
        Err(e) => Err(e),
    }
}

/// Of the rows that one query reads, a record that is checked is given by the
/// full listing and not by the listing of unchecked records; one that is not
/// checked is given by both.
pub proof fn lemma_checked_listed_only_in_all(rows: Seq<(i32, String, bool)>, k: int)
    requires
        0 <= k < rows.len(),
    ensures
        listed_all(rows).contains(todo_of(rows[k])),
        listed_pending(rows).contains(todo_of(rows[k])) <==> !rows[k].2,
{
    let all = listed_all(rows);
    assert(all[k] == todo_of(rows[k]));
    let pending = all.filter(|t: Todo| is_unchecked(t));
    if !all[k].checked {
        all.lemma_filter_contains(|t: Todo| is_unchecked(t), k);
    }
    if pending.contains(all[k]) {
        let j = choose|j: int| 0 <= j < pending.len() && pending[j] == all[k];
        all.lemma_filter_pred(|t: Todo| is_unchecked(t), j);
    }
}

} // verus!
