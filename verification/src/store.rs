//! The store handle: the single connection to the embedded SQLite file, the
//! idempotent schema migrations, and the trusted boundary to the `rusqlite`
//! driver.
//!
//! Every call into the driver goes through one of the `external_body`
//! wrappers here; they convert between the library's plain values and the
//! driver's, and claim nothing about the database's contents, which live
//! outside the verified world.

use vstd::prelude::*;

use rusqlite::OptionalExtension;

use crate::error::Result;
use crate::error::TaskyError;

verus! {

/// The driver's connection type, carried through opaquely.
#[verifier::external_type_specification]
#[verifier::external_body]
pub struct ExConnection(rusqlite::Connection);

/// The driver's dynamically typed SQL value, carried through opaquely.
#[verifier::external_type_specification]
#[verifier::external_body]
pub struct ExSqlValue(rusqlite::types::Value);

/// A value bound to a `?` placeholder of a statement. Queries are built from
/// a clause string and a list of these; values are never spliced into the
/// SQL text itself.
#[derive(Debug, Clone)]
pub enum SqlParam {
    Int(i64),
    Text(String),
    Null,
}

/// One row of the todos table, as the plain values the driver handed back:
/// column order id, title, description, priority, status, created_at,
/// updated_at, due_date.
#[derive(Debug, Clone)]
pub struct RawRow {
    pub id: i64,
    pub title: String,
    pub description: Option<String>,
    pub priority: i64,
    pub status: i64,
    pub created_at: String,
    pub updated_at: String,
    pub due_date: Option<String>,
}

// ---------------------------------------------------------------------------
// Trusted wrappers around the driver
// ---------------------------------------------------------------------------

/// Relies on `rusqlite::types::Value`: each parameter moved into the
/// driver's value of the same shape (integer, text or null), in order.
#[verifier::external_body]
fn to_sql_values(params: &Vec<SqlParam>) -> (r: Vec<rusqlite::types::Value>)
    ensures
        r@.len() == params@.len(),
{
    params.iter().map(|p| match p {
        SqlParam::Int(v) => rusqlite::types::Value::Integer(*v),
        SqlParam::Text(s) => rusqlite::types::Value::Text(s.clone()),
        SqlParam::Null => rusqlite::types::Value::Null,
    }).collect()
}

/// Relies on `rusqlite::Connection::open` and
/// `Connection::execute_batch`: a connection to the database file at `path`,
/// with foreign-key enforcement switched on.
#[verifier::external_body]
pub(crate) fn open_connection(path: &str) -> core::result::Result<
    rusqlite::Connection,
    rusqlite::Error,
> {
    let conn = rusqlite::Connection::open(path)?;
    conn.execute_batch("PRAGMA foreign_keys = ON;")?;
    Ok(conn)
}

/// Relies on `rusqlite::Connection::open_in_memory` and
/// `Connection::execute_batch`: a connection to a fresh in-memory database,
/// with foreign-key enforcement switched on.
#[verifier::external_body]
pub(crate) fn open_in_memory_connection() -> core::result::Result<
    rusqlite::Connection,
    rusqlite::Error,
> {
    let conn = rusqlite::Connection::open_in_memory()?;
    conn.execute_batch("PRAGMA foreign_keys = ON;")?;
    Ok(conn)
}

/// Relies on `rusqlite::Connection::execute`: runs one statement with the
/// given bound parameters; on success the driver reports how many rows were
/// inserted, updated or deleted.
#[verifier::external_body]
pub(crate) fn exec_sql(
    conn: &rusqlite::Connection,
    sql: &str,
    params: &Vec<SqlParam>,
) -> core::result::Result<usize, rusqlite::Error> {
    conn.execute(sql, rusqlite::params_from_iter(to_sql_values(params)))
}

/// Relies on `rusqlite::Statement::query_map`: runs one SELECT over the
/// eight todo columns and hands back every row as plain values, in the order
/// the statement produced them.
#[verifier::external_body]
pub(crate) fn query_rows(
    conn: &rusqlite::Connection,
    sql: &str,
    params: &Vec<SqlParam>,
) -> core::result::Result<Vec<RawRow>, rusqlite::Error> {
    let mut stmt = conn.prepare(sql)?;
    let rows = stmt.query_map(rusqlite::params_from_iter(to_sql_values(params)), |row| {
        Ok(RawRow {
            id: row.get(0)?,
            title: row.get(1)?,
            description: row.get(2)?,
            priority: row.get(3)?,
            status: row.get(4)?,
            created_at: row.get(5)?,
            updated_at: row.get(6)?,
            due_date: row.get(7)?,
        })
    })?;
    rows.collect()
}

/// Relies on `rusqlite::Statement::query_row` and
/// `rusqlite::OptionalExtension::optional`: like `query_rows` for a SELECT
/// expected to produce at most one row; none is not an error.
#[verifier::external_body]
pub(crate) fn query_opt_row(
    conn: &rusqlite::Connection,
    sql: &str,
    params: &Vec<SqlParam>,
) -> core::result::Result<Option<RawRow>, rusqlite::Error> {
    let mut stmt = conn.prepare(sql)?;
    stmt.query_row(rusqlite::params_from_iter(to_sql_values(params)), |row| {
        Ok(RawRow {
            id: row.get(0)?,
            title: row.get(1)?,
            description: row.get(2)?,
            priority: row.get(3)?,
            status: row.get(4)?,
            created_at: row.get(5)?,
            updated_at: row.get(6)?,
            due_date: row.get(7)?,
        })
    }).optional()
}

/// Relies on `rusqlite::Connection::query_row`: runs a single-column
/// integer SELECT and hands back the one value it produced.
#[verifier::external_body]
pub(crate) fn query_count(
    conn: &rusqlite::Connection,
    sql: &str,
    params: &Vec<SqlParam>,
) -> core::result::Result<i64, rusqlite::Error> {
    conn.query_row(sql, rusqlite::params_from_iter(to_sql_values(params)), |row| row.get(0))
}

/// Relies on `rusqlite::Connection::last_insert_rowid`: the rowid of the
/// most recent successful INSERT on this connection.
#[verifier::external_body]
pub(crate) fn last_insert_id(conn: &rusqlite::Connection) -> i64 {
    conn.last_insert_rowid()
}

// ---------------------------------------------------------------------------
// Schema migrations
// ---------------------------------------------------------------------------

/// Whether `s` starts with prefix `p`.
pub open spec fn starts_with(s: Seq<char>, p: Seq<char>) -> bool {
    s.len() >= p.len() && s.subrange(0, p.len() as int) == p
}

/// Whether a schema statement is guarded so that re-running it against an
/// already-initialized database changes nothing: the idempotence of
/// `initialize` rests on every migration statement carrying this guard.
pub open spec fn idempotent_schema_statement(s: Seq<char>) -> bool {
    starts_with(s, "CREATE TABLE IF NOT EXISTS"@) || starts_with(s, "CREATE INDEX IF NOT EXISTS"@)
}

/// The statement creating the todos table: the eight columns, with check
/// constraints holding the persisted priority in {0, 1, 2} and the persisted
/// status in {0, 1}. The contract pins the statement text itself.
pub fn todos_table_statement() -> (r: &'static str)
    ensures
        r@ == "CREATE TABLE IF NOT EXISTS todos (
            id INTEGER PRIMARY KEY AUTOINCREMENT,
            title TEXT NOT NULL,
            description TEXT,
            priority INTEGER NOT NULL DEFAULT 1,
            status INTEGER NOT NULL DEFAULT 0,
            created_at TEXT NOT NULL,
            updated_at TEXT NOT NULL,
            due_date TEXT,
            CHECK (priority IN (0, 1, 2)),
            CHECK (status IN (0, 1))
        )"@,
        idempotent_schema_statement(r@),
{
    let s = "CREATE TABLE IF NOT EXISTS todos (
            id INTEGER PRIMARY KEY AUTOINCREMENT,
            title TEXT NOT NULL,
            description TEXT,
            priority INTEGER NOT NULL DEFAULT 1,
            status INTEGER NOT NULL DEFAULT 0,
            created_at TEXT NOT NULL,
            updated_at TEXT NOT NULL,
            due_date TEXT,
            CHECK (priority IN (0, 1, 2)),
            CHECK (status IN (0, 1))
        )";
    proof {
        reveal_strlit(
            "CREATE TABLE IF NOT EXISTS todos (
            id INTEGER PRIMARY KEY AUTOINCREMENT,
            title TEXT NOT NULL,
            description TEXT,
            priority INTEGER NOT NULL DEFAULT 1,
            status INTEGER NOT NULL DEFAULT 0,
            created_at TEXT NOT NULL,
            updated_at TEXT NOT NULL,
            due_date TEXT,
            CHECK (priority IN (0, 1, 2)),
            CHECK (status IN (0, 1))
        )",
        );
        reveal_strlit("CREATE TABLE IF NOT EXISTS");
        assert(s@.subrange(0, 26) =~= "CREATE TABLE IF NOT EXISTS"@);
    }
    s
}

/// The statements creating the four secondary indexes: one per filter and
/// sort dimension (status, priority, due date, creation time), so that every
/// supported single-predicate query is covered by an index.
pub fn index_statements() -> (r: Vec<&'static str>)
    ensures
        r@.len() == 4,
        r@[0]@ == "CREATE INDEX IF NOT EXISTS idx_todos_status ON todos(status)"@,
        r@[1]@ == "CREATE INDEX IF NOT EXISTS idx_todos_priority ON todos(priority)"@,
        r@[2]@ == "CREATE INDEX IF NOT EXISTS idx_todos_due_date ON todos(due_date)"@,
        r@[3]@ == "CREATE INDEX IF NOT EXISTS idx_todos_created_at ON todos(created_at)"@,
        forall|i: int| 0 <= i < r@.len() ==> idempotent_schema_statement(#[trigger] r@[i]@),
{
    proof {
        reveal_strlit("CREATE INDEX IF NOT EXISTS");
        reveal_strlit("CREATE INDEX IF NOT EXISTS idx_todos_status ON todos(status)");
        reveal_strlit("CREATE INDEX IF NOT EXISTS idx_todos_priority ON todos(priority)");
        reveal_strlit("CREATE INDEX IF NOT EXISTS idx_todos_due_date ON todos(due_date)");
        reveal_strlit("CREATE INDEX IF NOT EXISTS idx_todos_created_at ON todos(created_at)");
    }
    let a = "CREATE INDEX IF NOT EXISTS idx_todos_status ON todos(status)";
    let b = "CREATE INDEX IF NOT EXISTS idx_todos_priority ON todos(priority)";
    let c = "CREATE INDEX IF NOT EXISTS idx_todos_due_date ON todos(due_date)";
    let d = "CREATE INDEX IF NOT EXISTS idx_todos_created_at ON todos(created_at)";
    proof {
        assert(a@.subrange(0, 26) =~= "CREATE INDEX IF NOT EXISTS"@);
        assert(b@.subrange(0, 26) =~= "CREATE INDEX IF NOT EXISTS"@);
        assert(c@.subrange(0, 26) =~= "CREATE INDEX IF NOT EXISTS"@);
        assert(d@.subrange(0, 26) =~= "CREATE INDEX IF NOT EXISTS"@);
    }
    let mut v: Vec<&'static str> = Vec::new();
    v.push(a);
    v.push(b);
    v.push(c);
    v.push(d);
    v
}

/// Create the todos table if it does not exist yet.
fn create_todos_table(conn: &rusqlite::Connection) -> (r: Result<()>)
    ensures
        r matches Err(e) ==> e matches TaskyError::Database(_),
{
    let empty: Vec<SqlParam> = Vec::new();
    match exec_sql(conn, todos_table_statement(), &empty) {
        Ok(_) => Ok(()),
        Err(e) => Err(TaskyError::Database(e)),
    }
}

/// Create the four secondary indexes that do not exist yet.
fn create_indexes(conn: &rusqlite::Connection) -> (r: Result<()>)
    ensures
        r matches Err(e) ==> e matches TaskyError::Database(_),
{
    let stmts = index_statements();
    let empty: Vec<SqlParam> = Vec::new();
    let mut i: usize = 0;
    while i < stmts.len()
        invariant
            i <= stmts@.len(),
        decreases stmts@.len() - i,
    {
        match exec_sql(conn, stmts[i], &empty) {
            Ok(_) => (),
            Err(e) => {
                return Err(TaskyError::Database(e));
            },
        }
        i = i + 1;
    }
    Ok(())
}

/// Bring the schema up: the table, then its indexes. Every statement run
/// here is `IF NOT EXISTS`-guarded, so running this any number of times
/// against the same store produces the same schema and no error.
pub fn run_migrations(conn: &rusqlite::Connection) -> (r: Result<()>)
    ensures
        r matches Err(e) ==> e matches TaskyError::Database(_),
{
    create_todos_table(conn)?;
    create_indexes(conn)?;
    Ok(())
}

/// Drop the todos table and recreate the schema from nothing.
pub fn reset_database(conn: &rusqlite::Connection) -> (r: Result<()>)
    ensures
        r matches Err(e) ==> e matches TaskyError::Database(_),
{
    let empty: Vec<SqlParam> = Vec::new();
    match exec_sql(conn, "DROP TABLE IF EXISTS todos", &empty) {
        Ok(_) => (),
        Err(e) => {
            return Err(TaskyError::Database(e));
        },
    }
    run_migrations(conn)?;
    Ok(())
}

/// How a catalog count reads: the table exists exactly when the count is
/// positive.
fn table_counted(n: i64) -> (r: bool)
    ensures
        r == (n > 0),
{
    n > 0
}

// ---------------------------------------------------------------------------
// The store handle
// ---------------------------------------------------------------------------

/// Owns the one connection to the embedded database for the life of the
/// process's service instance.
pub struct Database {
    conn: rusqlite::Connection,
}

impl Database {
    /// Open (or create) the database file at `path`.
    pub fn new(path: &str) -> (r: Result<Database>)
        ensures
            r matches Err(e) ==> e matches TaskyError::Database(_),
    {
        match open_connection(path) {
            Ok(conn) => Ok(Database { conn }),
            Err(e) => Err(TaskyError::Database(e)),
        }
    }

    /// Open a fresh in-memory database.
    pub fn in_memory() -> (r: Result<Database>)
        ensures
            r matches Err(e) ==> e matches TaskyError::Database(_),
    {
        match open_in_memory_connection() {
            Ok(conn) => Ok(Database { conn }),
            Err(e) => Err(TaskyError::Database(e)),
        }
    }

    /// The owned connection.
    pub fn conn(&self) -> &rusqlite::Connection {
        &self.conn
    }

    /// The owned connection, mutably.
    pub fn conn_mut(&mut self) -> &mut rusqlite::Connection {
        &mut self.conn
    }

    /// Idempotent schema creation: see `run_migrations`.
    pub fn initialize(&self) -> (r: Result<()>)
        ensures
            r matches Err(e) ==> e matches TaskyError::Database(_),
    {
        run_migrations(&self.conn)
    }

    /// Whether the primary table exists: the store counts as initialized
    /// exactly when the catalog counts at least one table of that name, per
    /// `table_counted`; a store that cannot be asked counts as uninitialized.
    pub fn is_initialized(&self) -> bool {
        let empty: Vec<SqlParam> = Vec::new();
        match query_count(
            &self.conn,
            "SELECT COUNT(*) FROM sqlite_master WHERE type='table' AND name='todos'",
            &empty,
        ) {
            Ok(n) => table_counted(n),
            Err(_) => false,
        }
    }

    /// Reinitialize the schema in place on an existing, possibly damaged
    /// file: the in-place-reuse stage of the recovery protocol.
    pub fn reinitialize_in_place(&self) -> (r: Result<()>)
        ensures
            r matches Err(e) ==> e matches TaskyError::Database(_),
    {
        let empty: Vec<SqlParam> = Vec::new();
        match exec_sql(&self.conn, "DROP TABLE IF EXISTS todos", &empty) {
            Ok(_) => (),
            Err(_) => (),  // a missing table is no obstacle to recreating it
        }
        match exec_sql(&self.conn, "DROP TABLE IF EXISTS sqlite_sequence", &empty) {
            Ok(_) => (),
            Err(_) => (),  // ditto for the autoincrement bookkeeping table
        }
        run_migrations(&self.conn)
    }
}

} // verus!
