//! The read-mostly classroom catalog: a fixed reference table in a
//! persistent backing store, reached over a bounded connection pool. It is
//! seeded once at startup and read concurrently afterwards; this core never
//! mutates it past seeding and holds no private copy of the rows.

use vstd::prelude::*;

verus! {

use crate::RegistryError;

/// One classroom record; immutable after seeding.
pub struct Classroom {
    pub name: String,
    pub capacity: u32,
}

/// Holds the bounded r2d2 connection pool to the backing store. The pool's
/// type carries a trait bound Verus refuses to declare, so it stands here
/// behind an opaque struct instead; the wrappers below reach inside it.
#[verifier::external_body]
struct CatalogPool {
    pool: r2d2::Pool<r2d2_sqlite::SqliteConnectionManager>,
}

/// Holds one checked-out connection lease; dropping it returns the
/// connection to the pool. Opaque for the same reason as `CatalogPool`.
#[verifier::external_body]
pub struct CatalogLease {
    conn: r2d2::PooledConnection<r2d2_sqlite::SqliteConnectionManager>,
}

/// Declares r2d2_sqlite's connection manager.
#[verifier::external_type_specification]
#[verifier::external_body]
pub struct ExSqliteConnectionManager(r2d2_sqlite::SqliteConnectionManager);

/// Declares r2d2's pool error.
#[verifier::external_type_specification]
#[verifier::external_body]
pub struct ExPoolError(r2d2::Error);

/// Declares rusqlite's database error.
#[verifier::external_type_specification]
#[verifier::external_body]
pub struct ExDbError(rusqlite::Error);

/// Relies on r2d2_sqlite's `SqliteConnectionManager::memory`: a manager whose
/// connections all reach one fresh shared-cache in-memory database.
#[verifier::external_body]
fn memory_manager() -> r2d2_sqlite::SqliteConnectionManager {
    r2d2_sqlite::SqliteConnectionManager::memory()
}

/// Relies on r2d2's pool `Builder`: a pool holding at most `max_conns`
/// connections, whose checkouts wait at most `timeout_ms` milliseconds; `Err`
/// where the pool could not open its connections within that wait. The
/// builder panics on a zero size or wait, so both stay positive.
#[verifier::external_body]
fn build_pool(
    manager: r2d2_sqlite::SqliteConnectionManager,
    max_conns: u32,
    timeout_ms: u64,
) -> Result<CatalogPool, r2d2::Error>
    requires
        max_conns >= 1,
        timeout_ms >= 1,
{
    let pool = r2d2::Pool::builder()
        .max_size(max_conns)
        .connection_timeout(std::time::Duration::from_millis(timeout_ms))
        .build(manager)?;
    Ok(CatalogPool { pool })
}

/// Relies on r2d2's `Pool::get`: a connection lease, or `Err` after the pool
/// stayed exhausted for the configured wait; the wait is bounded, the call
/// does not hang.
#[verifier::external_body]
fn pool_get(pool: &CatalogPool) -> Result<CatalogLease, r2d2::Error> {
    let conn = pool.pool.get()?;
    Ok(CatalogLease { conn })
}

/// Relies on rusqlite's `Connection::execute`: runs one parameterless SQL
/// statement on the leased connection; `Ok` carries the changed-row count.
#[verifier::external_body]
fn exec_sql(conn: &CatalogLease, sql: &str) -> Result<usize, rusqlite::Error> {
    conn.conn.execute(sql, ())
}

/// Relies on rusqlite's `Connection::execute`: runs one SQL statement with a
/// text and an unsigned-integer value bound to `?1` and `?2`.
#[verifier::external_body]
fn exec_sql_text_int(
    conn: &CatalogLease,
    sql: &str,
    text: &str,
    value: u32,
) -> Result<usize, rusqlite::Error> {
    conn.conn.execute(sql, (text, value))
}

/// Relies on rusqlite's `Statement::query_map` and `Row::get`: every row the
/// query yields, read as a text column and an unsigned-integer column, in the
/// order the store returns them; `Err` where some row does not fit that
/// shape.
#[verifier::external_body]
fn query_text_int_rows(conn: &CatalogLease, sql: &str) -> Result<Vec<(String, u32)>, rusqlite::Error> {
    let mut stmt = conn.conn.prepare(sql)?;
    let rows = stmt.query_map((), |row| Ok((row.get(0)?, row.get(1)?)))?;
    rows.collect()
}

/// The classroom records that a sequence of `(name, capacity)` rows stands
/// for, one per row, in row order.
pub open spec fn classrooms_of_rows(rows: Seq<(String, u32)>) -> Seq<Classroom> {
    rows.map(|i: int, row: (String, u32)| Classroom { name: row.0, capacity: row.1 })
}

/// Turns the rows a query returned into classroom records: one record per
/// row, in row order, name and capacity taken over unchanged.
pub fn classrooms_from_rows(rows: Vec<(String, u32)>) -> (r: Vec<Classroom>)
    ensures
        r@ == classrooms_of_rows(rows@),
{
    let n = rows.len();
    let mut out: Vec<Classroom> = Vec::new();
    let mut i: usize = 0;
    while i < n
        invariant
            n == rows@.len(),
            0 <= i <= n,
            out@ == classrooms_of_rows(rows@.take(i as int)),
        decreases n - i,
    {
        let row = &rows[i];
        out.push(Classroom { name: row.0.clone(), capacity: row.1 });
        proof {
            assert(rows@.take(i + 1).drop_last() == rows@.take(i as int));
            assert(out@ =~= classrooms_of_rows(rows@.take(i + 1)));
        }
        i = i + 1;
    }
    proof {
        assert(rows@.take(n as int) == rows@);
    }
    out
}

/// The read path over the pooled backing store. Every operation checks one
/// connection out of the bounded pool and releases it on each exit path,
/// success or error, when the lease goes out of scope.
pub struct ReferenceCatalog {
    pool: CatalogPool,
}

impl ReferenceCatalog {
    /// Opens a catalog over a fresh in-memory backing store behind a bounded
    /// pool: at most `max_conns` concurrent checkouts, each waiting at most
    /// `timeout_ms` milliseconds. A pool that cannot open its connections
    /// within that wait surfaces as `ResourceExhausted`.
    pub fn open_in_memory(max_conns: u32, timeout_ms: u64) -> (r: Result<
        ReferenceCatalog,
        RegistryError,
    >)
        requires
            max_conns >= 1,
            timeout_ms >= 1,
        ensures
            r matches Err(e) ==> e == RegistryError::ResourceExhausted,
    {
        match build_pool(memory_manager(), max_conns, timeout_ms) {
            Ok(pool) => Ok(ReferenceCatalog { pool }),
            Err(_) => Err(RegistryError::ResourceExhausted),
        }
    }

    /// Checks one connection lease out of the bounded pool; dropping the
    /// lease returns the connection. A pool that stays exhausted for the
    /// whole configured wait surfaces as `ResourceExhausted` — the wait is
    /// bounded, the call does not hang.
    pub fn checkout(&self) -> (r: Result<CatalogLease, RegistryError>)
        ensures
            r matches Err(e) ==> e == RegistryError::ResourceExhausted,
    {
        match pool_get(&self.pool) {
            Ok(lease) => Ok(lease),
            Err(_) => Err(RegistryError::ResourceExhausted),
        }
    }

    /// Runs the startup seeding under one checkout: creates the classroom
    /// table, then inserts the given records in order, one statement per
    /// record; `Ok` carries the number inserted, which is every one. A
    /// checkout that times out surfaces as `ResourceExhausted`; a statement
    /// the store refuses, as `DataCorruption`. Startup-only: not meant to run
    /// concurrently with reads.
    pub fn seed(&self, rooms: &Vec<Classroom>) -> (r: Result<usize, RegistryError>)
        ensures
            r matches Ok(n) ==> n == rooms@.len(),
            r matches Err(e) ==> (e == RegistryError::ResourceExhausted || e
                == RegistryError::DataCorruption),
    {
        let conn = match self.checkout() {
            Ok(c) => c,
            Err(e) => {
                return Err(e);
            },
        };
        match exec_sql(
            &conn,
            "CREATE TABLE classroom (id INTEGER PRIMARY KEY, name TEXT NOT NULL, capacity INTEGER)",
        ) {
            Ok(_) => {},
            Err(_) => {
                return Err(RegistryError::DataCorruption);
            },
        }
        let n = rooms.len();
        let mut i: usize = 0;
        while i < n
            invariant
                n == rooms@.len(),
                0 <= i <= n,
            decreases n - i,
        {
            let room = &rooms[i];
            match exec_sql_text_int(
                &conn,
                "INSERT INTO classroom (name, capacity) VALUES (?1, ?2)",
                room.name.as_str(),
                room.capacity,
            ) {
                Ok(_) => {},
                Err(_) => {
                    return Err(RegistryError::DataCorruption);
                },
            }
            i = i + 1;
        }
        Ok(n)
    }

    /// Reads every classroom record: one checkout, one query, the connection
    /// released on all exit paths. A checkout that times out surfaces as
    /// `ResourceExhausted` rather than hanging; a row without the expected
    /// text and integer shape surfaces as `DataCorruption`. The records come
    /// back one per row, in the order the store returns them.
    pub fn list_classrooms(&self) -> (r: Result<Vec<Classroom>, RegistryError>)
        ensures
            r matches Err(e) ==> (e == RegistryError::ResourceExhausted || e
                == RegistryError::DataCorruption),
    {
        let conn = match self.checkout() {
            Ok(c) => c,
            Err(e) => {
                return Err(e);
            },
        };
        match query_text_int_rows(&conn, "SELECT name, capacity FROM classroom") {
            Ok(rows) => Ok(classrooms_from_rows(rows)),
            Err(_) => Err(RegistryError::DataCorruption),
        }
    }
}

} // verus!
