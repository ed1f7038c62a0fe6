//! The ledger kept in an SQLite file. Uniqueness of both columns is enforced
//! by the store itself, so that several processes sharing the file never
//! bind one tag twice: an allocation inserts only where nothing conflicts and
//! then reports the row that the store actually holds.
use vstd::prelude::*;
use rusqlite::{Connection, OptionalExtension};
use crate::ledger::{allocation_step, settle, AllocStep, LedgerError, Vni};

verus! {

#[verifier::external_type_specification]
#[verifier::external_body]
pub struct ExConnection(rusqlite::Connection);

#[verifier::external_type_specification]
#[verifier::external_body]
pub struct ExError(rusqlite::Error);

/// The table of bindings, keyed by tag, with a unique VNI column.
pub const SCHEMA: &'static str = "
CREATE TABLE IF NOT EXISTS vni (
    vlan INTEGER PRIMARY KEY,
    vni INTEGER NOT NULL UNIQUE
);

CREATE UNIQUE INDEX IF NOT EXISTS vni_vni ON vni (vni);
";

/// The tag bound to one VNI.
pub const SELECT_VLAN: &'static str = "SELECT vlan FROM vni WHERE vni = ?";

/// The highest tag in use.
pub const SELECT_MAX_VLAN: &'static str = "SELECT vlan FROM vni ORDER BY vlan DESC LIMIT 1";

/// A new binding, inserted only where neither its tag nor its VNI is taken.
pub const INSERT_BINDING: &'static str = "INSERT INTO vni (vlan, vni) VALUES (?, ?) ON CONFLICT DO NOTHING";

/// Removal of the binding of one VNI.
pub const DELETE_BINDING: &'static str = "DELETE FROM vni WHERE vni = ?";

/// Every binding, as tag and VNI.
pub const SELECT_ALL: &'static str = "SELECT vlan, vni FROM vni";

/// Relies on rusqlite's `Connection::open`: opens the database file at
/// `path`, creating it where it does not exist.
#[verifier::external_body]
fn connect(path: &str) -> (r: Result<Connection, rusqlite::Error>) {
    Connection::open(path)
}

/// Relies on rusqlite's `Connection::execute_batch`: runs every statement of
/// `sql` in turn.
#[verifier::external_body]
fn execute_batch(conn: &Connection, sql: &str) -> (r: Result<(), rusqlite::Error>) {
    conn.execute_batch(sql)
}

/// Relies on rusqlite's `Connection::execute`: runs the statement `sql` with
/// `args` bound to its parameters in order.
#[verifier::external_body]
fn execute(conn: &Connection, sql: &str, args: &Vec<u32>) -> (r: Result<usize, rusqlite::Error>) {
    conn.execute(sql, rusqlite::params_from_iter(args.iter()))
}

/// Relies on rusqlite's `Connection::query_row`, with `optional`: the first
/// column of the first row that `sql` yields with `args` bound, as a tag, or
/// `None` where it yields no row.
#[verifier::external_body]
fn query_vlan(conn: &Connection, sql: &str, args: &Vec<u32>) -> (r: Result<Option<u16>, rusqlite::Error>) {
    conn.query_row(sql, rusqlite::params_from_iter(args.iter()), |row| row.get::<usize, u16>(0)).optional()
}

/// Relies on rusqlite's `Connection::prepare` and `Statement::query_map`:
/// the first two columns, as tag and VNI, of every row that `sql` yields.
#[verifier::external_body]
fn query_pairs(conn: &Connection, sql: &str) -> (r: Result<Vec<(u16, u32)>, rusqlite::Error>) {
    let mut stmt = conn.prepare(sql)?;
    let rows = stmt.query_map([], |row| Ok((row.get::<usize, u16>(0)?, row.get::<usize, u32>(1)?)))?;
    rows.collect()
}

/// A statement for the store and the integers bound to its parameters, in order.
pub struct Query {
    pub sql: &'static str,
    pub args: Vec<u32>,
}

/// The lookup of the tag bound to `vni`.
pub fn lookup_query(vni: u32) -> (r: Query)
    ensures
        r.sql@ == SELECT_VLAN@,
        r.args@ == seq![vni],
{
    Query { sql: SELECT_VLAN, args: vec![vni] }
}

/// The lookup of the highest tag in use.
pub fn max_query() -> (r: Query)
    ensures
        r.sql@ == SELECT_MAX_VLAN@,
        r.args@ == Seq::<u32>::empty(),
{
    Query { sql: SELECT_MAX_VLAN, args: Vec::new() }
}

/// The insert of the binding of `vni` to `vlan`, which does nothing where
/// either is taken.
pub fn insert_query(vlan: u16, vni: u32) -> (r: Query)
    ensures
        r.sql@ == INSERT_BINDING@,
        r.args@ == seq![vlan as u32, vni],
{
    Query { sql: INSERT_BINDING, args: vec![vlan as u32, vni] }
}

/// The removal of the binding of `vni`.
pub fn delete_query(vni: u32) -> (r: Query)
    ensures
        r.sql@ == DELETE_BINDING@,
        r.args@ == seq![vni],
{
    Query { sql: DELETE_BINDING, args: vec![vni] }
}

/// The listing of every binding.
pub fn list_query() -> (r: Query)
    ensures
        r.sql@ == SELECT_ALL@,
        r.args@ == Seq::<u32>::empty(),
{
    Query { sql: SELECT_ALL, args: Vec::new() }
}

/// The ledger stored in an SQLite file.
pub struct Database {
    conn: Connection,
    initial_vlan: u16,
}

impl Database {
    /// The tag that the first binding of an empty ledger gets.
    pub closed spec fn initial(&self) -> u16 {
        self.initial_vlan
    }

    /// Opens the ledger file at `path`, creating it and its table where
    /// they do not exist. Its parent directory must exist.
    pub fn open(path: &str, initial_vlan: u16) -> (r: Result<Database, LedgerError>)
        ensures
            r matches Ok(db) ==> db.initial() == initial_vlan,
            r matches Err(e) ==> e is Storage,
    {
        let conn = match connect(path) {
            Ok(c) => c,
            Err(e) => return Err(LedgerError::Storage(e)),
        };
        match execute_batch(&conn, SCHEMA) {
            Ok(()) => Ok(Database { conn, initial_vlan }),
            Err(e) => Err(LedgerError::Storage(e)),
        }
    }

    /// The tag bound to `vni`, if any, as the lookup of `lookup_query(vni)`
    /// finds it.
    pub fn get_vlan(&self, vni: u32) -> (r: Result<Option<u16>, LedgerError>)
        ensures
            r matches Err(e) ==> e is Storage,
    {
        let q = lookup_query(vni);
        match query_vlan(&self.conn, q.sql, &q.args) {
            Ok(v) => Ok(v),
            Err(e) => Err(LedgerError::Storage(e)),
        }
    }

    /// Binds `vni` to a tag and returns the tag the store holds for it
    /// afterwards. The decision is `allocation_step` over the lookup of
    /// `vni` and the highest tag: a tag found is answered with no insert;
    /// where none is left, `Exhausted` with no insert; else
    /// `insert_query(n, vni)` is sent, which does nothing where another
    /// process took the tag or the VNI first, and the answer is `settle` of
    /// what the store then holds for `vni`.
    pub fn add_vni(&self, vni: u32) -> (r: Result<u16, LedgerError>)
        ensures
            r matches Err(e) ==> (e is Storage || e is Exhausted || e is NotFound),
    {
        let existing = match self.get_vlan(vni) {
            Ok(v) => v,
            Err(e) => return Err(e),
        };
        let max = match existing {
            Some(_) => None,
            None => {
                let q = max_query();
                match query_vlan(&self.conn, q.sql, &q.args) {
                    Ok(m) => m,
                    Err(e) => return Err(LedgerError::Storage(e)),
                }
            },
        };
        match allocation_step(existing, max, self.initial_vlan) {
            AllocStep::Present(v) => Ok(v),
            AllocStep::Exhausted => Err(LedgerError::Exhausted),
            AllocStep::Insert(vlan) => {
                let q = insert_query(vlan, vni);
                if let Err(e) = execute(&self.conn, q.sql, &q.args) {
                    return Err(LedgerError::Storage(e));
                }
                match self.get_vlan(vni) {
                    Err(e) => Err(e),
                    Ok(stored) => settle(stored),
                }
            },
        }
    }

    /// Removes the binding of `vni` and returns the tag it held. The answer
    /// is `settle` of the lookup of `vni`: where it finds nothing, `NotFound`
    /// and no delete is sent; else `delete_query(vni)` is sent and the tag
    /// found is returned.
    pub fn remove_vni(&self, vni: u32) -> (r: Result<u16, LedgerError>)
        ensures
            r matches Err(e) ==> (e is Storage || e is NotFound),
    {
        let found = match self.get_vlan(vni) {
            Ok(v) => v,
            Err(e) => return Err(e),
        };
        let vlan = match settle(found) {
            Ok(v) => v,
            Err(e) => return Err(e),
        };
        let q = delete_query(vni);
        match execute(&self.conn, q.sql, &q.args) {
            Ok(_) => Ok(vlan),
            Err(e) => Err(LedgerError::Storage(e)),
        }
    }

    /// Every binding in the store, in no particular order: `bindings_of`
    /// the rows that `list_query()` yields.
    pub fn list_vni(&self) -> (r: Result<Vec<Vni>, LedgerError>)
        ensures
            r matches Err(e) ==> e is Storage,
    {
        let q = list_query();
        let pairs = match query_pairs(&self.conn, q.sql) {
            Ok(p) => p,
            Err(e) => return Err(LedgerError::Storage(e)),
        };
        Ok(bindings_of(&pairs))
    }
}

/// The bindings that (tag, VNI) pairs describe, in the same order.
pub fn bindings_of(pairs: &Vec<(u16, u32)>) -> (r: Vec<Vni>)
    ensures
        r@.len() == pairs@.len(),
        forall|i: int| 0 <= i < pairs@.len() ==> #[trigger] r@[i] == (Vni { vlan: pairs@[i].0, vni: pairs@[i].1 }),
{
    let mut r: Vec<Vni> = Vec::new();
    let mut i: usize = 0;
    while i < pairs.len()
        invariant
            i <= pairs@.len(),
            r@.len() == i,
            forall|k: int| 0 <= k < i ==> #[trigger] r@[k] == (Vni { vlan: pairs@[k].0, vni: pairs@[k].1 }),
        decreases pairs@.len() - i,
    {
        r.push(Vni { vlan: pairs[i].0, vni: pairs[i].1 });
        i = i + 1;
    }
    r
}

} // verus!
