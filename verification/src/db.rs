//! Pooled relational store for device, tunnel, metric and command-log
//! records. Each operation checks one connection out of the pool, runs
//! a single statement and returns the connection when the borrow ends,
//! on error as well as on success.
//!
//! The store is modelled by four maps from row id to row content, named
//! by uninterpreted functions over the pool; every trusted wrapper
//! states what its one statement does to those maps. Metric readings
//! are held in hundredths of their unit, so the `cpu` and `mem` columns
//! are integers.

use vstd::prelude::*;
use r2d2::Pool;
use r2d2_sqlite::SqliteConnectionManager;

verus! {

#[verifier::external_type_specification]
#[verifier::external_body]
pub struct ExRusqliteError(rusqlite::Error);

#[verifier::external_type_specification]
#[verifier::external_body]
pub struct ExR2d2Error(r2d2::Error);

/// A store failure: pool exhaustion, a constraint violation, or an I/O
/// failure on the backing file, surfaced as its description.
#[derive(Debug, Clone)]
pub struct StoreError {
    pub message: String,
}

/// A persisted device registration.
#[derive(Debug, Clone)]
pub struct Device {
    pub id: i32,
    pub name: String,
    pub ip: String,
    pub last_seen: Option<i64>,
}

/// A persisted tunnel status record; `device_id` references a device.
#[derive(Debug, Clone)]
pub struct Tunnel {
    pub id: i32,
    pub device_id: i32,
    pub status: String,
    pub last_checked: Option<i64>,
}

/// A persisted metric sample; readings are in hundredths.
#[derive(Debug, Clone)]
pub struct Metric {
    pub id: i32,
    pub device_id: i32,
    pub cpu_centi: i64,
    pub mem_centi: i64,
    pub timestamp: i64,
}

/// A persisted record of one remote command and its output.
#[derive(Debug, Clone)]
pub struct CommandLog {
    pub id: i32,
    pub device_id: i32,
    pub command: String,
    pub output: Option<String>,
    pub timestamp: i64,
}

/// Model of one `devices` row.
pub ghost struct DeviceRow {
    pub name: Seq<char>,
    pub ip: Seq<char>,
    pub last_seen: Option<i64>,
}

/// Model of one `tunnels` row.
pub ghost struct TunnelRow {
    pub device_id: i32,
    pub status: Seq<char>,
    pub last_checked: Option<i64>,
}

/// Model of one `metrics` row.
pub ghost struct MetricRow {
    pub device_id: i32,
    pub cpu_centi: i64,
    pub mem_centi: i64,
    pub timestamp: i64,
}

/// Model of one `command_logs` row.
pub ghost struct CommandLogRow {
    pub device_id: i32,
    pub command: Seq<char>,
    pub output: Option<Seq<char>>,
    pub timestamp: i64,
}

/// A pooled handle over the relational store. The pool itself is
/// opaque; the four tables behind it are modelled by the `*_rows`
/// functions below.
#[verifier::external_body]
pub struct Db {
    pool: Pool<SqliteConnectionManager>,
}

/// The `devices` table of a store, as a map from id to row.
pub uninterp spec fn device_rows(db: Db) -> Map<i32, DeviceRow>;

/// The `tunnels` table of a store, as a map from id to row.
pub uninterp spec fn tunnel_rows(db: Db) -> Map<i32, TunnelRow>;

/// The `metrics` table of a store, as a map from id to row.
pub uninterp spec fn metric_rows(db: Db) -> Map<i32, MetricRow>;

/// The `command_logs` table of a store, as a map from id to row.
pub uninterp spec fn command_log_rows(db: Db) -> Map<i32, CommandLogRow>;

/// The idempotent schema bootstrap: creates the four tables and their
/// indices when absent.
fn schema_sql() -> &'static str {
    "
    CREATE TABLE IF NOT EXISTS devices (
        id INTEGER PRIMARY KEY,
        name TEXT NOT NULL,
        ip TEXT NOT NULL,
        last_seen INTEGER
    );
    CREATE TABLE IF NOT EXISTS tunnels (
        id INTEGER PRIMARY KEY,
        device_id INTEGER NOT NULL,
        status TEXT NOT NULL,
        last_checked INTEGER,
        FOREIGN KEY(device_id) REFERENCES devices(id)
    );
    CREATE TABLE IF NOT EXISTS metrics (
        id INTEGER PRIMARY KEY,
        device_id INTEGER NOT NULL,
        cpu INTEGER,
        mem INTEGER,
        timestamp INTEGER,
        FOREIGN KEY(device_id) REFERENCES devices(id)
    );
    CREATE TABLE IF NOT EXISTS command_logs (
        id INTEGER PRIMARY KEY,
        device_id INTEGER NOT NULL,
        command TEXT NOT NULL,
        output TEXT,
        timestamp INTEGER,
        FOREIGN KEY(device_id) REFERENCES devices(id)
    );
    CREATE INDEX IF NOT EXISTS idx_metrics_device_time ON metrics(device_id, timestamp);
    CREATE INDEX IF NOT EXISTS idx_tunnels_device_status ON tunnels(device_id, status);
    "
}

/// Relies on `rusqlite::Error::to_string` for the failure description.
#[verifier::external_body]
fn sql_err(e: rusqlite::Error) -> StoreError {
    StoreError { message: e.to_string() }
}

/// Relies on `r2d2::Error::to_string` for the failure description.
#[verifier::external_body]
fn pool_err(e: r2d2::Error) -> StoreError {
    StoreError { message: e.to_string() }
}

impl Db {
    /// Relies on `SqliteConnectionManager::file`, `r2d2::Pool::new` and
    /// rusqlite's `execute_batch`: opens (creating if absent) the store
    /// at `db_path`, enables write-ahead logging, and bootstraps the
    /// schema idempotently.
    #[verifier::external_body]
    pub fn new(db_path: &str) -> (r: Result<Db, StoreError>) {
        let manager = SqliteConnectionManager::file(db_path).with_flags(
            rusqlite::OpenFlags::SQLITE_OPEN_READ_WRITE | rusqlite::OpenFlags::SQLITE_OPEN_CREATE,
        );
        let pool = Pool::new(manager).map_err(pool_err)?;
        let conn = pool.get().map_err(pool_err)?;
        conn.execute_batch("PRAGMA journal_mode=WAL;").map_err(sql_err)?;
        conn.execute_batch(schema_sql()).map_err(sql_err)?;
        Ok(Db { pool })
    }

    /// Relies on `SqliteConnectionManager::memory`: every connection of
    /// the pool shares one fresh in-memory database, so the four tables
    /// start empty.
    #[verifier::external_body]
    pub fn open_in_memory() -> (r: Result<Db, StoreError>)
        ensures
            match r {
                Ok(db) => device_rows(db) == Map::<i32, DeviceRow>::empty()
                    && tunnel_rows(db) == Map::<i32, TunnelRow>::empty()
                    && metric_rows(db) == Map::<i32, MetricRow>::empty()
                    && command_log_rows(db) == Map::<i32, CommandLogRow>::empty(),
                Err(_) => true,
            },
    {
        let pool = Pool::new(SqliteConnectionManager::memory()).map_err(pool_err)?;
        let conn = pool.get().map_err(pool_err)?;
        conn.execute_batch(schema_sql()).map_err(sql_err)?;
        Ok(Db { pool })
    }

    /// Relies on rusqlite's `execute` (an `INSERT` errors or adds the
    /// one row) and `last_insert_rowid` on the same connection: the
    /// generated id was free before the call. Only `devices` changes.
    #[verifier::external_body]
    pub fn insert_device(&mut self, name: &str, ip: &str, last_seen: Option<i64>) -> (r: Result<
        i32,
        StoreError,
    >)
        ensures
            r matches Ok(id) ==> !device_rows(*old(self)).contains_key(id) && device_rows(*final(self))
                == device_rows(*old(self)).insert(
                id,
                DeviceRow { name: name@, ip: ip@, last_seen },
            ),
            tunnel_rows(*final(self)) == tunnel_rows(*old(self)),
            metric_rows(*final(self)) == metric_rows(*old(self)),
            command_log_rows(*final(self)) == command_log_rows(*old(self)),
    {
        let conn = self.pool.get().map_err(pool_err)?;
        conn.execute(
            "INSERT INTO devices (name, ip, last_seen) VALUES (?1, ?2, ?3)",
            (name, ip, last_seen),
        ).map_err(sql_err)?;
        i32::try_from(conn.last_insert_rowid()).map_err(|e| StoreError { message: e.to_string() })
    }

    /// Relies on rusqlite's `execute`: a `DELETE` by primary key
    /// removes exactly the addressed row and reports how many rows
    /// went. Only `devices` changes.
    #[verifier::external_body]
    pub fn delete_device(&mut self, id: i32) -> (r: Result<usize, StoreError>)
        ensures
            r matches Ok(n) ==> device_rows(*final(self)) == device_rows(*old(self)).remove(id) && n == (
            if device_rows(*old(self)).contains_key(id) {
                1usize
            } else {
                0usize
            }),
            r is Err ==> device_rows(*final(self)) == device_rows(*old(self)),
            tunnel_rows(*final(self)) == tunnel_rows(*old(self)),
            metric_rows(*final(self)) == metric_rows(*old(self)),
            command_log_rows(*final(self)) == command_log_rows(*old(self)),
    {
        let conn = self.pool.get().map_err(pool_err)?;
        conn.execute("DELETE FROM devices WHERE id = ?1", (id,)).map_err(sql_err)
    }

    /// Relies on rusqlite's `prepare`, `query` and `Row::get`: a
    /// `SELECT` by primary key yields the row under that id, or
    /// nothing.
    #[verifier::external_body]
    pub fn get_device(&self, id: i32) -> (r: Result<Option<Device>, StoreError>)
        ensures
            r matches Ok(found) ==> match found {
                Some(d) => device_rows(*self).contains_key(id) && d.id == id && d.name@
                    == device_rows(*self)[id].name && d.ip@ == device_rows(*self)[id].ip && d.last_seen
                    == device_rows(*self)[id].last_seen,
                None => !device_rows(*self).contains_key(id),
            },
    {
        let conn = self.pool.get().map_err(pool_err)?;
        let mut stmt = conn.prepare("SELECT id, name, ip, last_seen FROM devices WHERE id = ?1")
            .map_err(sql_err)?;
        let mut rows = stmt.query((id,)).map_err(sql_err)?;
        match rows.next().map_err(sql_err)? {
            Some(row) => Ok(Some(Device {
                id: row.get(0).map_err(sql_err)?,
                name: row.get(1).map_err(sql_err)?,
                ip: row.get(2).map_err(sql_err)?,
                last_seen: row.get(3).map_err(sql_err)?,
            })),
            None => Ok(None),
        }
    }

    /// Relies on rusqlite's `prepare`, `query` and `Row::get`: a
    /// `SELECT` ordered by primary key yields every row once, in
    /// strictly ascending id order.
    #[verifier::external_body]
    pub fn get_all_devices(&self) -> (r: Result<Vec<Device>, StoreError>)
        ensures
            r matches Ok(v) ==> (forall|i: int|
                0 <= i < v@.len() ==> device_rows(*self).contains_key(#[trigger] v@[i].id)
                    && v@[i].name@ == device_rows(*self)[v@[i].id].name && v@[i].ip@
                    == device_rows(*self)[v@[i].id].ip && v@[i].last_seen
                    == device_rows(*self)[v@[i].id].last_seen) && (forall|id: i32|
                device_rows(*self).contains_key(id) ==> exists|i: int|
                    0 <= i < v@.len() && #[trigger] v@[i].id == id) && (forall|i: int, j: int|
                0 <= i < j < v@.len() ==> v@[i].id < v@[j].id),
    {
        let conn = self.pool.get().map_err(pool_err)?;
        let sql = "SELECT id, name, ip, last_seen FROM devices ORDER BY id";
        let mut stmt = conn.prepare(sql).map_err(sql_err)?;
        let mut rows = stmt.query(()).map_err(sql_err)?;
        let mut out: Vec<Device> = Vec::new();
        while let Some(row) = rows.next().map_err(sql_err)? {
            let (id, name) = (row.get(0).map_err(sql_err)?, row.get(1).map_err(sql_err)?);
            let (ip, last_seen) = (row.get(2).map_err(sql_err)?, row.get(3).map_err(sql_err)?);
            out.push(Device { id, name, ip, last_seen });
        }
        Ok(out)
    }

    /// Relies on rusqlite's `execute` and `last_insert_rowid`, as for
    /// `insert_device`. Only `tunnels` changes.
    #[verifier::external_body]
    fn insert_tunnel_raw(&mut self, device_id: i32, status: &str, last_checked: Option<i64>) -> (r:
        Result<i32, StoreError>)
        ensures
            r matches Ok(id) ==> !tunnel_rows(*old(self)).contains_key(id) && tunnel_rows(
                *final(self),
            ) == tunnel_rows(*old(self)).insert(
                id,
                TunnelRow { device_id, status: status@, last_checked },
            ),
            device_rows(*final(self)) == device_rows(*old(self)),
            metric_rows(*final(self)) == metric_rows(*old(self)),
            command_log_rows(*final(self)) == command_log_rows(*old(self)),
    {
        let conn = self.pool.get().map_err(pool_err)?;
        conn.execute(
            "INSERT INTO tunnels (device_id, status, last_checked) VALUES (?1, ?2, ?3)",
            (device_id, status, last_checked),
        ).map_err(sql_err)?;
        i32::try_from(conn.last_insert_rowid()).map_err(|e| StoreError { message: e.to_string() })
    }

    /// Inserts a tunnel record, checking at the store boundary that
    /// `device_id` references an existing device; a missing device is
    /// an error and leaves the store unchanged.
    pub fn insert_tunnel(&mut self, device_id: i32, status: &str, last_checked: Option<i64>) -> (r:
        Result<i32, StoreError>)
        ensures
            r matches Ok(id) ==> device_rows(*old(self)).contains_key(device_id) && !tunnel_rows(
                *old(self),
            ).contains_key(id) && tunnel_rows(*final(self)) == tunnel_rows(*old(self)).insert(
                id,
                TunnelRow { device_id, status: status@, last_checked },
            ),
            !device_rows(*old(self)).contains_key(device_id) ==> r is Err && tunnel_rows(
                *final(self),
            ) == tunnel_rows(*old(self)),
            device_rows(*final(self)) == device_rows(*old(self)),
            metric_rows(*final(self)) == metric_rows(*old(self)),
            command_log_rows(*final(self)) == command_log_rows(*old(self)),
    {
        match self.get_device(device_id) {
            Ok(Some(_)) => self.insert_tunnel_raw(device_id, status, last_checked),
            Ok(None) => Err(
                StoreError { message: "tunnel references a missing device".to_owned() },
            ),
            Err(e) => Err(e),
        }
    }

    /// Relies on rusqlite's `execute`, as for `delete_device`. Only
    /// `tunnels` changes.
    #[verifier::external_body]
    pub fn delete_tunnel(&mut self, id: i32) -> (r: Result<usize, StoreError>)
        ensures
            r matches Ok(n) ==> tunnel_rows(*final(self)) == tunnel_rows(*old(self)).remove(id)
                && n == (if tunnel_rows(*old(self)).contains_key(id) {
                1usize
            } else {
                0usize
            }),
            r is Err ==> tunnel_rows(*final(self)) == tunnel_rows(*old(self)),
            device_rows(*final(self)) == device_rows(*old(self)),
            metric_rows(*final(self)) == metric_rows(*old(self)),
            command_log_rows(*final(self)) == command_log_rows(*old(self)),
    {
        let conn = self.pool.get().map_err(pool_err)?;
        conn.execute("DELETE FROM tunnels WHERE id = ?1", (id,)).map_err(sql_err)
    }

    /// Relies on rusqlite's `prepare`, `query` and `Row::get`, as for
    /// `get_device`.
    #[verifier::external_body]
    pub fn get_tunnel(&self, id: i32) -> (r: Result<Option<Tunnel>, StoreError>)
        ensures
            r matches Ok(found) ==> match found {
                Some(t) => tunnel_rows(*self).contains_key(id) && t.id == id && t.device_id
                    == tunnel_rows(*self)[id].device_id && t.status@ == tunnel_rows(*self)[id].status
                    && t.last_checked == tunnel_rows(*self)[id].last_checked,
                None => !tunnel_rows(*self).contains_key(id),
            },
    {
        let conn = self.pool.get().map_err(pool_err)?;
        let mut stmt = conn.prepare(
            "SELECT id, device_id, status, last_checked FROM tunnels WHERE id = ?1",
        ).map_err(sql_err)?;
        let mut rows = stmt.query((id,)).map_err(sql_err)?;
        match rows.next().map_err(sql_err)? {
            Some(row) => Ok(Some(Tunnel {
                id: row.get(0).map_err(sql_err)?,
                device_id: row.get(1).map_err(sql_err)?,
                status: row.get(2).map_err(sql_err)?,
                last_checked: row.get(3).map_err(sql_err)?,
            })),
            None => Ok(None),
        }
    }

    /// Relies on rusqlite's `execute` and `last_insert_rowid`, as for
    /// `insert_device`. Only `metrics` changes.
    #[verifier::external_body]
    fn insert_metric_raw(
        &mut self,
        device_id: i32,
        cpu_centi: i64,
        mem_centi: i64,
        timestamp: i64,
    ) -> (r: Result<i32, StoreError>)
        ensures
            r matches Ok(id) ==> !metric_rows(*old(self)).contains_key(id) && metric_rows(
                *final(self),
            ) == metric_rows(*old(self)).insert(
                id,
                MetricRow { device_id, cpu_centi, mem_centi, timestamp },
            ),
            device_rows(*final(self)) == device_rows(*old(self)),
            tunnel_rows(*final(self)) == tunnel_rows(*old(self)),
            command_log_rows(*final(self)) == command_log_rows(*old(self)),
    {
        let conn = self.pool.get().map_err(pool_err)?;
        conn.execute(
            "INSERT INTO metrics (device_id, cpu, mem, timestamp) VALUES (?1, ?2, ?3, ?4)",
            (device_id, cpu_centi, mem_centi, timestamp),
        ).map_err(sql_err)?;
        i32::try_from(conn.last_insert_rowid()).map_err(|e| StoreError { message: e.to_string() })
    }

    /// Inserts a metric sample (readings in hundredths), checking at
    /// the store boundary that `device_id` references an existing
    /// device.
    pub fn insert_metric(
        &mut self,
        device_id: i32,
        cpu_centi: i64,
        mem_centi: i64,
        timestamp: i64,
    ) -> (r: Result<i32, StoreError>)
        ensures
            r matches Ok(id) ==> device_rows(*old(self)).contains_key(device_id) && !metric_rows(
                *old(self),
            ).contains_key(id) && metric_rows(*final(self)) == metric_rows(*old(self)).insert(
                id,
                MetricRow { device_id, cpu_centi, mem_centi, timestamp },
            ),
            !device_rows(*old(self)).contains_key(device_id) ==> r is Err && metric_rows(
                *final(self),
            ) == metric_rows(*old(self)),
            device_rows(*final(self)) == device_rows(*old(self)),
            tunnel_rows(*final(self)) == tunnel_rows(*old(self)),
            command_log_rows(*final(self)) == command_log_rows(*old(self)),
    {
        match self.get_device(device_id) {
            Ok(Some(_)) => self.insert_metric_raw(device_id, cpu_centi, mem_centi, timestamp),
            Ok(None) => Err(
                StoreError { message: "metric references a missing device".to_owned() },
            ),
            Err(e) => Err(e),
        }
    }

    /// Relies on rusqlite's `execute`, as for `delete_device`. Only
    /// `metrics` changes.
    #[verifier::external_body]
    pub fn delete_metric(&mut self, id: i32) -> (r: Result<usize, StoreError>)
        ensures
            r matches Ok(n) ==> metric_rows(*final(self)) == metric_rows(*old(self)).remove(id)
                && n == (if metric_rows(*old(self)).contains_key(id) {
                1usize
            } else {
                0usize
            }),
            r is Err ==> metric_rows(*final(self)) == metric_rows(*old(self)),
            device_rows(*final(self)) == device_rows(*old(self)),
            tunnel_rows(*final(self)) == tunnel_rows(*old(self)),
            command_log_rows(*final(self)) == command_log_rows(*old(self)),
    {
        let conn = self.pool.get().map_err(pool_err)?;
        conn.execute("DELETE FROM metrics WHERE id = ?1", (id,)).map_err(sql_err)
    }

    /// Relies on rusqlite's `prepare`, `query` and `Row::get`, as for
    /// `get_device`.
    #[verifier::external_body]
    pub fn get_metric(&self, id: i32) -> (r: Result<Option<Metric>, StoreError>)
        ensures
            r matches Ok(found) ==> match found {
                Some(m) => metric_rows(*self).contains_key(id) && m.id == id && m.device_id
                    == metric_rows(*self)[id].device_id && m.cpu_centi
                    == metric_rows(*self)[id].cpu_centi && m.mem_centi
                    == metric_rows(*self)[id].mem_centi && m.timestamp
                    == metric_rows(*self)[id].timestamp,
                None => !metric_rows(*self).contains_key(id),
            },
    {
        let conn = self.pool.get().map_err(pool_err)?;
        let mut stmt = conn.prepare(
            "SELECT id, device_id, cpu, mem, timestamp FROM metrics WHERE id = ?1",
        ).map_err(sql_err)?;
        let mut rows = stmt.query((id,)).map_err(sql_err)?;
        match rows.next().map_err(sql_err)? {
            Some(row) => Ok(Some(Metric {
                id: row.get(0).map_err(sql_err)?,
                device_id: row.get(1).map_err(sql_err)?,
                cpu_centi: row.get(2).map_err(sql_err)?,
                mem_centi: row.get(3).map_err(sql_err)?,
                timestamp: row.get(4).map_err(sql_err)?,
            })),
            None => Ok(None),
        }
    }

    /// Relies on rusqlite's `execute` and `last_insert_rowid`, as for
    /// `insert_device`. Only `command_logs` changes.
    #[verifier::external_body]
    fn insert_command_log_raw(
        &mut self,
        device_id: i32,
        command: &str,
        output: Option<&str>,
        timestamp: i64,
    ) -> (r: Result<i32, StoreError>)
        ensures
            r matches Ok(id) ==> !command_log_rows(*old(self)).contains_key(id)
                && command_log_rows(*final(self)) == command_log_rows(*old(self)).insert(
                id,
                CommandLogRow { device_id, command: command@, output: opt_str_view(output), timestamp },
            ),
            device_rows(*final(self)) == device_rows(*old(self)),
            tunnel_rows(*final(self)) == tunnel_rows(*old(self)),
            metric_rows(*final(self)) == metric_rows(*old(self)),
    {
        let conn = self.pool.get().map_err(pool_err)?;
        conn.execute(
            "INSERT INTO command_logs (device_id, command, output, timestamp) VALUES (?1, ?2, ?3, ?4)",
            (device_id, command, output, timestamp),
        ).map_err(sql_err)?;
        i32::try_from(conn.last_insert_rowid()).map_err(|e| StoreError { message: e.to_string() })
    }

    /// Inserts a command-log record, checking at the store boundary
    /// that `device_id` references an existing device.
    pub fn insert_command_log(
        &mut self,
        device_id: i32,
        command: &str,
        output: Option<&str>,
        timestamp: i64,
    ) -> (r: Result<i32, StoreError>)
        ensures
            r matches Ok(id) ==> device_rows(*old(self)).contains_key(device_id)
                && !command_log_rows(*old(self)).contains_key(id) && command_log_rows(*final(self))
                == command_log_rows(*old(self)).insert(
                id,
                CommandLogRow { device_id, command: command@, output: opt_str_view(output), timestamp },
            ),
            !device_rows(*old(self)).contains_key(device_id) ==> r is Err && command_log_rows(
                *final(self),
            ) == command_log_rows(*old(self)),
            device_rows(*final(self)) == device_rows(*old(self)),
            tunnel_rows(*final(self)) == tunnel_rows(*old(self)),
            metric_rows(*final(self)) == metric_rows(*old(self)),
    {
        match self.get_device(device_id) {
            Ok(Some(_)) => self.insert_command_log_raw(device_id, command, output, timestamp),
            Ok(None) => Err(
                StoreError { message: "command log references a missing device".to_owned() },
            ),
            Err(e) => Err(e),
        }
    }

    /// Relies on rusqlite's `execute`, as for `delete_device`. Only
    /// `command_logs` changes.
    #[verifier::external_body]
    pub fn delete_command_log(&mut self, id: i32) -> (r: Result<usize, StoreError>)
        ensures
            r matches Ok(n) ==> command_log_rows(*final(self)) == command_log_rows(
                *old(self),
            ).remove(id) && n == (if command_log_rows(*old(self)).contains_key(id) {
                1usize
            } else {
                0usize
            }),
            r is Err ==> command_log_rows(*final(self)) == command_log_rows(*old(self)),
            device_rows(*final(self)) == device_rows(*old(self)),
            tunnel_rows(*final(self)) == tunnel_rows(*old(self)),
            metric_rows(*final(self)) == metric_rows(*old(self)),
    {
        let conn = self.pool.get().map_err(pool_err)?;
        conn.execute("DELETE FROM command_logs WHERE id = ?1", (id,)).map_err(sql_err)
    }

    /// Relies on rusqlite's `prepare`, `query` and `Row::get`, as for
    /// `get_device`.
    #[verifier::external_body]
    pub fn get_command_log(&self, id: i32) -> (r: Result<Option<CommandLog>, StoreError>)
        ensures
            r matches Ok(found) ==> match found {
                Some(c) => command_log_rows(*self).contains_key(id) && c.id == id && c.device_id
                    == command_log_rows(*self)[id].device_id && c.command@
                    == command_log_rows(*self)[id].command && (match c.output {
                    Some(o) => command_log_rows(*self)[id].output == Some(o@),
                    None => command_log_rows(*self)[id].output is None,
                }) && c.timestamp == command_log_rows(*self)[id].timestamp,
                None => !command_log_rows(*self).contains_key(id),
            },
    {
        let conn = self.pool.get().map_err(pool_err)?;
        let mut stmt = conn.prepare(
            "SELECT id, device_id, command, output, timestamp FROM command_logs WHERE id = ?1",
        ).map_err(sql_err)?;
        let mut rows = stmt.query((id,)).map_err(sql_err)?;
        match rows.next().map_err(sql_err)? {
            Some(row) => Ok(Some(CommandLog {
                id: row.get(0).map_err(sql_err)?,
                device_id: row.get(1).map_err(sql_err)?,
                command: row.get(2).map_err(sql_err)?,
                output: row.get(3).map_err(sql_err)?,
                timestamp: row.get(4).map_err(sql_err)?,
            })),
            None => Ok(None),
        }
    }
}

/// The view of an optional borrowed string.
pub open spec fn opt_str_view(o: Option<&str>) -> Option<Seq<char>> {
    match o {
        Some(s) => Some(s@),
        None => None,
    }
}

/// A deleted id is absent afterwards: removing an id from a table
/// leaves no row under it, whatever the table held before.
pub proof fn lemma_delete_then_get_absent(rows: Map<i32, DeviceRow>, id: i32)
    ensures
        !rows.remove(id).contains_key(id),
{
}

/// A registered device is present afterwards: inserting a row under a
/// fresh id stores exactly that row, whatever the table held before.
pub proof fn lemma_insert_then_lookup(rows: Map<i32, DeviceRow>, id: i32, row: DeviceRow)
    ensures
        rows.insert(id, row).contains_key(id),
        rows.insert(id, row)[id] == row,
{
}

/// Writes under distinct ids never lose one another: after two inserts
/// under different ids, both rows are present unchanged. With each
/// successful `insert_device` returning an id that was free when it
/// ran, simultaneous registrations land under distinct ids and all
/// survive.
pub proof fn lemma_distinct_inserts_keep_both(
    rows: Map<i32, DeviceRow>,
    id1: i32,
    row1: DeviceRow,
    id2: i32,
    row2: DeviceRow,
)
    requires
        id1 != id2,
    ensures
        rows.insert(id1, row1).insert(id2, row2).contains_key(id1),
        rows.insert(id1, row1).insert(id2, row2).contains_key(id2),
        rows.insert(id1, row1).insert(id2, row2)[id1] == row1,
        rows.insert(id1, row1).insert(id2, row2)[id2] == row2,
{
}

} // verus!
