//! A store that lives in a database. It keeps records as bytes, which whoever
//! asks for them reads and writes.

use vstd::prelude::*;

use crate::store::{ipam, StoreError};
#[allow(unused_imports)]
use crate::store::StoreErrorView;
use crate::strmap::StrMap;
use crate::text;
use crate::types::IpLease;
#[allow(unused_imports)]
use crate::types::IpLeaseView;

verus! {

/// The database.
#[verifier::external_type_specification]
#[verifier::external_body]
pub struct ExDatabase(redb::Database);

/// A transaction that writes.
#[verifier::external_type_specification]
#[verifier::external_body]
pub struct ExWriteTransaction(redb::WriteTransaction);

/// What stands under a key of a table.
#[verifier::ext_equal]
pub enum Cell {
    Bytes(Seq<u8>),
    Text(Seq<char>),
}

/// No tables.
pub open spec fn no_tables() -> Set<Seq<char>> {
    Set::empty()
}

/// No rows.
pub open spec fn no_cells() -> Map<(Seq<char>, Seq<char>), Cell> {
    Map::empty()
}

/// What a database holds that was committed, by table and key.
pub uninterp spec fn committed(db: redb::Database) -> Map<(Seq<char>, Seq<char>), Cell>;

/// What a transaction sees: what was committed when it began, and its own
/// writes.
pub uninterp spec fn written(t: redb::WriteTransaction) -> Map<(Seq<char>, Seq<char>), Cell>;

/// The tables that a database has, by name, as they were committed.
pub uninterp spec fn tables_in(db: redb::Database) -> Set<Seq<char>>;

/// The tables that a transaction sees: those that were committed when it began,
/// and those that it made.
pub uninterp spec fn tables_seen(t: redb::WriteTransaction) -> Set<Seq<char>>;

/// The database that a transaction began on, as it was then.
pub uninterp spec fn origin(t: redb::WriteTransaction) -> redb::Database;

/// `Builder::create_with_backend` with an `InMemoryBackend`: a database of its
/// own, without tables and so without content.
#[verifier::external_body]
fn new_in_memory() -> (r: Result<redb::Database, String>)
    ensures
        r matches Ok(db) ==> committed(db) == no_cells() && tables_in(db) == no_tables(),
{
    redb::Database::builder()
        .create_with_backend(redb::backends::InMemoryBackend::new())
        .map_err(|e| e.to_string())
}

/// `Database::begin_write`: a transaction that sees what was committed. It
/// waits while another one is open on the same database; the functions below
/// have one open at a time.
#[verifier::external_body]
fn begin_write(db: &redb::Database) -> (r: Result<redb::WriteTransaction, String>)
    ensures
        r matches Ok(t) ==> {
            &&& written(t) == committed(*db)
            &&& tables_seen(t) == tables_in(*db)
            &&& origin(t) == *db
        },
{
    db.begin_write().map_err(|e| e.to_string())
}

/// `WriteTransaction::commit`: what the transaction sees, tables and rows, is
/// what the database holds. Where it fails, what the database then holds is left
/// open.
#[verifier::external_body]
fn commit(db: &mut redb::Database, t: redb::WriteTransaction) -> (r: Result<(), String>)
    requires
        origin(t) == *old(db),
    ensures
        r is Ok ==> committed(*final(db)) == written(t) && tables_in(*final(db)) == tables_seen(t),
{
    t.commit().map_err(|e| e.to_string())
}

/// `WriteTransaction::open_table` for a table of bytes, which makes the table
/// where it is not there: the transaction sees it. No row changes.
#[verifier::external_body]
fn make_bytes_table(t: &mut redb::WriteTransaction, table: &str) -> (r: Result<(), String>)
    requires
        table@.len() > 0,
    ensures
        origin(*final(t)) == origin(*old(t)),
        r is Ok ==> written(*final(t)) == written(*old(t)),
        r is Ok ==> tables_seen(*final(t)) == tables_seen(*old(t)).insert(table@),
{
    let definition = redb::TableDefinition::<&str, &[u8]>::new(table);
    t.open_table(definition).map(|_| ()).map_err(|e| e.to_string())
}

/// `WriteTransaction::open_table` for a table of text, which makes the table
/// where it is not there: the transaction sees it. No row changes.
#[verifier::external_body]
fn make_text_table(t: &mut redb::WriteTransaction, table: &str) -> (r: Result<(), String>)
    requires
        table@.len() > 0,
    ensures
        origin(*final(t)) == origin(*old(t)),
        r is Ok ==> written(*final(t)) == written(*old(t)),
        r is Ok ==> tables_seen(*final(t)) == tables_seen(*old(t)).insert(table@),
{
    let definition = redb::TableDefinition::<&str, &str>::new(table);
    t.open_table(definition).map(|_| ()).map_err(|e| e.to_string())
}

/// `Table::insert` of bytes: the row is there, in place of one under the same
/// key. The table is made where it is not there. Where it fails, what the
/// transaction then sees is left open.
#[verifier::external_body]
fn insert_bytes(t: &mut redb::WriteTransaction, table: &str, key: &str, value: &[u8]) -> (r: Result<
    (),
    String,
>)
    requires
        table@.len() > 0,
    ensures
        origin(*final(t)) == origin(*old(t)),
        r is Ok ==> written(*final(t)) == written(*old(t)).insert(
            (table@, key@),
            Cell::Bytes(value@),
        ),
        r is Ok ==> tables_seen(*final(t)) == tables_seen(*old(t)).insert(table@),
{
    let definition = redb::TableDefinition::<&str, &[u8]>::new(table);
    let mut rows = t.open_table(definition).map_err(|e| e.to_string())?;
    let done = rows.insert(key, value).map(|_| ()).map_err(|e| e.to_string());
    done
}

/// `Table::insert` of text: the row is there, in place of one under the same
/// key. The table is made where it is not there. Where it fails, what the
/// transaction then sees is left open.
#[verifier::external_body]
fn insert_text(t: &mut redb::WriteTransaction, table: &str, key: &str, value: &str) -> (r: Result<
    (),
    String,
>)
    requires
        table@.len() > 0,
    ensures
        origin(*final(t)) == origin(*old(t)),
        r is Ok ==> written(*final(t)) == written(*old(t)).insert(
            (table@, key@),
            Cell::Text(value@),
        ),
        r is Ok ==> tables_seen(*final(t)) == tables_seen(*old(t)).insert(table@),
{
    let definition = redb::TableDefinition::<&str, &str>::new(table);
    let mut rows = t.open_table(definition).map_err(|e| e.to_string())?;
    let done = rows.insert(key, value).map(|_| ()).map_err(|e| e.to_string());
    done
}

/// `Table::remove` from a table of bytes: there is no row under the key. The
/// table is made where it is not there. Where it fails, what the transaction
/// then sees is left open.
#[verifier::external_body]
fn remove_bytes(t: &mut redb::WriteTransaction, table: &str, key: &str) -> (r: Result<(), String>)
    requires
        table@.len() > 0,
    ensures
        origin(*final(t)) == origin(*old(t)),
        r is Ok ==> written(*final(t)) == written(*old(t)).remove((table@, key@)),
        r is Ok ==> tables_seen(*final(t)) == tables_seen(*old(t)).insert(table@),
{
    let definition = redb::TableDefinition::<&str, &[u8]>::new(table);
    let mut rows = t.open_table(definition).map_err(|e| e.to_string())?;
    let done = rows.remove(key).map(|_| ()).map_err(|e| e.to_string());
    done
}

/// `Table::remove` from a table of text: there is no row under the key. The
/// table is made where it is not there. Where it fails, what the transaction
/// then sees is left open.
#[verifier::external_body]
fn remove_text(t: &mut redb::WriteTransaction, table: &str, key: &str) -> (r: Result<(), String>)
    requires
        table@.len() > 0,
    ensures
        origin(*final(t)) == origin(*old(t)),
        r is Ok ==> written(*final(t)) == written(*old(t)).remove((table@, key@)),
        r is Ok ==> tables_seen(*final(t)) == tables_seen(*old(t)).insert(table@),
{
    let definition = redb::TableDefinition::<&str, &str>::new(table);
    let mut rows = t.open_table(definition).map_err(|e| e.to_string())?;
    let done = rows.remove(key).map(|_| ()).map_err(|e| e.to_string());
    done
}

/// `ReadableTable::iter` of a table of text inside a transaction, without the
/// values: the keys of the table, in the order of the text. The table is made
/// where it is not there.
#[verifier::external_body]
fn text_keys(t: &mut redb::WriteTransaction, table: &str) -> (r: Result<Vec<String>, String>)
    requires
        table@.len() > 0,
    ensures
        origin(*final(t)) == origin(*old(t)),
        written(*final(t)) == written(*old(t)),
        r is Ok ==> tables_seen(*final(t)) == tables_seen(*old(t)).insert(table@),
        r matches Ok(keys) ==> crate::strmap::in_order(
            keys.deep_view(),
            table_of(written(*old(t)), table@),
        ),
{
    let definition = redb::TableDefinition::<&str, &str>::new(table);
    let rows = t.open_table(definition).map_err(|e| e.to_string())?;
    let keys = redb::ReadableTable::iter(&rows)
        .map_err(|e| e.to_string())?
        .map(|row| row.map(|(k, _)| k.value().to_string()).map_err(|e| e.to_string()))
        .collect();
    keys
}

/// `ReadOnlyTable::get` in a table of bytes, in a transaction that sees what was
/// committed: the row under the key, if any. Without the table it fails.
#[verifier::external_body]
fn read_bytes(db: &redb::Database, table: &str, key: &str) -> (r: Result<Option<Vec<u8>>, String>)
    requires
        table@.len() > 0,
    ensures
        r matches Ok(row) ==> match row {
            Some(b) => committed(*db).contains_key((table@, key@)) && committed(*db)[(
                table@,
                key@,
            )] == Cell::Bytes(b@),
            None => !committed(*db).contains_key((table@, key@)),
        },
        r is Ok ==> tables_in(*db).contains(table@),
{
    let definition = redb::TableDefinition::<&str, &[u8]>::new(table);
    let t = redb::ReadableDatabase::begin_read(db).map_err(|e| e.to_string())?;
    let rows = t.open_table(definition).map_err(|e| e.to_string())?;
    let row = rows.get(key).map_err(|e| e.to_string())?;
    Ok(row.map(|b| b.value().to_vec()))
}

/// `ReadableTable::iter` of a table of bytes, in a transaction that sees what
/// was committed: its rows, each once, in the order of the keys. Without the
/// table it fails.
#[verifier::external_body]
fn all_bytes(db: &redb::Database, table: &str) -> (r: Result<Vec<(String, Vec<u8>)>, String>)
    requires
        table@.len() > 0,
    ensures
        r matches Ok(rows) ==> rows_of(rows@, table_of(committed(*db), table@)),
        r is Ok ==> tables_in(*db).contains(table@),
{
    let definition = redb::TableDefinition::<&str, &[u8]>::new(table);
    let t = redb::ReadableDatabase::begin_read(db).map_err(|e| e.to_string())?;
    let rows = t.open_table(definition).map_err(|e| e.to_string())?;
    let all = redb::ReadableTable::iter(&rows)
        .map_err(|e| e.to_string())?
        .map(|row| row.map(|(k, v)| (k.value().to_string(), v.value().to_vec())))
        .map(|row| row.map_err(|e| e.to_string()))
        .collect();
    all
}

/// One table, by key.
pub open spec fn table_of(cells: Map<(Seq<char>, Seq<char>), Cell>, table: Seq<char>) -> Map<
    Seq<char>,
    Cell,
> {
    Map::new(|k: Seq<char>| cells.contains_key((table, k)), |k: Seq<char>| cells[(table, k)])
}

/// Whether `rows` lists the rows of a table of bytes, each once, in the order
/// of the keys.
pub open spec fn rows_of(rows: Seq<(String, Vec<u8>)>, table: Map<Seq<char>, Cell>) -> bool {
    &&& crate::strmap::in_order(Seq::new(rows.len(), |i: int| rows[i].0@), table)
    &&& forall|i: int|
        0 <= i < rows.len() ==> table[(#[trigger] rows[i]).0@] == Cell::Bytes(rows[i].1@)
}

/// The table of sandboxes.
pub const SANDBOX: &'static str = "sandbox";

/// The table of containers.
pub const CONTAINER: &'static str = "container";

/// The table of leased addresses, each with the block it is out of.
pub const IPAM: &'static str = "ipam";

/// What a request for an address does to the database, and what it is
/// answered.
pub open spec fn lease_cells(
    before: Map<(Seq<char>, Seq<char>), Cell>,
    cidr: Seq<char>,
    r: Result<IpLeaseView, StoreErrorView>,
    after: Map<(Seq<char>, Seq<char>), Cell>,
) -> bool {
    match ipam::lease_answer(table_of(before, IPAM@).dom(), cidr) {
        Ok(ip) => {
            &&& r == Ok::<IpLeaseView, StoreErrorView>(
                IpLeaseView { ip, cidr, sandbox_id: ""@ },
            )
            &&& after == before.insert((IPAM@, ip), Cell::Text(cidr))
        },
        Err(e) => r == Err::<IpLeaseView, StoreErrorView>(e) && after == before,
    }
}

fn db_error<T>(r: Result<T, String>) -> (s: Result<T, StoreError>)
    ensures
        match r {
            Ok(t) => s matches Ok(u) && u == t,
            Err(e) => s matches Err(f) && f@ == StoreErrorView::Db(e@),
        },
{
    match r {
        Ok(t) => Ok(t),
        Err(e) => Err(StoreError::Db(e)),
    }
}

/// The writes of one transaction.
pub struct RedbTxn {
    t: redb::WriteTransaction,
}

impl RedbTxn {
    /// What the transaction sees.
    pub closed spec fn cells(&self) -> Map<(Seq<char>, Seq<char>), Cell> {
        written(self.t)
    }

    /// The tables that the transaction sees.
    pub closed spec fn tables(&self) -> Set<Seq<char>> {
        tables_seen(self.t)
    }

    /// The database that the transaction is on.
    pub closed spec fn home(&self) -> redb::Database {
        origin(self.t)
    }

    pub fn put_sandbox(&mut self, id: &str, record: &[u8]) -> (r: Result<(), StoreError>)
        ensures
            final(self).home() == old(self).home(),
            r is Ok ==> final(self).tables() == old(self).tables().insert(SANDBOX@),
            match r {
                Ok(_) => final(self).cells() == old(self).cells().insert(
                    (SANDBOX@, id@),
                    Cell::Bytes(record@),
                ),
                Err(e) => e is Db,
            },
    {
        proof {
            reveal_strlit("sandbox");
        }
        db_error(insert_bytes(&mut self.t, SANDBOX, id, record))
    }

    pub fn put_container(&mut self, id: &str, record: &[u8]) -> (r: Result<(), StoreError>)
        ensures
            final(self).home() == old(self).home(),
            r is Ok ==> final(self).tables() == old(self).tables().insert(CONTAINER@),
            match r {
                Ok(_) => final(self).cells() == old(self).cells().insert(
                    (CONTAINER@, id@),
                    Cell::Bytes(record@),
                ),
                Err(e) => e is Db,
            },
    {
        proof {
            reveal_strlit("container");
        }
        db_error(insert_bytes(&mut self.t, CONTAINER, id, record))
    }

    pub fn delete_sandbox(&mut self, id: &str) -> (r: Result<(), StoreError>)
        ensures
            final(self).home() == old(self).home(),
            r is Ok ==> final(self).tables() == old(self).tables().insert(SANDBOX@),
            match r {
                Ok(_) => final(self).cells() == old(self).cells().remove((SANDBOX@, id@)),
                Err(e) => e is Db,
            },
    {
        proof {
            reveal_strlit("sandbox");
        }
        db_error(remove_bytes(&mut self.t, SANDBOX, id))
    }

    pub fn delete_container(&mut self, id: &str) -> (r: Result<(), StoreError>)
        ensures
            final(self).home() == old(self).home(),
            r is Ok ==> final(self).tables() == old(self).tables().insert(CONTAINER@),
            match r {
                Ok(_) => final(self).cells() == old(self).cells().remove((CONTAINER@, id@)),
                Err(e) => e is Db,
            },
    {
        proof {
            reveal_strlit("container");
        }
        db_error(remove_bytes(&mut self.t, CONTAINER, id))
    }

    /// Leases the next address of a block and notes it as in use.
    pub fn lease_ip(&mut self, cidr: &str) -> (r: Result<IpLease, StoreError>)
        ensures
            final(self).home() == old(self).home(),
            (r matches Err(e) && e is Db) || lease_cells(
                old(self).cells(),
                cidr@,
                crate::model::result_view(r),
                final(self).cells(),
            ),
            ipam::lease_answer(table_of(old(self).cells(), IPAM@).dom(), cidr@) is Err
                ==> r is Err && final(self).cells() == old(self).cells(),
            r is Ok ==> final(self).tables() == old(self).tables().insert(IPAM@),
    {
        proof {
            reveal_strlit("ipam");
        }
        let keys = match db_error(text_keys(&mut self.t, IPAM)) {
            Ok(k) => k,
            Err(e) => {
                return Err(e);
            },
        };
        let ghost table = table_of(self.cells(), IPAM@);
        let mut used: StrMap<bool> = StrMap::new();
        let mut i: usize = 0;
        while i < keys.len()
            invariant
                i <= keys@.len(),
                forall|k: Seq<char>|
                    #![trigger used@.contains_key(k)]
                    used@.contains_key(k) <==> exists|j: int|
                        0 <= j < i && #[trigger] keys.deep_view()[j] == k,
            decreases keys@.len() - i,
        {
            let ghost before = used@;
            let ghost key = keys.deep_view()[i as int];
            used.insert(keys[i].clone(), true);
            i = i + 1;
            assert forall|k: Seq<char>|
                #![trigger used@.contains_key(k)]
                used@.contains_key(k) <==> exists|j: int|
                    0 <= j < i && #[trigger] keys.deep_view()[j] == k by {
                if k == key {
                    assert(keys.deep_view()[i - 1] == k);
                } else if before.contains_key(k) {
                    let j = choose|j: int| 0 <= j < i - 1 && #[trigger] keys.deep_view()[j] == k;
                    assert(keys.deep_view()[j] == k);
                }
            }
        }
        proof {
            assert forall|k: Seq<char>| used@.dom().contains(k) <==> table.dom().contains(k) by {
                if used@.contains_key(k) {
                    let j = choose|j: int|
                        0 <= j < keys.deep_view().len() && #[trigger] keys.deep_view()[j] == k;
                    assert(table.contains_key(keys.deep_view()[j]));
                }
                if table.contains_key(k) {
                    assert(keys.deep_view().contains(k));
                }
            }
            assert(used@.dom() =~= table.dom());
        }
        let ip = match ipam::next_free(&used, cidr) {
            Ok(ip) => ip,
            Err(e) => {
                return Err(e);
            },
        };
        match db_error(insert_text(&mut self.t, IPAM, ip.as_str(), cidr)) {
            Ok(_) => Ok(IpLease { ip, cidr: cidr.to_owned(), sandbox_id: "".to_owned() }),
            Err(e) => Err(e),
        }
    }

    pub fn release_ip(&mut self, lease: &IpLease) -> (r: Result<(), StoreError>)
        ensures
            final(self).home() == old(self).home(),
            r is Ok ==> final(self).tables() == old(self).tables().insert(IPAM@),
            match r {
                Ok(_) => final(self).cells() == old(self).cells().remove((IPAM@, lease.ip@)),
                Err(e) => e is Db,
            },
    {
        proof {
            reveal_strlit("ipam");
        }
        db_error(remove_text(&mut self.t, IPAM, lease.ip.as_str()))
    }
}

/// The tables of a database once the store's own are among them.
pub open spec fn with_own(tables: Set<Seq<char>>) -> Set<Seq<char>> {
    tables.insert(SANDBOX@).insert(CONTAINER@).insert(IPAM@)
}

/// What a read of a row is answered: the record, or that there is none.
pub fn found(row: Result<Option<Vec<u8>>, String>, what: &str, id: &str) -> (r: Result<
    Vec<u8>,
    StoreError,
>)
    ensures
        match row {
            Ok(Some(b)) => r matches Ok(c) && c@ == b@,
            Ok(None) => r matches Err(e) && e@ == StoreErrorView::NotFound(
                what@ + " "@ + id@,
            ),
            Err(x) => r matches Err(e) && e@ == StoreErrorView::Db(x@),
        },
{
    match row {
        Ok(Some(b)) => Ok(b),
        Ok(None) => Err(StoreError::NotFound(text::cat3(what, " ", id))),
        Err(x) => Err(StoreError::Db(x)),
    }
}

/// What comes of a transaction that ended as `ended` and whose writes were
/// answered with `res`: an error is handed on and nothing is kept; otherwise all
/// is kept, unless the database fails to keep it.
pub open spec fn kept(
    before: RedbStore,
    ended: RedbTxn,
    res: Result<(), StoreError>,
    r: Result<(), StoreError>,
    after: RedbStore,
) -> bool {
    match res {
        Err(_) => {
            &&& r == res
            &&& after.cells() == before.cells()
            &&& after.tables() == before.tables()
        },
        Ok(_) => match r {
            Ok(_) => after.cells() == ended.cells() && after.tables() == ended.tables(),
            Err(e) => e is Db,
        },
    }
}

/// A store that lives in a database. Any call may fail with
/// [`StoreError::Db`].
pub struct RedbStore {
    db: redb::Database,
}

impl RedbStore {
    /// What the store holds.
    pub closed spec fn cells(&self) -> Map<(Seq<char>, Seq<char>), Cell> {
        committed(self.db)
    }

    /// The tables that the store has.
    pub closed spec fn tables(&self) -> Set<Seq<char>> {
        tables_in(self.db)
    }

    /// The database of the store.
    pub closed spec fn home(&self) -> redb::Database {
        self.db
    }

    /// A store in memory, with its tables and without content.
    pub fn open_in_memory() -> (r: Result<Self, StoreError>)
        ensures
            match r {
                Ok(s) => s.cells() == no_cells() && s.tables() == with_own(no_tables()),
                Err(e) => e is Db,
            },
    {
        match db_error(new_in_memory()) {
            Ok(db) => Self::from_db(db),
            Err(e) => Err(e),
        }
    }

    /// A store in a database, which holds what the database held. The tables
    /// are made where they are not there, so that no read fails for want of one.
    pub fn from_db(db: redb::Database) -> (r: Result<Self, StoreError>)
        ensures
            match r {
                Ok(s) => s.cells() == committed(db) && s.tables() == with_own(tables_in(db)),
                Err(e) => e is Db,
            },
    {
        proof {
            reveal_strlit("sandbox");
            reveal_strlit("container");
            reveal_strlit("ipam");
        }
        let mut db = db;
        let mut t = match db_error(begin_write(&db)) {
            Ok(t) => t,
            Err(e) => {
                return Err(e);
            },
        };
        match db_error(make_bytes_table(&mut t, SANDBOX)) {
            Ok(_) => {},
            Err(e) => {
                return Err(e);
            },
        }
        match db_error(make_bytes_table(&mut t, CONTAINER)) {
            Ok(_) => {},
            Err(e) => {
                return Err(e);
            },
        }
        match db_error(make_text_table(&mut t, IPAM)) {
            Ok(_) => {},
            Err(e) => {
                return Err(e);
            },
        }
        match db_error(commit(&mut db, t)) {
            Ok(_) => Ok(RedbStore { db }),
            Err(e) => Err(e),
        }
    }

    /// The record of a sandbox.
    pub fn get_sandbox(&self, id: &str) -> (r: Result<Vec<u8>, StoreError>)
        ensures
            r is Ok ==> self.tables().contains(SANDBOX@),
            match r {
                Ok(b) => self.cells().contains_key((SANDBOX@, id@)) && self.cells()[(
                    SANDBOX@,
                    id@,
                )] == Cell::Bytes(b@),
                Err(e) => e is Db || (!self.cells().contains_key((SANDBOX@, id@)) && e@
                    == StoreErrorView::NotFound("sandbox "@ + id@)),
            },
    {
        proof {
            reveal_strlit("sandbox");
            reveal_strlit(" ");
            reveal_strlit("sandbox ");
            assert("sandbox"@ + " "@ =~= "sandbox "@);
        }
        found(read_bytes(&self.db, SANDBOX, id), "sandbox", id)
    }

    /// The record of a container.
    pub fn get_container(&self, id: &str) -> (r: Result<Vec<u8>, StoreError>)
        ensures
            r is Ok ==> self.tables().contains(CONTAINER@),
            match r {
                Ok(b) => self.cells().contains_key((CONTAINER@, id@)) && self.cells()[(
                    CONTAINER@,
                    id@,
                )] == Cell::Bytes(b@),
                Err(e) => e is Db || (!self.cells().contains_key((CONTAINER@, id@)) && e@
                    == StoreErrorView::NotFound("container "@ + id@)),
            },
    {
        proof {
            reveal_strlit("container");
            reveal_strlit(" ");
            reveal_strlit("container ");
            assert("container"@ + " "@ =~= "container "@);
        }
        found(read_bytes(&self.db, CONTAINER, id), "container", id)
    }

    /// The records of all sandboxes with their ids, in the order of the ids.
    pub fn sandbox_rows(&self) -> (r: Result<Vec<(String, Vec<u8>)>, StoreError>)
        ensures
            r is Ok ==> self.tables().contains(SANDBOX@),
            match r {
                Ok(rows) => rows_of(rows@, table_of(self.cells(), SANDBOX@)),
                Err(e) => e is Db,
            },
    {
        proof {
            reveal_strlit("sandbox");
        }
        db_error(all_bytes(&self.db, SANDBOX))
    }

    /// The records of all containers with their ids, in the order of the ids.
    pub fn container_rows(&self) -> (r: Result<Vec<(String, Vec<u8>)>, StoreError>)
        ensures
            r is Ok ==> self.tables().contains(CONTAINER@),
            match r {
                Ok(rows) => rows_of(rows@, table_of(self.cells(), CONTAINER@)),
                Err(e) => e is Db,
            },
    {
        proof {
            reveal_strlit("container");
        }
        db_error(all_bytes(&self.db, CONTAINER))
    }

    /// Runs `f` on what the store holds. Where `f` returns `Ok`, all that it
    /// wrote is kept; where it returns an error, none of it. `f` is to stay on
    /// the transaction that it is given. Only where the database fails to keep
    /// what was written is it left open what it holds.
    pub fn transaction<F: FnOnce(&mut RedbTxn) -> Result<(), StoreError>>(&mut self, f: F) -> (r: Result<
        (),
        StoreError,
    >)
        requires
            forall|t: &mut RedbTxn|
                (*t).cells() == old(self).cells() && (*t).tables() == old(self).tables()
                    ==> #[trigger] f.requires((t,)),
            forall|t: &mut RedbTxn, res: Result<(), StoreError>| #[trigger]
                f.ensures((t,), res) ==> (*final(t)).home() == (*t).home(),
        ensures
            ({
                &&& r matches Err(e)
                &&& e is Db
                &&& final(self).cells() == old(self).cells()
                &&& final(self).tables() == old(self).tables()
            }) || exists|t: &mut RedbTxn, res: Result<(), StoreError>|
                (*t).cells() == old(self).cells() && (*t).tables() == old(self).tables()
                    && #[trigger] f.ensures((t,), res) && kept(
                    *old(self),
                    *final(t),
                    res,
                    r,
                    *final(self),
                ),
    {
        match db_error(begin_write(&self.db)) {
            Ok(t) => self.finish(RedbTxn { t }, f),
            Err(e) => Err(e),
        }
    }

    /// Runs `f` on a transaction that was begun on the store, and then keeps
    /// what it wrote or does not, as `f` says.
    pub fn finish<F: FnOnce(&mut RedbTxn) -> Result<(), StoreError>>(
        &mut self,
        txn: RedbTxn,
        f: F,
    ) -> (r: Result<(), StoreError>)
        requires
            txn.home() == old(self).home(),
            forall|t: &mut RedbTxn| *t == txn ==> #[trigger] f.requires((t,)),
            forall|t: &mut RedbTxn, res: Result<(), StoreError>| #[trigger]
                f.ensures((t,), res) ==> (*final(t)).home() == (*t).home(),
        ensures
            exists|t: &mut RedbTxn, res: Result<(), StoreError>|
                *t == txn && #[trigger] f.ensures((t,), res) && kept(
                    *old(self),
                    *final(t),
                    res,
                    r,
                    *final(self),
                ),
    {
        let mut txn = txn;
        let r = f(&mut txn);
        if r.is_ok() {
            match db_error(commit(&mut self.db, txn.t)) {
                Ok(_) => {},
                Err(e) => {
                    return Err(e);
                },
            }
        }
        r
    }

    pub fn put_sandbox(&mut self, id: &str, record: &[u8]) -> (r: Result<(), StoreError>)
        ensures
            r is Ok ==> final(self).tables() == old(self).tables().insert(SANDBOX@),
            match r {
                Ok(_) => final(self).cells() == old(self).cells().insert(
                (SANDBOX@, id@),
                Cell::Bytes(record@),
            ),
                Err(e) => e is Db,
            },
    {
        let write = |t: &mut RedbTxn| -> (res: Result<(), StoreError>)
            ensures
                (*final(t)).home() == (*old(t)).home(),
                res is Ok ==> (*final(t)).tables() == (*old(t)).tables().insert(SANDBOX@),
                match res {
                    Ok(_) => (*final(t)).cells() == (*old(t)).cells().insert(
                (SANDBOX@, id@),
                Cell::Bytes(record@),
            ),
                    Err(e) => e is Db,
                },
        {
            t.put_sandbox(id, record)
        };
        self.transaction(write)
    }

    pub fn put_container(&mut self, id: &str, record: &[u8]) -> (r: Result<(), StoreError>)
        ensures
            r is Ok ==> final(self).tables() == old(self).tables().insert(CONTAINER@),
            match r {
                Ok(_) => final(self).cells() == old(self).cells().insert(
                (CONTAINER@, id@),
                Cell::Bytes(record@),
            ),
                Err(e) => e is Db,
            },
    {
        let write = |t: &mut RedbTxn| -> (res: Result<(), StoreError>)
            ensures
                (*final(t)).home() == (*old(t)).home(),
                res is Ok ==> (*final(t)).tables() == (*old(t)).tables().insert(CONTAINER@),
                match res {
                    Ok(_) => (*final(t)).cells() == (*old(t)).cells().insert(
                (CONTAINER@, id@),
                Cell::Bytes(record@),
            ),
                    Err(e) => e is Db,
                },
        {
            t.put_container(id, record)
        };
        self.transaction(write)
    }

    pub fn delete_sandbox(&mut self, id: &str) -> (r: Result<(), StoreError>)
        ensures
            r is Ok ==> final(self).tables() == old(self).tables().insert(SANDBOX@),
            match r {
                Ok(_) => final(self).cells() == old(self).cells().remove((SANDBOX@, id@)),
                Err(e) => e is Db,
            },
    {
        let write = |t: &mut RedbTxn| -> (res: Result<(), StoreError>)
            ensures
                (*final(t)).home() == (*old(t)).home(),
                res is Ok ==> (*final(t)).tables() == (*old(t)).tables().insert(SANDBOX@),
                match res {
                    Ok(_) => (*final(t)).cells() == (*old(t)).cells().remove((SANDBOX@, id@)),
                    Err(e) => e is Db,
                },
        {
            t.delete_sandbox(id)
        };
        self.transaction(write)
    }

    pub fn delete_container(&mut self, id: &str) -> (r: Result<(), StoreError>)
        ensures
            r is Ok ==> final(self).tables() == old(self).tables().insert(CONTAINER@),
            match r {
                Ok(_) => final(self).cells() == old(self).cells().remove((CONTAINER@, id@)),
                Err(e) => e is Db,
            },
    {
        let write = |t: &mut RedbTxn| -> (res: Result<(), StoreError>)
            ensures
                (*final(t)).home() == (*old(t)).home(),
                res is Ok ==> (*final(t)).tables() == (*old(t)).tables().insert(CONTAINER@),
                match res {
                    Ok(_) => (*final(t)).cells() == (*old(t)).cells().remove((CONTAINER@, id@)),
                    Err(e) => e is Db,
                },
        {
            t.delete_container(id)
        };
        self.transaction(write)
    }

    /// Leases the next address of a block and notes it as in use.
    pub fn lease_ip(&mut self, cidr: &str) -> (r: Result<IpLease, StoreError>)
        ensures
            (r matches Err(e) && e is Db) || lease_cells(
                old(self).cells(),
                cidr@,
                crate::model::result_view(r),
                final(self).cells(),
            ),
            ipam::lease_answer(table_of(old(self).cells(), IPAM@).dom(), cidr@) is Err
                ==> r is Err && final(self).cells() == old(self).cells() && final(self).tables()
                == old(self).tables(),
            r is Ok ==> final(self).tables() == old(self).tables().insert(IPAM@),
    {
        let t = match db_error(begin_write(&self.db)) {
            Ok(t) => t,
            Err(e) => {
                return Err(e);
            },
        };
        let mut txn = RedbTxn { t };
        match txn.lease_ip(cidr) {
            Ok(lease) => match db_error(commit(&mut self.db, txn.t)) {
                Ok(_) => Ok(lease),
                Err(e) => Err(e),
            },
            Err(e) => Err(e),
        }
    }

    pub fn release_ip(&mut self, lease: &IpLease) -> (r: Result<(), StoreError>)
        ensures
            r is Ok ==> final(self).tables() == old(self).tables().insert(IPAM@),
            match r {
                Ok(_) => final(self).cells() == old(self).cells().remove((IPAM@, lease.ip@)),
                Err(e) => e is Db,
            },
    {
        let t = match db_error(begin_write(&self.db)) {
            Ok(t) => t,
            Err(e) => {
                return Err(e);
            },
        };
        let mut txn = RedbTxn { t };
        match txn.release_ip(lease) {
            Ok(_) => db_error(commit(&mut self.db, txn.t)),
            Err(e) => Err(e),
        }
    }
}

} // verus!
