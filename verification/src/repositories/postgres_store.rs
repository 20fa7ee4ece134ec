//! The session store as the web layer sees it: save, load, delete and the
//! sweep of expired sessions, over the session table.

use vstd::prelude::*;
use crate::errors::StoreError;
use crate::repositories::session_repository;
use crate::repositories::session_repository::SessionDb;
use crate::repositories::session_repository::SessionRow;
use crate::repositories::session_repository::SessionTable;
use crate::repositories::session_repository::loaded;
use crate::repositories::session_repository::swept;
use crate::repositories::session_repository::current_timestamp;

verus! {

/// Whether `char::is_alphabetic` holds of a character: the Unicode
/// property `Alphabetic`.
pub uninterp spec fn alphabetic(c: char) -> bool;

/// Whether `char::is_alphanumeric` holds of a character: alphabetic, or
/// in one of the Unicode number categories.
pub uninterp spec fn alphanumeric(c: char) -> bool;

/// `char::is_alphabetic` of std: a function of the character alone.
pub assume_specification[ char::is_alphabetic ](c: char) -> (result: bool)
    ensures
        result == alphabetic(c),
;

/// `char::is_alphanumeric` of std: a function of the character alone.
pub assume_specification[ char::is_alphanumeric ](c: char) -> (result: bool)
    ensures
        result == alphanumeric(c),
;

/// A name that can stand unquoted as a schema or table name: it is not
/// empty, starts with a letter or an underscore, and goes on with letters,
/// digits, underscores and dollar signs.
pub open spec fn valid_identifier(name: Seq<char>) -> bool {
    &&& name.len() > 0
    &&& (alphabetic(name[0]) || name[0] == '_')
    &&& forall|i: int|
        0 <= i < name.len() ==> alphanumeric(#[trigger] name[i]) || name[i] == '_' || name[i]
            == '$'
}

/// Whether `name` can stand unquoted as a schema or table name.
pub fn is_valid_identifier(name: &str) -> (valid: bool)
    ensures
        valid == valid_identifier(name@),
{
    let len = name.unicode_len();
    if len == 0 {
        return false;
    }
    let first = name.get_char(0);
    if !(first.is_alphabetic() || first == '_') {
        return false;
    }
    let mut i: usize = 0;
    while i < len
        invariant
            i <= len,
            len == name@.len(),
            forall|j: int|
                0 <= j < i ==> alphanumeric(#[trigger] name@[j]) || name@[j] == '_' || name@[j]
                    == '$',
        decreases len - i,
    {
        let c = name.get_char(i);
        if !(c.is_alphanumeric() || c == '_' || c == '$') {
            return false;
        }
        i += 1;
    }
    true
}

/// What `found` holds, as a mathematical value.
pub open spec fn row_of(found: Option<SessionDb>) -> Option<SessionRow> {
    match found {
        Some(row) => Some(row@),
        None => None,
    }
}

/// The session store.
#[derive(Debug)]
pub struct PostgresStore {
    pool: SessionTable,
    schema_name: String,
    table_name: String,
}

impl View for PostgresStore {
    type V = Map<Seq<char>, SessionRow>;

    closed spec fn view(&self) -> Map<Seq<char>, SessionRow> {
        self.pool@
    }
}

impl PostgresStore {
    /// The store's invariant: that of its table, and the names under
    /// which the table is kept.
    pub closed spec fn wf(&self) -> bool {
        &&& self.pool.wf()
        &&& self.schema_name@ == "sessions"@
        &&& self.table_name@ == "session"@
    }

    /// The schema that holds the session table.
    pub fn schema_name(&self) -> (name: &str)
        requires
            self.wf(),
        ensures
            name@ == "sessions"@,
    {
        self.schema_name.as_str()
    }

    /// The name of the session table.
    pub fn table_name(&self) -> (name: &str)
        requires
            self.wf(),
        ensures
            name@ == "session"@,
    {
        self.table_name.as_str()
    }

    /// A store over the table `pool`.
    pub fn new(pool: SessionTable) -> (store: PostgresStore)
        requires
            pool.wf(),
        ensures
            store.wf(),
            store@ == pool@,
    {
        PostgresStore { pool, schema_name: "sessions".to_owned(), table_name: "session".to_owned() }
    }

    /// Writes `record` under its identifier, payload and expiry together,
    /// over whatever was stored there.
    pub fn save(&mut self, record: &SessionDb) -> (result: Result<(), StoreError>)
        requires
            old(self).wf(),
        ensures
            result is Ok,
            final(self).wf(),
            final(self)@ == old(self)@.insert(record.id@, record@),
    {
        session_repository::save(&mut self.pool, record)
    }

    /// The session stored under `session_id`, as a request at the moment
    /// `now` is given it: nothing where there is no row, and nothing where
    /// the row's expiry is `now` or earlier.
    pub fn load_at(&self, session_id: &String, now: i64) -> (result: Result<
        Option<SessionDb>,
        StoreError,
    >)
        requires
            self.wf(),
        ensures
            result is Ok,
            row_of(result->Ok_0) == loaded(self@, session_id@, now),
            result->Ok_0 matches Some(row) ==> row.id@ == session_id@,
    {
        Ok(self.pool.load_at(session_id, now))
    }

    /// The session stored under `session_id`, as a request at the present
    /// moment is given it.
    pub fn load(&self, session_id: &String) -> (result: Result<Option<SessionDb>, StoreError>)
        requires
            self.wf(),
        ensures
            result is Ok,
            exists|now: i64| row_of(result->Ok_0) == loaded(self@, session_id@, now),
            !self@.contains_key(session_id@) ==> result->Ok_0 is None,
            result->Ok_0 matches Some(row) ==> row.id@ == session_id@ && row@ == self@[session_id@],
    {
        let now = current_timestamp();
        let result = self.load_at(session_id, now);
        assert(row_of(result->Ok_0) == loaded(self@, session_id@, now));
        result
    }

    /// Removes the session stored under `session_id`, if there is one.
    pub fn delete(&mut self, session_id: &String) -> (result: Result<(), StoreError>)
        requires
            old(self).wf(),
        ensures
            result is Ok,
            final(self).wf(),
            final(self)@ == old(self)@.remove(session_id@),
    {
        session_repository::delete_by_id(&mut self.pool, session_id.clone())
    }

    /// Sweeps the store at the moment `now`.
    pub fn delete_expired_at(&mut self, now: i64) -> (result: Result<(), StoreError>)
        requires
            old(self).wf(),
        ensures
            result is Ok,
            final(self).wf(),
            final(self)@ == swept(old(self)@, now),
    {
        self.pool.delete_expired_at(now);
        Ok(())
    }

    /// Sweeps the store at the present moment.
    pub fn delete_expired(&mut self) -> (result: Result<(), StoreError>)
        requires
            old(self).wf(),
        ensures
            result is Ok,
            final(self).wf(),
            exists|now: i64| final(self)@ == swept(old(self)@, now),
    {
        let ghost before = self@;
        let result = session_repository::delete_expired(&mut self.pool);
        proof {
            let now = choose|now: i64| self.pool@ == swept(before, now);
            assert(self@ == swept(before, now));
        }
        result
    }
}

} // verus!
