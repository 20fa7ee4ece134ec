//! The session table: one row per session identifier, with its payload and
//! the moment it expires.
//!
//! Moments are whole seconds since the Unix epoch, in UTC. A row whose
//! expiry lies before the present moment is expired and may be swept; a
//! row is handed to a request only while its expiry lies after it.

use vstd::prelude::*;
use crate::errors::StoreError;

verus! {

/// A stored session: the identifier, the serialised payload, and the
/// moment of expiry in seconds since the Unix epoch.
#[derive(Debug, PartialEq, Eq)]
pub struct SessionDb {
    pub id: String,
    pub data: Vec<u8>,
    pub expiry_date: i64,
}

/// The mathematical value of a stored session.
pub struct SessionRow {
    pub id: Seq<char>,
    pub data: Seq<u8>,
    pub expiry_date: i64,
}

impl View for SessionDb {
    type V = SessionRow;

    open spec fn view(&self) -> SessionRow {
        SessionRow { id: self.id@, data: self.data@, expiry_date: self.expiry_date }
    }
}

impl Clone for SessionDb {
    fn clone(&self) -> (copy: Self)
        ensures
            copy@ == self@,
    {
        let data = self.data.clone();
        assert(data@ =~= self.data@);
        SessionDb { id: self.id.clone(), data, expiry_date: self.expiry_date }
    }
}

/// The row may still be handed to a request at the moment `now`: its
/// expiry lies strictly after `now`.
pub open spec fn is_live(row: SessionRow, now: i64) -> bool {
    now < row.expiry_date
}

/// The row may be swept at the moment `now`: its expiry lies strictly
/// before `now`.
pub open spec fn is_expired(row: SessionRow, now: i64) -> bool {
    row.expiry_date < now
}

/// The table after a sweep at the moment `now`: the rows that are not
/// expired, unchanged.
pub open spec fn swept(table: Map<Seq<char>, SessionRow>, now: i64) -> Map<Seq<char>, SessionRow> {
    Map::new(|id: Seq<char>| table.contains_key(id) && !is_expired(table[id], now), |id: Seq<char>| table[id])
}

/// What a request that presents `id` at the moment `now` is given: the row
/// stored under `id`, if there is one and it is live.
pub open spec fn loaded(table: Map<Seq<char>, SessionRow>, id: Seq<char>, now: i64) -> Option<
    SessionRow,
> {
    if table.contains_key(id) && is_live(table[id], now) {
        Some(table[id])
    } else {
        None
    }
}

/// No two rows share an identifier.
spec fn distinct_ids(rows: Seq<SessionRow>) -> bool {
    forall|i: int, j: int| 0 <= i < j < rows.len() ==> rows[i].id != rows[j].id
}

/// The row at position `i` is stored under `id`.
spec fn row_at(rows: Seq<SessionRow>, id: Seq<char>, i: int) -> bool {
    0 <= i < rows.len() && rows[i].id == id
}

/// The rows as a map from identifier to row.
spec fn table_of(rows: Seq<SessionRow>) -> Map<Seq<char>, SessionRow> {
    Map::new(
        |id: Seq<char>| exists|i: int| row_at(rows, id, i),
        |id: Seq<char>| rows[choose|i: int| row_at(rows, id, i)],
    )
}

/// Each row is found in the map under its own identifier.
proof fn lemma_table_at(rows: Seq<SessionRow>, i: int)
    requires
        distinct_ids(rows),
        0 <= i < rows.len(),
    ensures
        table_of(rows).contains_key(rows[i].id),
        table_of(rows)[rows[i].id] == rows[i],
{
    assert(row_at(rows, rows[i].id, i));
}

/// Each key of the map is the identifier of the row it leads to.
proof fn lemma_table_key(rows: Seq<SessionRow>, id: Seq<char>) -> (i: int)
    requires
        distinct_ids(rows),
        table_of(rows).contains_key(id),
    ensures
        row_at(rows, id, i),
        table_of(rows)[id] == rows[i],
{
    let i = choose|i: int| row_at(rows, id, i);
    i
}

/// Taking a row out of the rows takes its identifier out of the map.
proof fn lemma_remove(rows: Seq<SessionRow>, i: int)
    requires
        distinct_ids(rows),
        0 <= i < rows.len(),
    ensures
        distinct_ids(rows.remove(i)),
        table_of(rows.remove(i)) == table_of(rows).remove(rows[i].id),
{
    let rest = rows.remove(i);
    assert forall|a: int, b: int| 0 <= a < b < rest.len() implies rest[a].id != rest[b].id by {
        let a0 = if a < i { a } else { a + 1 };
        let b0 = if b < i { b } else { b + 1 };
        assert(rest[a] == rows[a0] && rest[b] == rows[b0]);
    }
    assert forall|id: Seq<char>| #[trigger]
        table_of(rest).contains_key(id) == table_of(rows).remove(rows[i].id).contains_key(
            id,
        ) by {
        if table_of(rest).contains_key(id) {
            let a = lemma_table_key(rest, id);
            let a0 = if a < i { a } else { a + 1 };
            assert(rest[a] == rows[a0]);
            assert(row_at(rows, id, a0));
        }
        if table_of(rows).remove(rows[i].id).contains_key(id) {
            let a0 = lemma_table_key(rows, id);
            let a = if a0 < i { a0 } else { a0 - 1 };
            assert(rest[a] == rows[a0]);
            assert(row_at(rest, id, a));
        }
    }
    assert forall|id: Seq<char>| #[trigger] table_of(rest).contains_key(id) implies table_of(
        rest,
    )[id] == table_of(rows).remove(rows[i].id)[id] by {
        let a = lemma_table_key(rest, id);
        let a0 = if a < i { a } else { a + 1 };
        assert(rest[a] == rows[a0]);
        lemma_table_at(rows, a0);
    }
    assert(table_of(rest) =~= table_of(rows).remove(rows[i].id));
}

/// Appending a row with a new identifier inserts it into the map.
proof fn lemma_push(rows: Seq<SessionRow>, row: SessionRow)
    requires
        distinct_ids(rows),
        !table_of(rows).contains_key(row.id),
    ensures
        distinct_ids(rows.push(row)),
        table_of(rows.push(row)) == table_of(rows).insert(row.id, row),
{
    let more = rows.push(row);
    assert forall|a: int, b: int| 0 <= a < b < more.len() implies more[a].id != more[b].id by {
        if b == rows.len() {
            assert(row_at(rows, rows[a].id, a));
        }
    }
    assert forall|id: Seq<char>| #[trigger]
        table_of(more).contains_key(id) == table_of(rows).insert(row.id, row).contains_key(
            id,
        ) by {
        if table_of(more).contains_key(id) {
            let a = lemma_table_key(more, id);
            if a < rows.len() {
                assert(row_at(rows, id, a));
            }
        }
        if table_of(rows).insert(row.id, row).contains_key(id) {
            if id == row.id {
                assert(row_at(more, id, rows.len() as int));
            } else {
                let a = lemma_table_key(rows, id);
                assert(row_at(more, id, a));
            }
        }
    }
    assert forall|id: Seq<char>| #[trigger] table_of(more).contains_key(id) implies table_of(
        more,
    )[id] == table_of(rows).insert(row.id, row)[id] by {
        let a = lemma_table_key(more, id);
        if a < rows.len() {
            lemma_table_at(rows, a);
        }
    }
    assert(table_of(more) =~= table_of(rows).insert(row.id, row));
}

/// Replacing a row by one with the same identifier overwrites its entry.
proof fn lemma_update(rows: Seq<SessionRow>, i: int, row: SessionRow)
    requires
        distinct_ids(rows),
        0 <= i < rows.len(),
        rows[i].id == row.id,
    ensures
        distinct_ids(rows.update(i, row)),
        table_of(rows.update(i, row)) == table_of(rows).insert(row.id, row),
{
    let next = rows.update(i, row);
    assert forall|a: int, b: int| 0 <= a < b < next.len() implies next[a].id != next[b].id by {
        assert(next[a].id == rows[a].id && next[b].id == rows[b].id);
    }
    assert forall|id: Seq<char>| #[trigger]
        table_of(next).contains_key(id) == table_of(rows).insert(row.id, row).contains_key(
            id,
        ) by {
        if table_of(next).contains_key(id) {
            let a = lemma_table_key(next, id);
            assert(row_at(rows, id, a));
        }
        if table_of(rows).insert(row.id, row).contains_key(id) {
            if id == row.id {
                assert(row_at(next, id, i));
            } else {
                let a = lemma_table_key(rows, id);
                assert(row_at(next, id, a));
            }
        }
    }
    assert forall|id: Seq<char>| #[trigger] table_of(next).contains_key(id) implies table_of(
        next,
    )[id] == table_of(rows).insert(row.id, row)[id] by {
        let a = lemma_table_key(next, id);
        if a != i {
            assert(next[a] == rows[a]);
            lemma_table_at(rows, a);
        }
    }
    assert(table_of(next) =~= table_of(rows).insert(row.id, row));
}

/// The table of sessions, keyed by session identifier.
#[derive(Debug)]
pub struct SessionTable {
    rows: Vec<SessionDb>,
}

impl View for SessionTable {
    type V = Map<Seq<char>, SessionRow>;

    closed spec fn view(&self) -> Map<Seq<char>, SessionRow> {
        table_of(self.rows_view())
    }
}

impl SessionTable {
    /// The rows in the order in which they are kept.
    spec fn rows_view(&self) -> Seq<SessionRow> {
        Seq::new(self.rows@.len(), |i: int| self.rows@[i]@)
    }

    /// The table's invariant: no two rows share an identifier, and each
    /// row is stored under its own identifier.
    pub closed spec fn wf(&self) -> bool {
        distinct_ids(self.rows_view())
    }

    /// In a well-formed table each row is stored under its own identifier.
    pub proof fn lemma_keyed_by_id(&self, id: Seq<char>)
        requires
            self.wf(),
            self@.contains_key(id),
        ensures
            self@[id].id == id,
    {
        let i = lemma_table_key(self.rows_view(), id);
    }

    /// A table without sessions.
    pub fn new() -> (table: SessionTable)
        ensures
            table@ == Map::<Seq<char>, SessionRow>::empty(),
            table.wf(),
    {
        let table = SessionTable { rows: Vec::new() };
        assert(table@ =~= Map::<Seq<char>, SessionRow>::empty());
        table
    }

    /// The position of the row stored under `id`, if there is one.
    fn position(&self, id: &String) -> (found: Option<usize>)
        requires
            self.wf(),
        ensures
            match found {
                Some(i) => i < self.rows@.len() && self.rows@[i as int].id@ == id@
                    && self@.contains_key(id@) && self@[id@] == self.rows@[i as int]@,
                None => !self@.contains_key(id@),
            },
    {
        let mut i: usize = 0;
        while i < self.rows.len()
            invariant
                i <= self.rows.len(),
                self.wf(),
                forall|j: int| 0 <= j < i ==> self.rows@[j].id@ != id@,
            decreases self.rows.len() - i,
        {
            if self.rows[i].id == *id {
                proof {
                    lemma_table_at(self.rows_view(), i as int);
                }
                return Some(i);
            }
            i += 1;
        }
        proof {
            if self@.contains_key(id@) {
                let j = lemma_table_key(self.rows_view(), id@);
                assert(self.rows@[j].id@ == id@);
            }
        }
        None
    }

    /// Removes the rows that are expired at the moment `now`, and no
    /// others.
    pub fn delete_expired_at(&mut self, now: i64)
        requires
            old(self).wf(),
        ensures
            final(self).wf(),
            final(self)@ == swept(old(self)@, now),
    {
        let mut i: usize = 0;
        while i < self.rows.len()
            invariant
                i <= self.rows.len(),
                self.wf(),
                forall|j: int| 0 <= j < i ==> self.rows@[j].expiry_date >= now,
                forall|id: Seq<char>| #[trigger]
                    self@.contains_key(id) ==> old(self)@.contains_key(id) && self@[id] == old(
                        self,
                    )@[id],
                forall|id: Seq<char>|
                    old(self)@.contains_key(id) && !is_expired(old(self)@[id], now)
                        ==> #[trigger] self@.contains_key(id),
            decreases self.rows.len() - i,
        {
            if self.rows[i].expiry_date < now {
                let ghost before = self.rows_view();
                let ghost table = self@;
                let ghost gone = before[i as int];
                proof {
                    lemma_remove(before, i as int);
                    lemma_table_at(before, i as int);
                }
                self.rows.remove(i);
                proof {
                    assert(self.rows_view() =~= before.remove(i as int));
                    assert(self@ == table.remove(gone.id));
                    assert(table[gone.id] == gone && is_expired(gone, now));
                    assert forall|id: Seq<char>| #[trigger] self@.contains_key(id) implies old(
                        self,
                    )@.contains_key(id) && self@[id] == old(self)@[id] by {
                        assert(table.contains_key(id));
                    }
                    assert forall|id: Seq<char>|
                        old(self)@.contains_key(id) && !is_expired(
                            old(self)@[id],
                            now,
                        ) implies #[trigger] self@.contains_key(id) by {
                        assert(table.contains_key(id));
                    }
                }
            } else {
                i += 1;
            }
        }
        proof {
            assert forall|id: Seq<char>| #[trigger] self@.contains_key(id) implies !is_expired(
                self@[id],
                now,
            ) by {
                let j = lemma_table_key(self.rows_view(), id);
            }
            assert(self@ =~= swept(old(self)@, now));
        }
    }

    /// The row that a request presenting `id` at the moment `now` is
    /// given: the one stored under `id` if it is live, else nothing.
    pub fn load_at(&self, id: &String, now: i64) -> (found: Option<SessionDb>)
        requires
            self.wf(),
        ensures
            match found {
                Some(row) => loaded(self@, id@, now) == Some(row@) && row.id@ == id@,
                None => loaded(self@, id@, now) is None,
            },
    {
        match self.position(id) {
            Some(i) => {
                if now < self.rows[i].expiry_date {
                    Some(self.rows[i].clone())
                } else {
                    None
                }
            },
            None => None,
        }
    }
}

/// Calls `chrono::Utc::now` and takes its `timestamp`: the present moment
/// in whole seconds since the Unix epoch. Nothing is promised of the
/// value, which is the machine's clock. `Utc::now` does not return on a
/// machine whose clock stands before the epoch.
#[verifier::external_body]
pub(crate) fn current_timestamp() -> i64 {
    chrono::Utc::now().timestamp()
}

/// Writes `record` under its identifier: a new row where the identifier is
/// new, else the payload and the expiry of the row that is there are
/// overwritten together.
pub fn save(connection: &mut SessionTable, record: &SessionDb) -> (result: Result<(), StoreError>)
    requires
        old(connection).wf(),
    ensures
        result is Ok,
        final(connection).wf(),
        final(connection)@ == old(connection)@.insert(record.id@, record@),
{
    let row = record.clone();
    let ghost before = connection.rows_view();
    match connection.position(&record.id) {
        Some(i) => {
            proof {
                lemma_update(before, i as int, row@);
            }
            connection.rows.set(i, row);
            assert(connection.rows_view() =~= before.update(i as int, record@));
        },
        None => {
            proof {
                lemma_push(before, row@);
            }
            connection.rows.push(row);
            assert(connection.rows_view() =~= before.push(record@));
        },
    }
    Ok(())
}

/// Sweeps the table at the present moment: every row that is expired then
/// is removed, and every other row stays as it is.
pub fn delete_expired(connection: &mut SessionTable) -> (result: Result<(), StoreError>)
    requires
        old(connection).wf(),
    ensures
        result is Ok,
        final(connection).wf(),
        exists|now: i64| final(connection)@ == swept(old(connection)@, now),
{
    let now = current_timestamp();
    connection.delete_expired_at(now);
    Ok(())
}

/// The row stored under `id`, whether it is expired or not, or `NotFound`.
pub fn get_by_id(connection: &SessionTable, id: String) -> (result: Result<SessionDb, StoreError>)
    requires
        connection.wf(),
    ensures
        match result {
            Ok(row) => connection@.contains_key(id@) && row@ == connection@[id@] && row.id@ == id@,
            Err(error) => error == StoreError::NotFound && !connection@.contains_key(id@),
        },
{
    match connection.position(&id) {
        Some(i) => Ok(connection.rows[i].clone()),
        None => Err(StoreError::NotFound),
    }
}

/// Removes the row stored under `id`. Where there is none, nothing
/// changes, and that is no error.
pub fn delete_by_id(connection: &mut SessionTable, id: String) -> (result: Result<(), StoreError>)
    requires
        old(connection).wf(),
    ensures
        result is Ok,
        final(connection).wf(),
        final(connection)@ == old(connection)@.remove(id@),
{
    let ghost before = connection.rows_view();
    match connection.position(&id) {
        Some(i) => {
            proof {
                lemma_remove(before, i as int);
            }
            connection.rows.remove(i);
            assert(connection.rows_view() =~= before.remove(i as int));
        },
        None => {
            assert(connection@ =~= old(connection)@.remove(id@));
        },
    }
    Ok(())
}

} // verus!
