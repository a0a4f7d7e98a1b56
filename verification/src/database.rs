//! The `containers` table and the statements that the repository runs on it.
//!
//! `Database` holds the table in memory, as its rows. Each method does what
//! one SQL statement does under the schema: the identifier is the primary
//! key, the name is unique, and the status is one of six words. What the
//! schema enforces is the invariant `DatabaseView::wf`, which every method
//! keeps.

use crate::error::{DriverError, DriverErrorKind, DriverErrorView};
use crate::model::{ContainerStatus, Timestamp};
use crate::row::{ContainerRow, RowView};
use vstd::prelude::*;

verus! {

/// The secondary indexes of the table.
#[derive(Debug, Clone, Copy, PartialEq, Eq, Structural, Hash)]
pub enum Index {
    Name,
    Status,
    CreatedAt,
}

/// A storage backend: which schema objects exist, and the rows of the
/// `containers` table, the most recently created first.
#[derive(Debug)]
pub struct Database {
    table: bool,
    name_index: bool,
    status_index: bool,
    created_at_index: bool,
    rows: Vec<ContainerRow>,
}

/// What a `Database` holds.
#[verifier::ext_equal]
pub struct DatabaseView {
    /// Whether the `containers` table exists.
    pub table: bool,
    pub name_index: bool,
    pub status_index: bool,
    pub created_at_index: bool,
    /// The rows, ordered as a listing gives them.
    pub rows: Seq<RowView>,
}

/// What a sequence of rows holds.
pub open spec fn rows_view(rows: Seq<ContainerRow>) -> Seq<RowView> {
    rows.map_values(|row: ContainerRow| row@)
}

/// The driver's failure where a statement names a table that does not exist.
pub open spec fn no_such_table() -> DriverErrorView {
    DriverErrorView { kind: DriverErrorKind::Other, message: "no such table: containers"@ }
}

/// The driver's failure where a row would repeat a stored identifier.
pub open spec fn duplicate_id() -> DriverErrorView {
    DriverErrorView {
        kind: DriverErrorKind::UniqueViolation,
        message: "UNIQUE constraint failed: containers.id"@,
    }
}

/// The driver's failure where a row would repeat a stored name.
pub open spec fn duplicate_name() -> DriverErrorView {
    DriverErrorView {
        kind: DriverErrorKind::UniqueViolation,
        message: "UNIQUE constraint failed: containers.name"@,
    }
}

/// The driver's failure where a status is none of the six words.
pub open spec fn invalid_status() -> DriverErrorView {
    DriverErrorView {
        kind: DriverErrorKind::CheckViolation,
        message: "CHECK constraint failed: valid_status"@,
    }
}

/// What the outcome of a statement that hands back no rows holds.
pub open spec fn outcome_view(outcome: Result<(), DriverError>) -> Result<(), DriverErrorView> {
    match outcome {
        Ok(_) => Ok(()),
        Err(e) => Err(e@),
    }
}

/// What the outcome of a statement that counts the rows it changed holds.
pub open spec fn count_view(outcome: Result<u64, DriverError>) -> Result<u64, DriverErrorView> {
    match outcome {
        Ok(count) => Ok(count),
        Err(e) => Err(e@),
    }
}

/// How many rows at the head of `rows` were created after `t`.
pub open spec fn leading_after(rows: Seq<RowView>, t: Timestamp) -> int
    decreases rows.len(),
{
    if rows.len() == 0 || !rows[0].created_at.is_after(t) {
        0
    } else {
        1 + leading_after(rows.drop_first(), t)
    }
}

impl DatabaseView {
    /// A backend on which nothing has been provisioned.
    pub open spec fn blank() -> DatabaseView {
        DatabaseView {
            table: false,
            name_index: false,
            status_index: false,
            created_at_index: false,
            rows: Seq::empty(),
        }
    }

    /// Whether the table and its three indexes exist.
    pub open spec fn provisioned(self) -> bool {
        self.table && self.name_index && self.status_index && self.created_at_index
    }

    /// No two rows share a name.
    pub open spec fn names_unique(self) -> bool {
        forall|i: int, j: int|
            #![trigger self.rows[i], self.rows[j]]
            0 <= i < j < self.rows.len() ==> self.rows[i].name != self.rows[j].name
    }

    /// No two rows share an identifier.
    pub open spec fn ids_unique(self) -> bool {
        forall|i: int, j: int|
            #![trigger self.rows[i], self.rows[j]]
            0 <= i < j < self.rows.len() ==> self.rows[i].id != self.rows[j].id
    }

    /// Every stored status is one of the six words.
    pub open spec fn statuses_known(self) -> bool {
        forall|i: int|
            0 <= i < self.rows.len() ==> ContainerStatus::is_status_text(
                (#[trigger] self.rows[i]).status,
            )
    }

    /// No row stands before one that was created after it.
    pub open spec fn newest_first(self) -> bool {
        forall|i: int, j: int|
            #![trigger self.rows[i], self.rows[j]]
            0 <= i < j < self.rows.len() ==> self.rows[i].created_at.at_or_after(
                self.rows[j].created_at,
            )
    }

    /// Every row was updated at or after the time of its creation.
    pub open spec fn chronological(self) -> bool {
        forall|i: int|
            0 <= i < self.rows.len() ==> (#[trigger] self.rows[i]).updated_at.at_or_after(
                self.rows[i].created_at,
            )
    }

    /// What the schema enforces: rows and indexes exist only in a table, no
    /// identifier and no name occurs twice, and every status is known. The
    /// rows are kept in listing order.
    pub open spec fn wf(self) -> bool {
        &&& !self.table ==> self.rows.len() == 0 && !self.name_index && !self.status_index
            && !self.created_at_index
        &&& self.names_unique()
        &&& self.ids_unique()
        &&& self.statuses_known()
        &&& self.newest_first()
    }

    /// Whether a row has this name.
    pub open spec fn has_name(self, name: Seq<char>) -> bool {
        exists|i: int| 0 <= i < self.rows.len() && (#[trigger] self.rows[i]).name == name
    }

    /// The place of the row that has this name, where there is one.
    pub open spec fn index_of_name(self, name: Seq<char>) -> int {
        choose|i: int| 0 <= i < self.rows.len() && (#[trigger] self.rows[i]).name == name
    }

    /// The row that has this name.
    pub open spec fn row_named(self, name: Seq<char>) -> Option<RowView> {
        if self.has_name(name) {
            Some(self.rows[self.index_of_name(name)])
        } else {
            None
        }
    }

    /// Whether a row has this identifier.
    pub open spec fn has_id(self, id: Seq<char>) -> bool {
        exists|i: int| 0 <= i < self.rows.len() && (#[trigger] self.rows[i]).id == id
    }

    /// The place of the row that has this identifier, where there is one.
    pub open spec fn index_of_id(self, id: Seq<char>) -> int {
        choose|i: int| 0 <= i < self.rows.len() && (#[trigger] self.rows[i]).id == id
    }

    /// The row that has this identifier.
    pub open spec fn row_with_id(self, id: Seq<char>) -> Option<RowView> {
        if self.has_id(id) {
            Some(self.rows[self.index_of_id(id)])
        } else {
            None
        }
    }

    /// Where a row created at `t` goes: behind the leading rows that were
    /// created after `t`.
    pub open spec fn landing_place(self, t: Timestamp) -> int {
        leading_after(self.rows, t)
    }

    /// What storing `row` comes to: the schema refuses a status that is none
    /// of the six words, then an identifier that is already stored, then a
    /// name that is.
    pub open spec fn insert_outcome(self, row: RowView) -> Result<(), DriverErrorView> {
        if !self.table {
            Err(no_such_table())
        } else if !ContainerStatus::is_status_text(row.status) {
            Err(invalid_status())
        } else if self.has_id(row.id) {
            Err(duplicate_id())
        } else if self.has_name(row.name) {
            Err(duplicate_name())
        } else {
            Ok(())
        }
    }

    /// What giving the row named `name` a new status comes to: the number
    /// of rows changed, or the schema's refusal of a status that is none of
    /// the six words. Where no row has the name, the status is not looked at.
    pub open spec fn update_outcome(self, name: Seq<char>, status: Seq<char>) -> Result<
        u64,
        DriverErrorView,
    > {
        if !self.table {
            Err(no_such_table())
        } else if !self.has_name(name) {
            Ok(0)
        } else if !ContainerStatus::is_status_text(status) {
            Err(invalid_status())
        } else {
            Ok(1)
        }
    }

    /// What removing the row named `name` comes to: the number of rows
    /// removed.
    pub open spec fn delete_outcome(self, name: Seq<char>) -> Result<u64, DriverErrorView> {
        if !self.table {
            Err(no_such_table())
        } else if self.has_name(name) {
            Ok(1)
        } else {
            Ok(0)
        }
    }

    /// The backend with one more row.
    pub open spec fn with_row(self, row: RowView) -> DatabaseView {
        DatabaseView { rows: self.rows.insert(self.landing_place(row.created_at), row), ..self }
    }

    /// The backend after the row named `name`, if there is one, was given
    /// this status and the time of update `now`, or the time of its creation
    /// where `now` lies before that: no row is updated before it was created.
    pub open spec fn with_status(
        self,
        name: Seq<char>,
        status: Seq<char>,
        now: Timestamp,
    ) -> DatabaseView {
        if self.has_name(name) {
            let i = self.index_of_name(name);
            DatabaseView {
                rows: self.rows.update(
                    i,
                    RowView {
                        status,
                        updated_at: now.later_of(self.rows[i].created_at),
                        ..self.rows[i]
                    },
                ),
                ..self
            }
        } else {
            self
        }
    }

    /// The backend without the row named `name`.
    pub open spec fn without(self, name: Seq<char>) -> DatabaseView {
        if self.has_name(name) {
            DatabaseView { rows: self.rows.remove(self.index_of_name(name)), ..self }
        } else {
            self
        }
    }
}

/// What a row that was or was not found holds.
pub open spec fn found_view(found: Option<ContainerRow>) -> Option<RowView> {
    match found {
        Some(row) => Some(row@),
        None => None,
    }
}

impl Database {
    /// What the backend holds.
    pub closed spec fn view(&self) -> DatabaseView {
        DatabaseView {
            table: self.table,
            name_index: self.name_index,
            status_index: self.status_index,
            created_at_index: self.created_at_index,
            rows: rows_view(self.rows@),
        }
    }

    /// Whether the backend holds what the schema admits.
    pub open spec fn wf(&self) -> bool {
        self@.wf()
    }

    /// A backend on which nothing has been provisioned yet.
    pub fn new() -> (db: Database)
        ensures
            db@ == DatabaseView::blank(),
            db.wf(),
    {
        Database {
            table: false,
            name_index: false,
            status_index: false,
            created_at_index: false,
            rows: Vec::new(),
        }
    }

    /// Creates the `containers` table unless it exists.
    pub fn create_table(&mut self)
        requires
            old(self).wf(),
        ensures
            final(self)@ == (DatabaseView { table: true, ..old(self)@ }),
            final(self).wf(),
    {
        self.table = true;
    }

    /// Creates a secondary index unless it exists. Fails where there is no
    /// table to index.
    pub fn create_index(&mut self, index: Index) -> (outcome: Result<(), DriverError>)
        requires
            old(self).wf(),
        ensures
            final(self).wf(),
            match outcome {
                Ok(_) => old(self)@.table && final(self)@ == match index {
                    Index::Name => DatabaseView { name_index: true, ..old(self)@ },
                    Index::Status => DatabaseView { status_index: true, ..old(self)@ },
                    Index::CreatedAt => DatabaseView { created_at_index: true, ..old(self)@ },
                },
                Err(e) => !old(self)@.table && e@ == no_such_table() && final(self)@ == old(
                    self,
                )@,
            },
    {
        if !self.table {
            return Err(DriverError::new(DriverErrorKind::Other, "no such table: containers"));
        }
        match index {
            Index::Name => {
                self.name_index = true;
            },
            Index::Status => {
                self.status_index = true;
            },
            Index::CreatedAt => {
                self.created_at_index = true;
            },
        }
        Ok(())
    }

    /// The place of the row named `name`.
    fn position_of_name(&self, name: &String) -> (found: Option<usize>)
        requires
            self.wf(),
        ensures
            match found {
                Some(i) => i < self@.rows.len() && self@.has_name(name@) && self@.index_of_name(
                    name@,
                ) == i,
                None => !self@.has_name(name@),
            },
    {
        for i in 0..self.rows.len()
            invariant
                self.wf(),
                forall|j: int| 0 <= j < i ==> (#[trigger] self@.rows[j]).name != name@,
        {
            if self.rows[i].name == *name {
                proof {
                    self@.lemma_row_named(name@, i as int);
                }
                return Some(i);
            }
        }
        None
    }

    /// The place of the row whose identifier is `id`.
    fn position_of_id(&self, id: &String) -> (found: Option<usize>)
        requires
            self.wf(),
        ensures
            match found {
                Some(i) => i < self@.rows.len() && self@.has_id(id@) && self@.index_of_id(id@)
                    == i,
                None => !self@.has_id(id@),
            },
    {
        for i in 0..self.rows.len()
            invariant
                self.wf(),
                forall|j: int| 0 <= j < i ==> (#[trigger] self@.rows[j]).id != id@,
        {
            if self.rows[i].id == *id {
                proof {
                    self@.lemma_row_with_id(id@, i as int);
                }
                return Some(i);
            }
        }
        None
    }

    /// The row named `name`, if there is one.
    pub fn select_by_name(&self, name: &str) -> (outcome: Result<
        Option<ContainerRow>,
        DriverError,
    >)
        requires
            self.wf(),
        ensures
            match outcome {
                Ok(found) => self@.table && found_view(found) == self@.row_named(name@),
                Err(e) => !self@.table && e@ == no_such_table(),
            },
    {
        if !self.table {
            return Err(DriverError::new(DriverErrorKind::Other, "no such table: containers"));
        }
        let key = name.to_owned();
        match self.position_of_name(&key) {
            Some(i) => Ok(Some(self.rows[i].clone())),
            None => Ok(None),
        }
    }

    /// The row whose identifier is `id`, if there is one.
    pub fn select_by_id(&self, id: &str) -> (outcome: Result<Option<ContainerRow>, DriverError>)
        requires
            self.wf(),
        ensures
            match outcome {
                Ok(found) => self@.table && found_view(found) == self@.row_with_id(id@),
                Err(e) => !self@.table && e@ == no_such_table(),
            },
    {
        if !self.table {
            return Err(DriverError::new(DriverErrorKind::Other, "no such table: containers"));
        }
        let key = id.to_owned();
        match self.position_of_id(&key) {
            Some(i) => Ok(Some(self.rows[i].clone())),
            None => Ok(None),
        }
    }

    /// All rows, the most recently created first.
    pub fn select_all(&self) -> (outcome: Result<Vec<ContainerRow>, DriverError>)
        requires
            self.wf(),
        ensures
            match outcome {
                Ok(rows) => self@.table && rows_view(rows@) == self@.rows,
                Err(e) => !self@.table && e@ == no_such_table(),
            },
    {
        if !self.table {
            return Err(DriverError::new(DriverErrorKind::Other, "no such table: containers"));
        }
        let mut rows: Vec<ContainerRow> = Vec::new();
        for i in 0..self.rows.len()
            invariant
                rows@.len() == i,
                forall|j: int| 0 <= j < i ==> (#[trigger] rows@[j])@ == self@.rows[j],
        {
            rows.push(self.rows[i].clone());
        }
        assert(rows_view(rows@) =~= self@.rows);
        Ok(rows)
    }

    /// How many rows are named `name`.
    pub fn count_by_name(&self, name: &str) -> (outcome: Result<i64, DriverError>)
        requires
            self.wf(),
        ensures
            match outcome {
                Ok(count) => self@.table && count == (if self@.has_name(name@) {
                    1i64
                } else {
                    0i64
                }),
                Err(e) => !self@.table && e@ == no_such_table(),
            },
    {
        if !self.table {
            return Err(DriverError::new(DriverErrorKind::Other, "no such table: containers"));
        }
        let key = name.to_owned();
        match self.position_of_name(&key) {
            Some(_) => Ok(1),
            None => Ok(0),
        }
    }

    /// Where a row created at `t` goes.
    fn position_for(&self, t: Timestamp) -> (place: usize)
        requires
            self.wf(),
        ensures
            place == self@.landing_place(t),
            place <= self@.rows.len(),
    {
        let mut place: usize = 0;
        while place < self.rows.len() && self.rows[place].created_at.later_than(&t)
            invariant
                place <= self.rows.len(),
                forall|j: int| 0 <= j < place ==> (#[trigger] self@.rows[j]).created_at.is_after(t),
            decreases self.rows.len() - place,
        {
            place = place + 1;
        }
        proof {
            lemma_leading_after_is(self@.rows, t, place as int);
        }
        place
    }

    /// Stores a row. The schema refuses a status that is none of the six
    /// words, then an identifier that is already stored, then a name that is.
    pub fn insert(&mut self, row: ContainerRow) -> (outcome: Result<(), DriverError>)
        requires
            old(self).wf(),
        ensures
            final(self).wf(),
            match outcome {
                Ok(_) => final(self)@ == old(self)@.with_row(row@),
                Err(e) => final(self)@ == old(self)@,
            },
            outcome_view(outcome) == old(self)@.insert_outcome(row@),
            old(self)@.chronological() && row.updated_at.at_or_after(row.created_at)
                ==> final(self)@.chronological(),
    {
        if !self.table {
            return Err(DriverError::new(DriverErrorKind::Other, "no such table: containers"));
        }
        if !ContainerStatus::is_known(row.status.as_str()) {
            return Err(
                DriverError::new(
                    DriverErrorKind::CheckViolation,
                    "CHECK constraint failed: valid_status",
                ),
            );
        }
        if self.position_of_id(&row.id).is_some() {
            return Err(
                DriverError::new(
                    DriverErrorKind::UniqueViolation,
                    "UNIQUE constraint failed: containers.id",
                ),
            );
        }
        if self.position_of_name(&row.name).is_some() {
            return Err(
                DriverError::new(
                    DriverErrorKind::UniqueViolation,
                    "UNIQUE constraint failed: containers.name",
                ),
            );
        }
        let place = self.position_for(row.created_at);
        proof {
            self@.lemma_with_row(row@);
            assert(rows_view(self.rows@.insert(place as int, row)) =~= self@.rows.insert(
                place as int,
                row@,
            ));
        }
        self.rows.insert(place, row);
        Ok(())
    }

    /// Gives the row named `name` a new status and a new time of update, and
    /// says how many rows it changed. The time of update is `now`, or the
    /// time of the row's creation where `now` lies before that. The schema
    /// refuses a status that is none of the six words.
    pub fn update_status(&mut self, name: &str, status: &str, now: Timestamp) -> (outcome: Result<
        u64,
        DriverError,
    >)
        requires
            old(self).wf(),
        ensures
            final(self).wf(),
            count_view(outcome) == old(self)@.update_outcome(name@, status@),
            final(self)@ == (if outcome is Ok {
                old(self)@.with_status(name@, status@, now)
            } else {
                old(self)@
            }),
            old(self)@.chronological() ==> final(self)@.chronological(),
    {
        if !self.table {
            return Err(DriverError::new(DriverErrorKind::Other, "no such table: containers"));
        }
        let key = name.to_owned();
        let place = match self.position_of_name(&key) {
            Some(place) => place,
            None => {
                return Ok(0);
            },
        };
        if !ContainerStatus::is_known(status) {
            return Err(
                DriverError::new(
                    DriverErrorKind::CheckViolation,
                    "CHECK constraint failed: valid_status",
                ),
            );
        }
        proof {
            self@.lemma_with_status(name@, status@, now);
        }
        let ghost before = self@;
        let mut row = self.rows.remove(place);
        row.status = status.to_owned();
        row.updated_at = now.or_later(row.created_at);
        self.rows.insert(place, row);
        assert(self@.rows =~= before.with_status(name@, status@, now).rows);
        Ok(1)
    }

    /// Removes the row named `name`, and says how many rows it removed.
    pub fn delete_by_name(&mut self, name: &str) -> (outcome: Result<u64, DriverError>)
        requires
            old(self).wf(),
        ensures
            final(self).wf(),
            count_view(outcome) == old(self)@.delete_outcome(name@),
            final(self)@ == (if outcome is Ok {
                old(self)@.without(name@)
            } else {
                old(self)@
            }),
            old(self)@.chronological() ==> final(self)@.chronological(),
    {
        if !self.table {
            return Err(DriverError::new(DriverErrorKind::Other, "no such table: containers"));
        }
        let key = name.to_owned();
        let place = match self.position_of_name(&key) {
            Some(place) => place,
            None => {
                return Ok(0);
            },
        };
        proof {
            self@.lemma_without(name@);
        }
        let ghost before = self@;
        let _ = self.rows.remove(place);
        assert(self@.rows =~= before.without(name@).rows);
        Ok(1)
    }
}

/// The rows counted by `leading_after` were created after `t`, and the row
/// behind them, if there is one, was not.
pub proof fn lemma_leading_after(rows: Seq<RowView>, t: Timestamp)
    ensures
        0 <= leading_after(rows, t) <= rows.len(),
        forall|i: int|
            0 <= i < leading_after(rows, t) ==> (#[trigger] rows[i]).created_at.is_after(t),
        leading_after(rows, t) < rows.len() ==> !rows[leading_after(rows, t)].created_at.is_after(
            t,
        ),
    decreases rows.len(),
{
    if rows.len() == 0 || !rows[0].created_at.is_after(t) {
    } else {
        let rest = rows.drop_first();
        lemma_leading_after(rest, t);
        assert forall|i: int| 0 <= i < leading_after(rows, t) implies (#[trigger] rows[i])
            .created_at.is_after(t) by {
            if i > 0 {
                assert(rows[i] == rest[i - 1]);
            }
        }
        if leading_after(rows, t) < rows.len() {
            assert(rows[leading_after(rows, t)] == rest[leading_after(rest, t)]);
        }
    }
}

/// `leading_after` is the one place that has only rows created after `t`
/// before it and a row that was not at it.
pub proof fn lemma_leading_after_is(rows: Seq<RowView>, t: Timestamp, p: int)
    requires
        0 <= p <= rows.len(),
        forall|i: int| 0 <= i < p ==> (#[trigger] rows[i]).created_at.is_after(t),
        p < rows.len() ==> !rows[p].created_at.is_after(t),
    ensures
        leading_after(rows, t) == p,
{
    lemma_leading_after(rows, t);
    let q = leading_after(rows, t);
    if q < p {
        assert(rows[q].created_at.is_after(t));
    } else if p < q {
        assert(rows[p].created_at.is_after(t));
    }
}

impl DatabaseView {
    /// Under unique names, a row that has the name is the row of that name.
    pub proof fn lemma_row_named(self, name: Seq<char>, i: int)
        requires
            self.names_unique(),
            0 <= i < self.rows.len(),
            self.rows[i].name == name,
        ensures
            self.has_name(name),
            self.index_of_name(name) == i,
            self.row_named(name) == Some(self.rows[i]),
    {
        let j = self.index_of_name(name);
        assert(self.rows[j].name == name);
        if i < j {
            assert(self.rows[i].name != self.rows[j].name);
        } else if j < i {
            assert(self.rows[j].name != self.rows[i].name);
        }
    }

    /// Under unique identifiers, a row that has the identifier is the row of
    /// that identifier.
    pub proof fn lemma_row_with_id(self, id: Seq<char>, i: int)
        requires
            self.ids_unique(),
            0 <= i < self.rows.len(),
            self.rows[i].id == id,
        ensures
            self.has_id(id),
            self.index_of_id(id) == i,
            self.row_with_id(id) == Some(self.rows[i]),
    {
        let j = self.index_of_id(id);
        assert(self.rows[j].id == id);
        if i < j {
            assert(self.rows[i].id != self.rows[j].id);
        } else if j < i {
            assert(self.rows[j].id != self.rows[i].id);
        }
    }

    /// A row whose identifier and name are new and whose status is known can
    /// be added: the schema still holds, and the row is found under its name
    /// and under its identifier.
    pub proof fn lemma_with_row(self, row: RowView)
        requires
            self.wf(),
            self.table,
            !self.has_name(row.name),
            !self.has_id(row.id),
            ContainerStatus::is_status_text(row.status),
        ensures
            self.with_row(row).wf(),
            self.with_row(row).row_named(row.name) == Some(row),
            self.with_row(row).row_with_id(row.id) == Some(row),
            self.with_row(row).rows.len() == self.rows.len() + 1,
            forall|name: Seq<char>|
                name != row.name ==> self.with_row(row).row_named(name) == self.row_named(name),
            self.chronological() && row.updated_at.at_or_after(row.created_at) ==> self.with_row(
                row,
            ).chronological(),
    {
        let p = self.landing_place(row.created_at);
        let after = self.with_row(row);
        lemma_leading_after(self.rows, row.created_at);
        assert forall|i: int, j: int|
            #![trigger after.rows[i], after.rows[j]]
            0 <= i < j < after.rows.len() implies after.rows[i].name != after.rows[j].name
            && after.rows[i].id != after.rows[j].id && after.rows[i].created_at.at_or_after(
            after.rows[j].created_at,
        ) by {
            let a = if i < p { i } else { i - 1 };
            let b = if j < p { j } else { j - 1 };
            if i == p {
                assert(after.rows[j] == self.rows[b]);
                if p < b {
                    assert(self.rows[p].created_at.at_or_after(self.rows[b].created_at));
                }
            } else if j == p {
                assert(after.rows[i] == self.rows[a]);
            } else {
                assert(after.rows[i] == self.rows[a]);
                assert(after.rows[j] == self.rows[b]);
            }
        }
        assert forall|i: int| 0 <= i < after.rows.len() implies ContainerStatus::is_status_text(
            (#[trigger] after.rows[i]).status,
        ) by {
            if i != p {
                let a = if i < p { i } else { i - 1 };
                assert(after.rows[i] == self.rows[a]);
            }
        }
        assert(after.rows[p] == row);
        if self.chronological() && row.updated_at.at_or_after(row.created_at) {
            assert forall|i: int| 0 <= i < after.rows.len() implies (#[trigger] after.rows[i])
                .updated_at.at_or_after(after.rows[i].created_at) by {
                if i != p {
                    let a = if i < p { i } else { i - 1 };
                    assert(after.rows[i] == self.rows[a]);
                }
            }
        }
        after.lemma_row_named(row.name, p);
        after.lemma_row_with_id(row.id, p);
        assert forall|name: Seq<char>| name != row.name implies after.row_named(name)
            == self.row_named(name) by {
            if self.has_name(name) {
                let i = self.index_of_name(name);
                let k = if i < p { i } else { i + 1 };
                assert(after.rows[k] == self.rows[i]);
                after.lemma_row_named(name, k);
            } else if after.has_name(name) {
                let k = after.index_of_name(name);
                let a = if k < p { k } else { k - 1 };
                assert(after.rows[k] == self.rows[a]);
            }
        }
    }

    /// The row named `name` can be given a known status: the schema still
    /// holds, the row keeps its place and is not updated before it was
    /// created, and no other row changes.
    pub proof fn lemma_with_status(self, name: Seq<char>, status: Seq<char>, now: Timestamp)
        requires
            self.wf(),
            ContainerStatus::is_status_text(status),
        ensures
            self.with_status(name, status, now).wf(),
            self.with_status(name, status, now).rows.len() == self.rows.len(),
            forall|other: Seq<char>|
                self.with_status(name, status, now).has_name(other) == self.has_name(other),
            self.has_name(name) ==> self.with_status(name, status, now).row_named(name) == Some(
                RowView {
                    status,
                    updated_at: now.later_of(self.row_named(name)->0.created_at),
                    ..self.row_named(name)->0
                },
            ),
            forall|other: Seq<char>|
                other != name ==> self.with_status(name, status, now).row_named(other)
                    == self.row_named(other),
            self.chronological() ==> self.with_status(name, status, now).chronological(),
    {
        let after = self.with_status(name, status, now);
        if self.has_name(name) {
            let p = self.index_of_name(name);
            if self.chronological() {
                assert forall|i: int| 0 <= i < after.rows.len() implies (#[trigger] after.rows[i])
                    .updated_at.at_or_after(after.rows[i].created_at) by {
                    if i != p {
                        assert(after.rows[i] == self.rows[i]);
                    }
                }
            }
            assert forall|i: int, j: int|
                #![trigger after.rows[i], after.rows[j]]
                0 <= i < j < after.rows.len() implies after.rows[i].name != after.rows[j].name
                && after.rows[i].id != after.rows[j].id && after.rows[i].created_at.at_or_after(
                after.rows[j].created_at,
            ) by {
                assert(after.rows[i].name == self.rows[i].name);
                assert(after.rows[j].name == self.rows[j].name);
            }
            assert forall|i: int| 0 <= i < after.rows.len() implies ContainerStatus::is_status_text(
                (#[trigger] after.rows[i]).status,
            ) by {
                if i != p {
                    assert(after.rows[i] == self.rows[i]);
                }
            }
            after.lemma_row_named(name, p);
            assert forall|other: Seq<char>| after.has_name(other) == self.has_name(other) by {
                if self.has_name(other) {
                    let i = self.index_of_name(other);
                    assert(after.rows[i].name == other);
                }
                if after.has_name(other) {
                    let i = after.index_of_name(other);
                    assert(self.rows[i].name == other);
                }
            }
            assert forall|other: Seq<char>| other != name implies after.row_named(other)
                == self.row_named(other) by {
                if self.has_name(other) {
                    let i = self.index_of_name(other);
                    assert(after.rows[i] == self.rows[i]);
                    after.lemma_row_named(other, i);
                }
            }
        }
    }

    /// The row named `name` can be removed: the schema still holds, the name
    /// is free, and no other row changes.
    pub proof fn lemma_without(self, name: Seq<char>)
        requires
            self.wf(),
        ensures
            self.without(name).wf(),
            !self.without(name).has_name(name),
            forall|other: Seq<char>|
                other != name ==> self.without(name).row_named(other) == self.row_named(other),
            self.chronological() ==> self.without(name).chronological(),
    {
        let after = self.without(name);
        if self.has_name(name) {
            let p = self.index_of_name(name);
            if self.chronological() {
                assert forall|i: int| 0 <= i < after.rows.len() implies (#[trigger] after.rows[i])
                    .updated_at.at_or_after(after.rows[i].created_at) by {
                    let a = if i < p { i } else { i + 1 };
                    assert(after.rows[i] == self.rows[a]);
                }
            }
            assert forall|i: int, j: int|
                #![trigger after.rows[i], after.rows[j]]
                0 <= i < j < after.rows.len() implies after.rows[i].name != after.rows[j].name
                && after.rows[i].id != after.rows[j].id && after.rows[i].created_at.at_or_after(
                after.rows[j].created_at,
            ) by {
                let a = if i < p { i } else { i + 1 };
                let b = if j < p { j } else { j + 1 };
                assert(after.rows[i] == self.rows[a]);
                assert(after.rows[j] == self.rows[b]);
            }
            assert forall|i: int| 0 <= i < after.rows.len() implies ContainerStatus::is_status_text(
                (#[trigger] after.rows[i]).status,
            ) by {
                let a = if i < p { i } else { i + 1 };
                assert(after.rows[i] == self.rows[a]);
            }
            if after.has_name(name) {
                let k = after.index_of_name(name);
                let a = if k < p { k } else { k + 1 };
                assert(after.rows[k] == self.rows[a]);
                self.lemma_row_named(name, a);
            }
            assert forall|other: Seq<char>| other != name implies after.row_named(other)
                == self.row_named(other) by {
                if self.has_name(other) {
                    let i = self.index_of_name(other);
                    let k = if i < p { i } else { i - 1 };
                    assert(after.rows[k] == self.rows[i]);
                    after.lemma_row_named(other, k);
                } else if after.has_name(other) {
                    let k = after.index_of_name(other);
                    let a = if k < p { k } else { k + 1 };
                    assert(after.rows[k] == self.rows[a]);
                }
            }
        }
    }
}

} // verus!
