//! The container repository: idempotent creation, lookup, listing, status
//! updates and deletion over the `containers` table.
//!
//! Every operation runs statements on a backend and decides on the replies.
//! The decisions are functions of the reply alone, so that a caller that
//! runs the statements on a backend of its own decides in the same way.

use crate::clock::{now, NANOS_PER_SECOND};
use crate::database::{duplicate_id, no_such_table, rows_view, Database, DatabaseView};
use crate::error::{DbError, DbErrorView, DriverError, DriverErrorKind, DriverErrorView};
use crate::ident::{fresh_id, hyphenated, id_text, is_random_id};
use crate::model::{
    ConfigView, Container, ContainerConfig, ContainerId, ContainerStatus, ContainerView, Timestamp,
};
use crate::row::{
    decode_row, fresh_container, fresh_row, new_row, outcome_view, row_to_container, ContainerRow,
    RowView,
};
use crate::statement::{Reply, ReplyView, Statement, StatementView};
use vstd::prelude::*;

verus! {

/// What a sequence of containers holds.
pub open spec fn containers_view(containers: Seq<Container>) -> Seq<ContainerView> {
    containers.map_values(|container: Container| container@)
}

/// What the outcome of a listing holds.
pub open spec fn listing_view(outcome: Result<Vec<Container>, DbError>) -> Result<
    Seq<ContainerView>,
    DbErrorView,
> {
    match outcome {
        Ok(containers) => Ok(containers_view(containers@)),
        Err(e) => Err(e@),
    }
}

/// What the outcome of a check for existence holds.
pub open spec fn answer_view(outcome: Result<bool, DbError>) -> Result<bool, DbErrorView> {
    match outcome {
        Ok(answer) => Ok(answer),
        Err(e) => Err(e@),
    }
}

/// What the outcome of a write holds.
pub open spec fn write_view(outcome: Result<(), DbError>) -> Result<(), DbErrorView> {
    match outcome {
        Ok(_) => Ok(()),
        Err(e) => Err(e@),
    }
}

/// What the outcome of a write that counts the rows it changed holds.
pub open spec fn counted_view(outcome: Result<u64, DbError>) -> Result<u64, DbErrorView> {
    match outcome {
        Ok(count) => Ok(count),
        Err(e) => Err(e@),
    }
}

/// Whether a row stands for no entity and no row before it does.
pub open spec fn first_invalid(rows: Seq<RowView>, i: int) -> bool {
    &&& 0 <= i < rows.len()
    &&& decode_row(rows[i]) is Err
    &&& forall|j: int| 0 <= j < i ==> decode_row(#[trigger] rows[j]) is Ok
}

/// The entities that rows stand for, in the order of the rows, or the
/// failure of the first row that stands for none.
pub open spec fn decode_rows(rows: Seq<RowView>) -> Result<Seq<ContainerView>, DbErrorView> {
    if exists|i: int| first_invalid(rows, i) {
        Err(decode_row(rows[choose|i: int| first_invalid(rows, i)])->Err_0)
    } else {
        Ok(rows.map_values(|row: RowView| decode_row(row)->Ok_0))
    }
}

/// What a lookup under `key` comes to, given the backend's reply: the entity
/// of the row that was found, `ContainerNotFound` where none was, and the
/// driver's failure passed through.
pub open spec fn lookup_spec(reply: ReplyView, key: Seq<char>) -> Result<
    ContainerView,
    DbErrorView,
> {
    match reply {
        ReplyView::Row(Some(row)) => decode_row(row),
        ReplyView::Row(None) => Err(DbErrorView::ContainerNotFound(key)),
        ReplyView::Failed(e) => Err(DbErrorView::SqlxError(e)),
        _ => Err(DbErrorView::InternalError),
    }
}

/// What a listing comes to, given the backend's reply.
pub open spec fn listing_spec(reply: ReplyView) -> Result<Seq<ContainerView>, DbErrorView> {
    match reply {
        ReplyView::Rows(rows) => decode_rows(rows),
        ReplyView::Failed(e) => Err(DbErrorView::SqlxError(e)),
        _ => Err(DbErrorView::InternalError),
    }
}

/// What a check for existence comes to, given the backend's reply: whether
/// the count is above zero.
pub open spec fn exists_spec(reply: ReplyView) -> Result<bool, DbErrorView> {
    match reply {
        ReplyView::Count(count) => Ok(count > 0),
        ReplyView::Failed(e) => Err(DbErrorView::SqlxError(e)),
        _ => Err(DbErrorView::InternalError),
    }
}

/// What a write comes to, given the backend's reply: success, however many
/// rows it changed, or the driver's failure passed through.
pub open spec fn write_spec(reply: ReplyView) -> Result<(), DbErrorView> {
    match reply {
        ReplyView::Affected(_) => Ok(()),
        ReplyView::Failed(e) => Err(DbErrorView::SqlxError(e)),
        _ => Err(DbErrorView::InternalError),
    }
}

/// What a write comes to where the caller wants to know how many rows it
/// changed: that number, or the driver's failure passed through.
pub open spec fn affected_spec(reply: ReplyView) -> Result<u64, DbErrorView> {
    match reply {
        ReplyView::Affected(count) => Ok(count),
        ReplyView::Failed(e) => Err(DbErrorView::SqlxError(e)),
        _ => Err(DbErrorView::InternalError),
    }
}

/// Decides a lookup under `key` on the backend's reply.
pub fn lookup_outcome(reply: Reply, key: &str) -> (outcome: Result<Container, DbError>)
    ensures
        outcome_view(outcome) == lookup_spec(reply@, key@),
{
    match reply {
        Reply::Row(Some(row)) => row_to_container(row),
        Reply::Row(None) => Err(DbError::ContainerNotFound(key.to_owned())),
        Reply::Failed(e) => Err(DbError::SqlxError(e)),
        _ => Err(DbError::InternalError),
    }
}

/// Reads rows as entities, in their order. The first row that stands for no
/// entity fails the whole reading.
pub fn rows_to_containers(rows: Vec<ContainerRow>) -> (outcome: Result<Vec<Container>, DbError>)
    ensures
        listing_view(outcome) == decode_rows(rows_view(rows@)),
{
    let ghost views = rows_view(rows@);
    let mut containers: Vec<Container> = Vec::new();
    for i in 0..rows.len()
        invariant
            views == rows_view(rows@),
            containers@.len() == i,
            forall|j: int|
                0 <= j < i ==> decode_row(#[trigger] views[j]) == Ok::<ContainerView, DbErrorView>(
                    containers@[j]@,
                ),
    {
        match row_to_container(rows[i].clone()) {
            Ok(container) => {
                containers.push(container);
            },
            Err(e) => {
                proof {
                    assert(first_invalid(views, i as int));
                    let k = choose|k: int| first_invalid(views, k);
                    if k < i {
                        assert(decode_row(views[k]) is Ok);
                    } else if i < k {
                        assert(decode_row(views[i as int]) is Ok);
                    }
                }
                return Err(e);
            },
        }
    }
    proof {
        if exists|k: int| first_invalid(views, k) {
            let k = choose|k: int| first_invalid(views, k);
            assert(decode_row(views[k]) is Ok);
        }
        assert(containers_view(containers@) =~= views.map_values(
            |row: RowView| decode_row(row)->Ok_0,
        ));
    }
    Ok(containers)
}

/// Decides a listing on the backend's reply.
pub fn listing_outcome(reply: Reply) -> (outcome: Result<Vec<Container>, DbError>)
    ensures
        listing_view(outcome) == listing_spec(reply@),
{
    match reply {
        Reply::Rows(rows) => rows_to_containers(rows),
        Reply::Failed(e) => Err(DbError::SqlxError(e)),
        _ => Err(DbError::InternalError),
    }
}

/// Decides a check for existence on the backend's reply.
pub fn exists_outcome(reply: Reply) -> (outcome: Result<bool, DbError>)
    ensures
        answer_view(outcome) == exists_spec(reply@),
{
    match reply {
        Reply::Count(count) => Ok(count > 0),
        Reply::Failed(e) => Err(DbError::SqlxError(e)),
        _ => Err(DbError::InternalError),
    }
}

/// Decides a write on the backend's reply.
pub fn write_outcome(reply: Reply) -> (outcome: Result<(), DbError>)
    ensures
        write_view(outcome) == write_spec(reply@),
{
    match reply {
        Reply::Affected(_) => Ok(()),
        Reply::Failed(e) => Err(DbError::SqlxError(e)),
        _ => Err(DbError::InternalError),
    }
}

/// Decides a write on the backend's reply, and keeps the number of rows that
/// the write changed: a caller that has to tell a write that changed a row
/// from one that found none looks at the number.
pub fn affected_outcome(reply: Reply) -> (outcome: Result<u64, DbError>)
    ensures
        counted_view(outcome) == affected_spec(reply@),
{
    match reply {
        Reply::Affected(count) => Ok(count),
        Reply::Failed(e) => Err(DbError::SqlxError(e)),
        _ => Err(DbError::InternalError),
    }
}

/// Where the creation of a container stands: which reply it waits for.
#[derive(Debug)]
pub enum Creation {
    /// The lookup by name is under way. `row` is what will be stored if no
    /// row has the name.
    Looking { row: ContainerRow },
    /// The row is being stored.
    Inserting { id: String, name: String },
    /// The stored row is being read back by its identifier.
    Reading { id: String },
    /// The backend refused the row as a duplicate, and the row that has the
    /// name is being read.
    Refetching { conflict: DriverError },
    /// The outcome has been handed out.
    Finished,
}

/// What a `Creation` holds.
#[verifier::ext_equal]
pub enum CreationView {
    Looking { row: RowView },
    Inserting { id: Seq<char>, name: Seq<char> },
    Reading { id: Seq<char> },
    Refetching { conflict: DriverErrorView },
    Finished,
}

impl View for Creation {
    type V = CreationView;

    open spec fn view(&self) -> CreationView {
        match self {
            Creation::Looking { row } => CreationView::Looking { row: row@ },
            Creation::Inserting { id, name } => CreationView::Inserting { id: id@, name: name@ },
            Creation::Reading { id } => CreationView::Reading { id: id@ },
            Creation::Refetching { conflict } => CreationView::Refetching { conflict: conflict@ },
            Creation::Finished => CreationView::Finished,
        }
    }
}

/// What a creation does next.
#[derive(Debug)]
pub enum Step {
    /// Run this statement and come back with the reply.
    Run(Statement),
    /// The creation has ended, like this.
    Return(Result<Container, DbError>),
}

/// What a `Step` holds.
#[verifier::ext_equal]
pub enum StepView {
    Run(StatementView),
    Return(Result<ContainerView, DbErrorView>),
}

impl View for Step {
    type V = StepView;

    open spec fn view(&self) -> StepView {
        match self {
            Step::Run(statement) => StepView::Run(statement@),
            Step::Return(outcome) => StepView::Return(outcome_view(*outcome)),
        }
    }
}

impl CreationView {
    /// How many statements the creation may still run, the one under way
    /// counted.
    pub open spec fn statements_left(self) -> nat {
        match self {
            CreationView::Looking { .. } => 3,
            CreationView::Inserting { .. } => 2,
            CreationView::Reading { .. } => 1,
            CreationView::Refetching { .. } => 1,
            CreationView::Finished => 0,
        }
    }

    /// What the creation does on a reply.
    ///
    /// A row found under the name ends the creation with that row's entity;
    /// where none is found, the new row is stored and read back by its
    /// identifier. Where the backend refuses the new row as a duplicate,
    /// another writer was first: the row that has the name is read and its
    /// entity handed out, and only if there is none after all does the
    /// refusal come out as the failure. Every other failure of the driver is
    /// passed through, and a configuration that cannot be written down is
    /// invalid data. A reply that does not fit the statement under way is an
    /// internal error.
    pub open spec fn advance(self, reply: ReplyView) -> (CreationView, StepView) {
        match self {
            CreationView::Looking { row } => match reply {
                ReplyView::Row(Some(found)) => ended(decode_row(found)),
                ReplyView::Row(None) => (
                    CreationView::Inserting { id: row.id, name: row.name },
                    StepView::Run(StatementView::Insert { row }),
                ),
                ReplyView::Failed(e) => ended(Err(DbErrorView::SqlxError(e))),
                _ => ended(Err(DbErrorView::InternalError)),
            },
            CreationView::Inserting { id, name } => match reply {
                ReplyView::Affected(_) => (
                    CreationView::Reading { id },
                    StepView::Run(StatementView::SelectById { id }),
                ),
                ReplyView::Failed(e) => if e.kind == DriverErrorKind::UniqueViolation {
                    (
                        CreationView::Refetching { conflict: e },
                        StepView::Run(StatementView::SelectByName { name }),
                    )
                } else {
                    ended(Err(DbErrorView::SqlxError(e)))
                },
                ReplyView::Rejected(complaint) => ended(Err(DbErrorView::InvalidData(complaint))),
                _ => ended(Err(DbErrorView::InternalError)),
            },
            CreationView::Reading { id } => match reply {
                ReplyView::Row(Some(found)) => ended(decode_row(found)),
                ReplyView::Row(None) => ended(Err(DbErrorView::ContainerNotFound(id))),
                ReplyView::Failed(e) => ended(Err(DbErrorView::SqlxError(e))),
                _ => ended(Err(DbErrorView::InternalError)),
            },
            CreationView::Refetching { conflict } => match reply {
                ReplyView::Row(Some(found)) => ended(decode_row(found)),
                ReplyView::Row(None) => ended(Err(DbErrorView::SqlxError(conflict))),
                ReplyView::Failed(e) => ended(Err(DbErrorView::SqlxError(e))),
                _ => ended(Err(DbErrorView::InternalError)),
            },
            CreationView::Finished => ended(Err(DbErrorView::InternalError)),
        }
    }
}

/// A creation that has ended with `outcome`.
pub open spec fn ended(outcome: Result<ContainerView, DbErrorView>) -> (CreationView, StepView) {
    (CreationView::Finished, StepView::Return(outcome))
}

impl Creation {
    /// Begins the creation of a container named `name`: the state to go on
    /// from, and the first statement to run, the lookup by name.
    pub fn start(
        name: &str,
        template: &str,
        config: ContainerConfig,
        id: ContainerId,
        now: Timestamp,
    ) -> (begun: (Creation, Statement))
        ensures
            begun.0@ == (CreationView::Looking {
                row: fresh_row(name@, template@, config@, id, now),
            }),
            begun.1@ == (StatementView::SelectByName { name: name@ }),
            decode_row(fresh_row(name@, template@, config@, id, now)) == Ok::<
                ContainerView,
                DbErrorView,
            >(fresh_container(name@, template@, config@, id, now)),
    {
        let row = new_row(name, template, config, id, now);
        (Creation::Looking { row }, Statement::SelectByName { name: name.to_owned() })
    }

    /// Begins the creation of a container named `name` under a fresh random
    /// identifier and at the current time. Whatever the two come to, the
    /// creation begins as `start` begins it for them.
    pub fn begin(name: &str, template: &str, config: ContainerConfig) -> (begun: (
        Creation,
        Statement,
    ))
        ensures
            exists|id: ContainerId, now: Timestamp|
                {
                    &&& drawn(id, now)
                    &&& begun.0@ == (CreationView::Looking {
                        row: #[trigger] fresh_row(name@, template@, config@, id, now),
                    })
                    &&& decode_row(fresh_row(name@, template@, config@, id, now)) == Ok::<
                        ContainerView,
                        DbErrorView,
                    >(fresh_container(name@, template@, config@, id, now))
                },
            begun.1@ == (StatementView::SelectByName { name: name@ }),
    {
        let id = fresh_id();
        let at = now();
        Creation::start(name, template, config, id, at)
    }

    /// Takes the reply to the statement under way and decides what comes
    /// next. Each statement that is asked for leaves fewer to run.
    pub fn advance(self, reply: Reply) -> (next: (Creation, Step))
        ensures
            (next.0@, next.1@) == self@.advance(reply@),
            next.1 is Run ==> next.0@.statements_left() < self@.statements_left(),
            next.1 is Return ==> next.0@ == CreationView::Finished,
    {
        match self {
            Creation::Looking { row } => match reply {
                Reply::Row(None) => {
                    let id = row.id.clone();
                    let name = row.name.clone();
                    (Creation::Inserting { id, name }, Step::Run(Statement::Insert { row }))
                },
                Reply::Row(Some(found)) => (
                    Creation::Finished,
                    Step::Return(row_to_container(found)),
                ),
                Reply::Failed(e) => (Creation::Finished, Step::Return(Err(DbError::SqlxError(e)))),
                _ => (Creation::Finished, Step::Return(Err(DbError::InternalError))),
            },
            Creation::Inserting { id, name } => match reply {
                Reply::Affected(_) => {
                    let key = id.clone();
                    (Creation::Reading { id }, Step::Run(Statement::SelectById { id: key }))
                },
                Reply::Rejected(complaint) => (
                    Creation::Finished,
                    Step::Return(Err(DbError::InvalidData(complaint))),
                ),
                Reply::Failed(e) => {
                    if e.kind == DriverErrorKind::UniqueViolation {
                        (
                            Creation::Refetching { conflict: e },
                            Step::Run(Statement::SelectByName { name }),
                        )
                    } else {
                        (Creation::Finished, Step::Return(Err(DbError::SqlxError(e))))
                    }
                },
                _ => (Creation::Finished, Step::Return(Err(DbError::InternalError))),
            },
            Creation::Reading { id } => match reply {
                Reply::Row(found) => (
                    Creation::Finished,
                    Step::Return(lookup_outcome(Reply::Row(found), id.as_str())),
                ),
                Reply::Failed(e) => (Creation::Finished, Step::Return(Err(DbError::SqlxError(e)))),
                _ => (Creation::Finished, Step::Return(Err(DbError::InternalError))),
            },
            Creation::Refetching { conflict } => match reply {
                Reply::Row(Some(found)) => (
                    Creation::Finished,
                    Step::Return(row_to_container(found)),
                ),
                Reply::Row(None) => (
                    Creation::Finished,
                    Step::Return(Err(DbError::SqlxError(conflict))),
                ),
                Reply::Failed(e) => (Creation::Finished, Step::Return(Err(DbError::SqlxError(e)))),
                _ => (Creation::Finished, Step::Return(Err(DbError::InternalError))),
            },
            Creation::Finished => (Creation::Finished, Step::Return(Err(DbError::InternalError))),
        }
    }
}

/// What holds of every time that the clock gives: it is not before the Unix
/// epoch, and its nanoseconds are less than a second.
pub open spec fn clock_time(now: Timestamp) -> bool {
    now.seconds >= 0 && now.nanos < NANOS_PER_SECOND
}

/// What holds of every identifier and time that a creation draws: the
/// identifier has the shape of a random UUID, and the time is one that the
/// clock gives.
pub open spec fn drawn(id: ContainerId, now: Timestamp) -> bool {
    is_random_id(id.0) && clock_time(now)
}

/// The statement that gives the container named `name` a new status and
/// sets its time of update to the current time, or to the time of its
/// creation where the clock has gone back behind that.
pub fn status_update(name: &str, status: &str) -> (statement: Statement)
    ensures
        statement@ matches StatementView::UpdateStatus { status: word, updated_at, name: key }
            && word == status@ && key == name@ && clock_time(updated_at),
{
    Statement::UpdateStatus { status: status.to_owned(), updated_at: now(), name: name.to_owned() }
}

impl DatabaseView {
    /// What a lookup of `name` finds.
    pub open spec fn entity_named(self, name: Seq<char>) -> Result<ContainerView, DbErrorView> {
        if !self.table {
            Err(DbErrorView::SqlxError(no_such_table()))
        } else {
            match self.row_named(name) {
                Some(row) => decode_row(row),
                None => Err(DbErrorView::ContainerNotFound(name)),
            }
        }
    }

    /// What a lookup of `id` finds.
    pub open spec fn entity_with_id(self, id: ContainerId) -> Result<ContainerView, DbErrorView> {
        if !self.table {
            Err(DbErrorView::SqlxError(no_such_table()))
        } else {
            match self.row_with_id(hyphenated(id.0)) {
                Some(row) => decode_row(row),
                None => Err(DbErrorView::ContainerNotFound(hyphenated(id.0))),
            }
        }
    }

    /// What a listing gives.
    pub open spec fn listing(self) -> Result<Seq<ContainerView>, DbErrorView> {
        if !self.table {
            Err(DbErrorView::SqlxError(no_such_table()))
        } else {
            decode_rows(self.rows)
        }
    }

    /// Whether creating a container under `name` with the fresh identifier
    /// `id` stores a row: the name is free and the identifier is unused.
    pub open spec fn admits(self, name: Seq<char>, id: ContainerId) -> bool {
        self.table && !self.has_name(name) && !self.has_id(hyphenated(id.0))
    }

    /// The backend after a container was created or found under `name`. The
    /// template, the configuration, the identifier and the time count only
    /// where a row is stored.
    pub open spec fn after_get_or_create(
        self,
        name: Seq<char>,
        template: Seq<char>,
        config: ConfigView,
        id: ContainerId,
        now: Timestamp,
    ) -> DatabaseView {
        if self.admits(name, id) {
            self.with_row(fresh_row(name, template, config, id, now))
        } else {
            self
        }
    }

    /// What creating or finding a container under `name` hands out: the
    /// entity of the row that has the name; else, where the fresh identifier
    /// is unused, the entity of the new row; else the backend's refusal of
    /// the identifier as a duplicate.
    pub open spec fn get_or_create_outcome(
        self,
        name: Seq<char>,
        template: Seq<char>,
        config: ConfigView,
        id: ContainerId,
        now: Timestamp,
    ) -> Result<ContainerView, DbErrorView> {
        if !self.table {
            Err(DbErrorView::SqlxError(no_such_table()))
        } else if self.has_name(name) {
            decode_row(self.row_named(name)->0)
        } else if self.has_id(hyphenated(id.0)) {
            Err(DbErrorView::SqlxError(duplicate_id()))
        } else {
            decode_row(fresh_row(name, template, config, id, now))
        }
    }

    /// How many rows a status update changes: one, or none where no row has
    /// the name. The backend's failure is passed through.
    pub open spec fn update_status_count(self, name: Seq<char>, status: Seq<char>) -> Result<
        u64,
        DbErrorView,
    > {
        match self.update_outcome(name, status) {
            Ok(count) => Ok(count),
            Err(e) => Err(DbErrorView::SqlxError(e)),
        }
    }

    /// How many rows a removal removes: one, or none where no row has the
    /// name. The backend's failure is passed through.
    pub open spec fn removal_count(self, name: Seq<char>) -> Result<u64, DbErrorView> {
        match self.delete_outcome(name) {
            Ok(count) => Ok(count),
            Err(e) => Err(DbErrorView::SqlxError(e)),
        }
    }

    /// The backend after a removal.
    pub open spec fn after_removal(self, name: Seq<char>) -> DatabaseView {
        if self.table {
            self.without(name)
        } else {
            self
        }
    }

    /// What a status update hands out: success, whether or not a row has the
    /// name, unless the backend fails.
    pub open spec fn update_status_outcome(self, name: Seq<char>, status: Seq<char>) -> Result<
        (),
        DbErrorView,
    > {
        match self.update_outcome(name, status) {
            Ok(_) => Ok(()),
            Err(e) => Err(DbErrorView::SqlxError(e)),
        }
    }

    /// The backend after a status update.
    pub open spec fn after_update_status(
        self,
        name: Seq<char>,
        status: Seq<char>,
        now: Timestamp,
    ) -> DatabaseView {
        if self.update_outcome(name, status) is Ok {
            self.with_status(name, status, now)
        } else {
            self
        }
    }
}

/// The container repository over a backend.
#[derive(Debug)]
pub struct ContainerStore {
    db: Database,
}

impl ContainerStore {
    /// The backend that the repository works on.
    pub closed spec fn view(&self) -> DatabaseView {
        self.db@
    }

    /// Whether the backend holds what the schema admits.
    pub open spec fn wf(&self) -> bool {
        self@.wf()
    }

    /// The repository over `db`. The schema has to be provisioned on `db`
    /// before any operation can succeed.
    pub fn new(db: Database) -> (store: Self)
        requires
            db.wf(),
        ensures
            store@ == db@,
            store.wf(),
    {
        ContainerStore { db }
    }

    /// Finds the container named `name`, or creates it with a fresh random
    /// identifier and the current time. Whatever the identifier and the time
    /// come to, the outcome is the one that `get_or_create_at` gives for them.
    /// So a container that has the name is handed out as it is stored, and
    /// on a table without rows the creation succeeds.
    pub fn get_or_create(&mut self, name: &str, template: &str, config: ContainerConfig) -> (outcome:
        Result<Container, DbError>)
        requires
            old(self).wf(),
        ensures
            final(self).wf(),
            exists|id: ContainerId, now: Timestamp|
                {
                    &&& drawn(id, now)
                    &&& final(self)@ == #[trigger] old(self)@.after_get_or_create(
                        name@,
                        template@,
                        config@,
                        id,
                        now,
                    )
                    &&& outcome_view(outcome) == old(self)@.get_or_create_outcome(
                        name@,
                        template@,
                        config@,
                        id,
                        now,
                    )
                    &&& old(self)@.admits(name@, id) ==> outcome_view(outcome) == Ok::<
                        ContainerView,
                        DbErrorView,
                    >(fresh_container(name@, template@, config@, id, now))
                },
            old(self)@.has_name(name@) ==> final(self)@ == old(self)@ && outcome_view(outcome)
                == old(self)@.entity_named(name@),
            old(self)@.table && old(self)@.rows.len() == 0 ==> outcome is Ok,
            old(self)@.chronological() ==> final(self)@.chronological(),
    {
        let id = fresh_id();
        let at = now();
        self.get_or_create_at(name, template, config, id, at)
    }

    /// Finds the container named `name` and hands it out as it is stored:
    /// the template and the configuration given here are not looked at. Where
    /// no container has the name, stores one under the identifier `id`:
    /// stopped, on no node, created and updated at `now`.
    pub fn get_or_create_at(
        &mut self,
        name: &str,
        template: &str,
        config: ContainerConfig,
        id: ContainerId,
        now: Timestamp,
    ) -> (outcome: Result<Container, DbError>)
        requires
            old(self).wf(),
        ensures
            final(self).wf(),
            final(self)@ == old(self)@.after_get_or_create(name@, template@, config@, id, now),
            outcome_view(outcome) == old(self)@.get_or_create_outcome(
                name@,
                template@,
                config@,
                id,
                now,
            ),
            old(self)@.admits(name@, id) ==> outcome_view(outcome) == Ok::<
                ContainerView,
                DbErrorView,
            >(fresh_container(name@, template@, config@, id, now)),
            old(self)@.chronological() ==> final(self)@.chronological(),
    {
        let ghost row = fresh_row(name@, template@, config@, id, now);
        let (state, statement) = Creation::start(name, template, config, id, now);
        let reply = self.db.execute(statement);
        let (state, step) = state.advance(reply);
        let statement = match step {
            Step::Return(outcome) => {
                return outcome;
            },
            Step::Run(statement) => statement,
        };
        proof {
            if old(self)@.admits(name@, id) {
                old(self)@.lemma_with_row(row);
            }
        }
        let reply = self.db.execute(statement);
        let (state, step) = state.advance(reply);
        let statement = match step {
            Step::Return(outcome) => {
                return outcome;
            },
            Step::Run(statement) => statement,
        };
        let reply = self.db.execute(statement);
        let (_, step) = state.advance(reply);
        match step {
            Step::Return(outcome) => outcome,
            Step::Run(_) => Err(DbError::InternalError),
        }
    }

    /// Finds the container named `name`.
    pub fn get_by_name(&self, name: &str) -> (outcome: Result<Container, DbError>)
        requires
            self.wf(),
        ensures
            outcome_view(outcome) == self@.entity_named(name@),
    {
        let reply = self.db.read(Statement::SelectByName { name: name.to_owned() });
        lookup_outcome(reply, name)
    }

    /// Finds the container whose identifier is `id`. A container that is found
    /// has that identifier.
    pub fn get_by_id(&self, id: &ContainerId) -> (outcome: Result<Container, DbError>)
        requires
            self.wf(),
        ensures
            outcome_view(outcome) == self@.entity_with_id(*id),
            outcome matches Ok(container) ==> container.id == *id,
    {
        let key = id_text(*id);
        let reply = self.db.read(Statement::SelectById { id: key.clone() });
        lookup_outcome(reply, key.as_str())
    }

    /// All containers, the most recently created first.
    pub fn list(&self) -> (outcome: Result<Vec<Container>, DbError>)
        requires
            self.wf(),
        ensures
            listing_view(outcome) == self@.listing(),
            outcome matches Ok(containers) ==> containers@.len() == self@.rows.len() && forall|
                i: int,
                j: int,
            |
                #![trigger containers@[i], containers@[j]]
                0 <= i < j < containers@.len() ==> containers@[i].created_at.at_or_after(
                    containers@[j].created_at,
                ),
    {
        let reply = self.db.read(Statement::SelectAll);
        let outcome = listing_outcome(reply);
        proof {
            lemma_listing_order(self@);
            if outcome is Ok {
                let containers = outcome->Ok_0;
                let views = containers_view(containers@);
                assert(views.len() == containers@.len());
                assert forall|i: int, j: int|
                    #![trigger containers@[i], containers@[j]]
                    0 <= i < j < containers@.len() implies containers@[i].created_at.at_or_after(
                    containers@[j].created_at,
                ) by {
                    assert(views[i] == containers@[i]@);
                    assert(views[j] == containers@[j]@);
                }
            }
        }
        outcome
    }

    /// Gives the container named `name` a new status and sets its time of
    /// update to the current time. Where no container has the name, nothing
    /// changes and the update succeeds all the same. Whatever the time comes
    /// to, the backend is left as `update_status_at` leaves it for that time:
    /// no container is updated before it was created.
    pub fn update_status(&mut self, name: &str, status: &str) -> (outcome: Result<(), DbError>)
        requires
            old(self).wf(),
        ensures
            final(self).wf(),
            write_view(outcome) == old(self)@.update_status_outcome(name@, status@),
            exists|now: Timestamp|
                clock_time(now) && final(self)@ == #[trigger] old(self)@.after_update_status(
                    name@,
                    status@,
                    now,
                ),
            old(self)@.chronological() ==> final(self)@.chronological(),
    {
        let statement = status_update(name, status);
        let ghost at = statement@->updated_at;
        let reply = self.db.execute(statement);
        assert(self@ == old(self)@.after_update_status(name@, status@, at));
        write_outcome(reply)
    }

    /// Gives the container named `name` a new status and the time of update
    /// `now`, and says how many rows it changed: none where no container has
    /// the name. Where `now` lies before the container's creation, the time
    /// of update is the time of creation, so that no container is updated
    /// before it was created. A status that is none of the six words is
    /// refused by the backend, and nothing changes.
    pub fn update_status_at(&mut self, name: &str, status: &str, now: Timestamp) -> (outcome:
        Result<u64, DbError>)
        requires
            old(self).wf(),
        ensures
            final(self).wf(),
            counted_view(outcome) == old(self)@.update_status_count(name@, status@),
            final(self)@ == old(self)@.after_update_status(name@, status@, now),
            old(self)@.chronological() ==> final(self)@.chronological(),
    {
        let reply = self.db.execute(
            Statement::UpdateStatus {
                status: status.to_owned(),
                updated_at: now,
                name: name.to_owned(),
            },
        );
        affected_outcome(reply)
    }

    /// Removes the container named `name`. Where no container has the name,
    /// nothing changes and the removal succeeds all the same.
    pub fn delete(&mut self, name: &str) -> (outcome: Result<(), DbError>)
        requires
            old(self).wf(),
        ensures
            final(self).wf(),
            final(self)@ == old(self)@.after_removal(name@),
            old(self)@.chronological() ==> final(self)@.chronological(),
            old(self)@.table ==> outcome is Ok,
            !old(self)@.table ==> write_view(outcome) == Err::<(), DbErrorView>(
                DbErrorView::SqlxError(no_such_table()),
            ),
    {
        match self.remove(name) {
            Ok(_) => Ok(()),
            Err(e) => Err(e),
        }
    }

    /// Removes the container named `name`, and says how many rows it
    /// removed: none where no container has the name.
    pub fn remove(&mut self, name: &str) -> (outcome: Result<u64, DbError>)
        requires
            old(self).wf(),
        ensures
            final(self).wf(),
            counted_view(outcome) == old(self)@.removal_count(name@),
            final(self)@ == old(self)@.after_removal(name@),
            old(self)@.chronological() ==> final(self)@.chronological(),
    {
        let reply = self.db.execute(Statement::DeleteByName { name: name.to_owned() });
        affected_outcome(reply)
    }

    /// Whether a container is named `name`.
    pub fn contains(&self, name: &str) -> (outcome: Result<bool, DbError>)
        requires
            self.wf(),
        ensures
            answer_view(outcome) == (if self@.table {
                Ok::<bool, DbErrorView>(self@.has_name(name@))
            } else {
                Err::<bool, DbErrorView>(DbErrorView::SqlxError(no_such_table()))
            }),
    {
        let reply = self.db.read(Statement::CountByName { name: name.to_owned() });
        exists_outcome(reply)
    }
}

/// A listing that succeeds gives one entity for each row, in the order of the
/// rows, so that no entity stands before one that was created after it.
pub proof fn lemma_listing_order(db: DatabaseView)
    requires
        db.wf(),
    ensures
        db.listing() matches Ok(containers) ==> containers.len() == db.rows.len() && (forall|
            i: int,
        |
            0 <= i < containers.len() ==> decode_row(db.rows[i]) == Ok::<
                ContainerView,
                DbErrorView,
            >(#[trigger] containers[i])) && (forall|i: int, j: int|
            #![trigger containers[i], containers[j]]
            0 <= i < j < containers.len() ==> containers[i].created_at.at_or_after(
                containers[j].created_at,
            )),
{
    if db.listing() is Ok {
        let containers = db.listing()->Ok_0;
        assert forall|i: int| 0 <= i < containers.len() implies decode_row(db.rows[i]) == Ok::<
            ContainerView,
            DbErrorView,
        >(#[trigger] containers[i]) by {
            if decode_row(db.rows[i]) is Err {
                lemma_some_row_is_first_invalid(db.rows, i);
            }
        }
        assert forall|i: int, j: int|
            #![trigger containers[i], containers[j]]
            0 <= i < j < containers.len() implies containers[i].created_at.at_or_after(
            containers[j].created_at,
        ) by {
            assert(decode_row(db.rows[i]) == Ok::<ContainerView, DbErrorView>(containers[i]));
            assert(decode_row(db.rows[j]) == Ok::<ContainerView, DbErrorView>(containers[j]));
            assert(db.rows[i].created_at.at_or_after(db.rows[j].created_at));
        }
    }
}

/// Where a row stands for no entity, some row is the first to do so.
pub proof fn lemma_some_row_is_first_invalid(rows: Seq<RowView>, i: int)
    requires
        0 <= i < rows.len(),
        decode_row(rows[i]) is Err,
    ensures
        exists|k: int| first_invalid(rows, k),
    decreases i,
{
    if forall|j: int| 0 <= j < i ==> decode_row(#[trigger] rows[j]) is Ok {
        assert(first_invalid(rows, i));
    } else {
        let j = choose|j: int| 0 <= j < i && !(decode_row(#[trigger] rows[j]) is Ok);
        lemma_some_row_is_first_invalid(rows, j);
    }
}

/// An operation of the repository that may change the backend, with the
/// identifier and the time that it came to use.
pub enum Operation {
    GetOrCreate {
        name: Seq<char>,
        template: Seq<char>,
        config: ConfigView,
        id: ContainerId,
        now: Timestamp,
    },
    UpdateStatus { name: Seq<char>, status: Seq<char>, now: Timestamp },
    Delete { name: Seq<char> },
}

impl DatabaseView {
    /// The backend after an operation.
    pub open spec fn after_operation(self, operation: Operation) -> DatabaseView {
        match operation {
            Operation::GetOrCreate { name, template, config, id, now } => self.after_get_or_create(
                name,
                template,
                config,
                id,
                now,
            ),
            Operation::UpdateStatus { name, status, now } => self.after_update_status(
                name,
                status,
                now,
            ),
            Operation::Delete { name } => self.after_removal(name),
        }
    }

    /// The backend after a sequence of operations, the first one first.
    pub open spec fn after_operations(self, operations: Seq<Operation>) -> DatabaseView
        decreases operations.len(),
    {
        if operations.len() == 0 {
            self
        } else {
            self.after_operations(operations.drop_last()).after_operation(operations.last())
        }
    }

}

/// No operation breaks the schema: after it, as before, no two rows share a
/// name or an identifier, and every status is one of the six words.
pub proof fn lemma_operation_keeps_schema(db: DatabaseView, operation: Operation)
    requires
        db.wf(),
    ensures
        db.after_operation(operation).wf(),
{
    match operation {
        Operation::GetOrCreate { name, template, config, id, now } => {
            if db.admits(name, id) {
                ContainerStatus::lemma_text_round_trip(ContainerStatus::Stopped);
                db.lemma_with_row(fresh_row(name, template, config, id, now));
            }
        },
        Operation::UpdateStatus { name, status, now } => {
            if db.update_outcome(name, status) is Ok && db.has_name(name) {
                db.lemma_with_status(name, status, now);
            }
        },
        Operation::Delete { name } => {
            db.lemma_without(name);
        },
    }
}

/// A container keeps its identity: whatever operation runs, the row that is
/// still stored under a name has the identifier, the template, the node, the
/// time of creation and the configuration that it had before.
pub proof fn lemma_operation_keeps_identity(
    db: DatabaseView,
    operation: Operation,
    name: Seq<char>,
)
    requires
        db.wf(),
        db.has_name(name),
        db.after_operation(operation).has_name(name),
    ensures
        ({
            let before = db.row_named(name)->0;
            let after = db.after_operation(operation).row_named(name)->0;
            &&& after.name == name
            &&& after.id == before.id
            &&& after.template == before.template
            &&& after.node_id == before.node_id
            &&& after.created_at == before.created_at
            &&& after.config == before.config
        }),
{
    let i = db.index_of_name(name);
    db.lemma_row_named(name, i);
    match operation {
        Operation::GetOrCreate { name: created, template, config, id, now } => {
            if db.admits(created, id) {
                ContainerStatus::lemma_text_round_trip(ContainerStatus::Stopped);
                db.lemma_with_row(fresh_row(created, template, config, id, now));
            }
        },
        Operation::UpdateStatus { name: updated, status, now } => {
            if db.update_outcome(updated, status) is Ok && db.has_name(updated) {
                db.lemma_with_status(updated, status, now);
            }
        },
        Operation::Delete { name: removed } => {
            db.lemma_without(removed);
        },
    }
}

/// After any sequence of operations on a backend that held to the schema, no
/// two rows share a name, and none share an identifier.
pub proof fn lemma_names_stay_unique(db: DatabaseView, operations: Seq<Operation>)
    requires
        db.wf(),
    ensures
        db.after_operations(operations).wf(),
        db.after_operations(operations).names_unique(),
        db.after_operations(operations).ids_unique(),
    decreases operations.len(),
{
    if operations.len() > 0 {
        lemma_names_stay_unique(db, operations.drop_last());
        lemma_operation_keeps_schema(
            db.after_operations(operations.drop_last()),
            operations.last(),
        );
    }
}

/// Creation is idempotent: where creating or finding a container under a
/// name has succeeded, doing so again under that name hands out the same
/// entity, with the same identifier, and stores nothing, whatever template,
/// configuration, fresh identifier and time the second call brings.
pub proof fn lemma_get_or_create_is_idempotent(
    db: DatabaseView,
    name: Seq<char>,
    template: Seq<char>,
    config: ConfigView,
    id: ContainerId,
    now: Timestamp,
    other_template: Seq<char>,
    other_config: ConfigView,
    other_id: ContainerId,
    later: Timestamp,
)
    requires
        db.wf(),
        db.get_or_create_outcome(name, template, config, id, now) is Ok,
    ensures
        ({
            let once = db.after_get_or_create(name, template, config, id, now);
            &&& once.get_or_create_outcome(name, other_template, other_config, other_id, later)
                == db.get_or_create_outcome(name, template, config, id, now)
            &&& once.after_get_or_create(name, other_template, other_config, other_id, later)
                == once
        }),
{
    if db.admits(name, id) {
        ContainerStatus::lemma_text_round_trip(ContainerStatus::Stopped);
        db.lemma_with_row(fresh_row(name, template, config, id, now));
    }
}

/// A status update shows in the next lookup: the container has the status
/// that the word stands for, and as its time of update the time given, or
/// the time of its creation where the time given lies before that. It is
/// otherwise as it was.
pub proof fn lemma_update_shows_in_lookup(
    db: DatabaseView,
    name: Seq<char>,
    status: Seq<char>,
    now: Timestamp,
)
    requires
        db.wf(),
        db.entity_named(name) is Ok,
        ContainerStatus::is_status_text(status),
    ensures
        db.after_update_status(name, status, now).entity_named(name) == Ok::<
            ContainerView,
            DbErrorView,
        >(
            ContainerView {
                status: ContainerStatus::of_text(status),
                updated_at: now.later_of(db.entity_named(name)->Ok_0.created_at),
                ..db.entity_named(name)->Ok_0
            },
        ),
{
    db.lemma_with_status(name, status, now);
}

/// After a removal, a lookup of the name finds nothing, and the containers
/// of other names are found as before.
pub proof fn lemma_delete_shows_in_lookup(db: DatabaseView, name: Seq<char>)
    requires
        db.wf(),
        db.table,
    ensures
        !db.without(name).has_name(name),
        db.without(name).entity_named(name) == Err::<ContainerView, DbErrorView>(
            DbErrorView::ContainerNotFound(name),
        ),
        forall|other: Seq<char>|
            other != name ==> db.without(name).entity_named(other) == db.entity_named(other),
{
    db.lemma_without(name);
}

/// No row is ever updated before it was created: whatever time an operation
/// brings, the rows stay chronological.
pub proof fn lemma_operation_keeps_time(db: DatabaseView, operation: Operation)
    requires
        db.wf(),
        db.chronological(),
    ensures
        db.after_operation(operation).chronological(),
{
    match operation {
        Operation::GetOrCreate { name, template, config, id, now } => {
            if db.admits(name, id) {
                ContainerStatus::lemma_text_round_trip(ContainerStatus::Stopped);
                db.lemma_with_row(fresh_row(name, template, config, id, now));
            }
        },
        Operation::UpdateStatus { name, status, now } => {
            if db.update_outcome(name, status) is Ok && db.has_name(name) {
                db.lemma_with_status(name, status, now);
            }
        },
        Operation::Delete { name } => {
            db.lemma_without(name);
        },
    }
}

/// After any sequence of operations on a backend whose rows were
/// chronological, as on one without rows, every row was updated at or after
/// the time of its creation.
pub proof fn lemma_rows_stay_chronological(db: DatabaseView, operations: Seq<Operation>)
    requires
        db.wf(),
        db.chronological(),
    ensures
        db.after_operations(operations).chronological(),
    decreases operations.len(),
{
    if operations.len() > 0 {
        lemma_rows_stay_chronological(db, operations.drop_last());
        lemma_names_stay_unique(db, operations.drop_last());
        lemma_operation_keeps_time(db.after_operations(operations.drop_last()), operations.last());
    }
}

} // verus!
