//! Schema provisioning: the statements that bring a backend to the shape the
//! repository needs, and the order in which they run.
//!
//! Every statement creates its object only where it is missing, so that
//! provisioning can run at every start.

use crate::database::{no_such_table, Database, DatabaseView, Index};
use crate::error::{DbError, DbErrorView, DriverError};
use vstd::prelude::*;

verus! {

pub const CREATE_TABLE_SQL: &'static str =
    "CREATE TABLE IF NOT EXISTS containers (id TEXT PRIMARY KEY, name TEXT NOT NULL UNIQUE, status TEXT NOT NULL DEFAULT 'stopped', template TEXT NOT NULL, node_id TEXT, created_at DATETIME NOT NULL, updated_at DATETIME NOT NULL, config TEXT NOT NULL, CONSTRAINT valid_status CHECK (status IN ('stopped', 'running', 'starting', 'stopping', 'frozen', 'error')))";

pub const CREATE_NAME_INDEX_SQL: &'static str =
    "CREATE INDEX IF NOT EXISTS idx_containers_name ON containers(name)";

pub const CREATE_STATUS_INDEX_SQL: &'static str =
    "CREATE INDEX IF NOT EXISTS idx_containers_status ON containers(status)";

pub const CREATE_CREATED_AT_INDEX_SQL: &'static str =
    "CREATE INDEX IF NOT EXISTS idx_containers_created_at ON containers(created_at DESC)";

/// How many statements provisioning runs.
pub const STATEMENT_COUNT: usize = 4;

/// A statement of the schema.
#[derive(Debug, Clone, Copy, PartialEq, Eq, Structural, Hash)]
pub enum SchemaStatement {
    CreateTable,
    CreateIndex(Index),
}

impl SchemaStatement {
    /// The statement in SQL.
    pub open spec fn sql_text(self) -> Seq<char> {
        match self {
            SchemaStatement::CreateTable => CREATE_TABLE_SQL@,
            SchemaStatement::CreateIndex(Index::Name) => CREATE_NAME_INDEX_SQL@,
            SchemaStatement::CreateIndex(Index::Status) => CREATE_STATUS_INDEX_SQL@,
            SchemaStatement::CreateIndex(Index::CreatedAt) => CREATE_CREATED_AT_INDEX_SQL@,
        }
    }

    /// The statement in SQL.
    pub fn sql(&self) -> (text: &'static str)
        ensures
            text@ == self.sql_text(),
    {
        match self {
            SchemaStatement::CreateTable => CREATE_TABLE_SQL,
            SchemaStatement::CreateIndex(Index::Name) => CREATE_NAME_INDEX_SQL,
            SchemaStatement::CreateIndex(Index::Status) => CREATE_STATUS_INDEX_SQL,
            SchemaStatement::CreateIndex(Index::CreatedAt) => CREATE_CREATED_AT_INDEX_SQL,
        }
    }

    /// The backend after this statement has run with success.
    pub open spec fn applied(self, db: DatabaseView) -> DatabaseView {
        match self {
            SchemaStatement::CreateTable => DatabaseView { table: true, ..db },
            SchemaStatement::CreateIndex(Index::Name) => DatabaseView { name_index: true, ..db },
            SchemaStatement::CreateIndex(Index::Status) => DatabaseView {
                status_index: true,
                ..db
            },
            SchemaStatement::CreateIndex(Index::CreatedAt) => DatabaseView {
                created_at_index: true,
                ..db
            },
        }
    }

    /// Runs the statement on a backend. The table can always be created; an
    /// index can be created only where the table exists.
    pub fn apply(&self, db: &mut Database) -> (outcome: Result<(), DriverError>)
        requires
            old(db).wf(),
        ensures
            final(db).wf(),
            outcome is Ok <==> (old(db)@.table || *self == SchemaStatement::CreateTable),
            outcome is Ok ==> final(db)@ == self.applied(old(db)@),
            outcome matches Err(e) ==> final(db)@ == old(db)@ && e@ == no_such_table(),
    {
        match self {
            SchemaStatement::CreateTable => {
                db.create_table();
                Ok(())
            },
            SchemaStatement::CreateIndex(index) => db.create_index(*index),
        }
    }
}

/// The statement that provisioning runs after `done` statements: the table
/// first, then the indexes on the name, on the status, and on the time of
/// creation.
pub open spec fn plan(done: int) -> SchemaStatement {
    if done == 0 {
        SchemaStatement::CreateTable
    } else if done == 1 {
        SchemaStatement::CreateIndex(Index::Name)
    } else if done == 2 {
        SchemaStatement::CreateIndex(Index::Status)
    } else {
        SchemaStatement::CreateIndex(Index::CreatedAt)
    }
}

/// What provisioning does next.
#[derive(Debug)]
pub enum MigrationStep {
    /// Run this statement and report how it went.
    Execute(SchemaStatement),
    /// Provisioning has ended, like this.
    Finished(Result<(), DbError>),
}

/// What a `MigrationStep` holds.
pub enum MigrationStepView {
    Execute(SchemaStatement),
    Finished(Result<(), DbErrorView>),
}

impl View for MigrationStep {
    type V = MigrationStepView;

    open spec fn view(&self) -> MigrationStepView {
        match self {
            MigrationStep::Execute(statement) => MigrationStepView::Execute(*statement),
            MigrationStep::Finished(Ok(_)) => MigrationStepView::Finished(Ok(())),
            MigrationStep::Finished(Err(e)) => MigrationStepView::Finished(Err(e@)),
        }
    }
}

/// What provisioning does after `done` statements have succeeded, given the
/// failure of the statement that ran last, if it failed. A failure ends
/// provisioning as a migration error that carries the driver's words; after
/// the last statement, provisioning has succeeded.
pub open spec fn next_step_spec(done: int, failure: Option<DriverError>) -> MigrationStepView {
    match failure {
        Some(e) => MigrationStepView::Finished(Err(DbErrorView::MigrationError(e@.message))),
        None => if done < STATEMENT_COUNT {
            MigrationStepView::Execute(plan(done))
        } else {
            MigrationStepView::Finished(Ok(()))
        },
    }
}

/// Decides what provisioning does next.
pub fn next_step(done: usize, failure: Option<DriverError>) -> (step: MigrationStep)
    ensures
        step@ == next_step_spec(done as int, failure),
{
    match failure {
        Some(e) => MigrationStep::Finished(Err(DbError::MigrationError(e.message))),
        None => {
            if done == 0 {
                MigrationStep::Execute(SchemaStatement::CreateTable)
            } else if done == 1 {
                MigrationStep::Execute(SchemaStatement::CreateIndex(Index::Name))
            } else if done == 2 {
                MigrationStep::Execute(SchemaStatement::CreateIndex(Index::Status))
            } else if done == 3 {
                MigrationStep::Execute(SchemaStatement::CreateIndex(Index::CreatedAt))
            } else {
                MigrationStep::Finished(Ok(()))
            }
        },
    }
}

/// The backend after provisioning: the table and its indexes exist, and the
/// rows are the ones that were there.
pub open spec fn provisioned(db: DatabaseView) -> DatabaseView {
    DatabaseView {
        table: true,
        name_index: true,
        status_index: true,
        created_at_index: true,
        rows: db.rows,
    }
}

/// Provisions the schema on a backend. It succeeds on every backend, and a
/// backend that is provisioned already is left as it is.
pub fn run(db: &mut Database) -> (outcome: Result<(), DbError>)
    requires
        old(db).wf(),
    ensures
        outcome is Ok,
        final(db).wf(),
        final(db)@ == provisioned(old(db)@),
{
    let mut done: usize = 0;
    let mut failure: Option<DriverError> = None;
    loop
        invariant
            db.wf(),
            done <= STATEMENT_COUNT,
            failure is None,
            db@.rows == old(db)@.rows,
            db@.table == (old(db)@.table || done >= 1),
            db@.name_index == (old(db)@.name_index || done >= 2),
            db@.status_index == (old(db)@.status_index || done >= 3),
            db@.created_at_index == (old(db)@.created_at_index || done >= 4),
        decreases STATEMENT_COUNT - done,
    {
        match next_step(done, failure) {
            MigrationStep::Execute(statement) => {
                match statement.apply(db) {
                    Ok(_) => {
                        done = done + 1;
                        failure = None;
                    },
                    Err(e) => {
                        failure = Some(e);
                    },
                }
            },
            MigrationStep::Finished(outcome) => {
                return outcome;
            },
        }
    }
}

/// Provisioning twice comes to the same as provisioning once.
pub proof fn lemma_provisioning_is_idempotent(db: DatabaseView)
    ensures
        provisioned(db).provisioned(),
        provisioned(provisioned(db)) == provisioned(db),
        db.provisioned() ==> provisioned(db) == db,
        db.wf() ==> provisioned(db).wf(),
{
}

} // verus!
