//! The statements that the repository runs on the `containers` table, and
//! what a backend replies to them.

use crate::database::{
    count_view, found_view, no_such_table, outcome_view, rows_view, Database, DatabaseView,
};
use crate::error::{DriverError, DriverErrorView};
use crate::model::Timestamp;
use crate::row::{ContainerRow, RowView};
use vstd::prelude::*;

verus! {

pub const SELECT_BY_NAME_SQL: &'static str =
    "SELECT id, name, status, template, node_id, created_at, updated_at, config FROM containers WHERE name = ?1";

pub const SELECT_BY_ID_SQL: &'static str =
    "SELECT id, name, status, template, node_id, created_at, updated_at, config FROM containers WHERE id = ?1";

pub const SELECT_ALL_SQL: &'static str =
    "SELECT id, name, status, template, node_id, created_at, updated_at, config FROM containers ORDER BY created_at DESC";

pub const COUNT_BY_NAME_SQL: &'static str = "SELECT COUNT(*) FROM containers WHERE name = ?1";

pub const INSERT_SQL: &'static str =
    "INSERT INTO containers (id, name, status, template, node_id, created_at, updated_at, config) VALUES (?1, ?2, ?3, ?4, ?5, ?6, ?7, ?8)";

pub const UPDATE_STATUS_SQL: &'static str =
    "UPDATE containers SET status = ?1, updated_at = MAX(?2, created_at) WHERE name = ?3";

pub const DELETE_BY_NAME_SQL: &'static str = "DELETE FROM containers WHERE name = ?1";

/// A statement on the `containers` table, with the values bound to it.
#[derive(Debug, PartialEq, Eq)]
pub enum Statement {
    SelectByName { name: String },
    SelectById { id: String },
    SelectAll,
    CountByName { name: String },
    Insert { row: ContainerRow },
    /// Gives the row named `name` the status and the time of update, or the
    /// time of its creation where `updated_at` lies before that.
    UpdateStatus { status: String, updated_at: Timestamp, name: String },
    DeleteByName { name: String },
}

/// What a `Statement` holds.
#[verifier::ext_equal]
pub enum StatementView {
    SelectByName { name: Seq<char> },
    SelectById { id: Seq<char> },
    SelectAll,
    CountByName { name: Seq<char> },
    Insert { row: RowView },
    UpdateStatus { status: Seq<char>, updated_at: Timestamp, name: Seq<char> },
    DeleteByName { name: Seq<char> },
}

impl View for Statement {
    type V = StatementView;

    open spec fn view(&self) -> StatementView {
        match self {
            Statement::SelectByName { name } => StatementView::SelectByName { name: name@ },
            Statement::SelectById { id } => StatementView::SelectById { id: id@ },
            Statement::SelectAll => StatementView::SelectAll,
            Statement::CountByName { name } => StatementView::CountByName { name: name@ },
            Statement::Insert { row } => StatementView::Insert { row: row@ },
            Statement::UpdateStatus { status, updated_at, name } => StatementView::UpdateStatus {
                status: status@,
                updated_at: *updated_at,
                name: name@,
            },
            Statement::DeleteByName { name } => StatementView::DeleteByName { name: name@ },
        }
    }
}

impl Statement {
    /// The statement in SQL, with a numbered place for each bound value.
    pub open spec fn sql_text(&self) -> Seq<char> {
        match self {
            Statement::SelectByName { .. } => SELECT_BY_NAME_SQL@,
            Statement::SelectById { .. } => SELECT_BY_ID_SQL@,
            Statement::SelectAll => SELECT_ALL_SQL@,
            Statement::CountByName { .. } => COUNT_BY_NAME_SQL@,
            Statement::Insert { .. } => INSERT_SQL@,
            Statement::UpdateStatus { .. } => UPDATE_STATUS_SQL@,
            Statement::DeleteByName { .. } => DELETE_BY_NAME_SQL@,
        }
    }

    /// The statement in SQL, with a numbered place for each bound value.
    pub fn sql(&self) -> (text: &'static str)
        ensures
            text@ == self.sql_text(),
    {
        match self {
            Statement::SelectByName { .. } => SELECT_BY_NAME_SQL,
            Statement::SelectById { .. } => SELECT_BY_ID_SQL,
            Statement::SelectAll => SELECT_ALL_SQL,
            Statement::CountByName { .. } => COUNT_BY_NAME_SQL,
            Statement::Insert { .. } => INSERT_SQL,
            Statement::UpdateStatus { .. } => UPDATE_STATUS_SQL,
            Statement::DeleteByName { .. } => DELETE_BY_NAME_SQL,
        }
    }
}

/// What a backend replies to a statement.
#[derive(Debug, PartialEq, Eq)]
pub enum Reply {
    /// The one row that a lookup found, or none.
    Row(Option<ContainerRow>),
    /// The rows of a listing, in its order.
    Rows(Vec<ContainerRow>),
    /// The number that a count came to.
    Count(i64),
    /// How many rows a write changed.
    Affected(u64),
    /// The driver's failure.
    Failed(DriverError),
    /// The statement was not run, because the configuration of the row to
    /// store could not be written down as a document; the codec's complaint.
    Rejected(String),
}

/// What a `Reply` holds.
#[verifier::ext_equal]
pub enum ReplyView {
    Row(Option<RowView>),
    Rows(Seq<RowView>),
    Count(i64),
    Affected(u64),
    Failed(DriverErrorView),
    Rejected(Seq<char>),
}

impl View for Reply {
    type V = ReplyView;

    open spec fn view(&self) -> ReplyView {
        match self {
            Reply::Row(found) => ReplyView::Row(found_view(*found)),
            Reply::Rows(rows) => ReplyView::Rows(rows_view(rows@)),
            Reply::Count(count) => ReplyView::Count(*count),
            Reply::Affected(count) => ReplyView::Affected(*count),
            Reply::Failed(e) => ReplyView::Failed(e@),
            Reply::Rejected(complaint) => ReplyView::Rejected(complaint@),
        }
    }
}

impl DatabaseView {
    /// What the backend replies to a statement.
    pub open spec fn reply_to(self, statement: StatementView) -> ReplyView {
        if !self.table {
            ReplyView::Failed(no_such_table())
        } else {
            match statement {
                StatementView::SelectByName { name } => ReplyView::Row(self.row_named(name)),
                StatementView::SelectById { id } => ReplyView::Row(self.row_with_id(id)),
                StatementView::SelectAll => ReplyView::Rows(self.rows),
                StatementView::CountByName { name } => ReplyView::Count(
                    if self.has_name(name) {
                        1
                    } else {
                        0
                    },
                ),
                StatementView::Insert { row } => match self.insert_outcome(row) {
                    Ok(_) => ReplyView::Affected(1),
                    Err(e) => ReplyView::Failed(e),
                },
                StatementView::UpdateStatus { status, updated_at, name } => match self.update_outcome(
                    name,
                    status,
                ) {
                    Ok(count) => ReplyView::Affected(count),
                    Err(e) => ReplyView::Failed(e),
                },
                StatementView::DeleteByName { name } => match self.delete_outcome(name) {
                    Ok(count) => ReplyView::Affected(count),
                    Err(e) => ReplyView::Failed(e),
                },
            }
        }
    }

    /// The backend after a statement has run on it. A statement that fails
    /// changes nothing.
    pub open spec fn after(self, statement: StatementView) -> DatabaseView {
        match statement {
            StatementView::Insert { row } => if self.insert_outcome(row) is Ok {
                self.with_row(row)
            } else {
                self
            },
            StatementView::UpdateStatus { status, updated_at, name } => if self.update_outcome(
                name,
                status,
            ) is Ok {
                self.with_status(name, status, updated_at)
            } else {
                self
            },
            StatementView::DeleteByName { name } => if self.delete_outcome(name) is Ok {
                self.without(name)
            } else {
                self
            },
            _ => self,
        }
    }
}

impl StatementView {
    /// Whether the statement stores no row that was updated before it was
    /// created.
    pub open spec fn chronological(self) -> bool {
        self matches StatementView::Insert { row } ==> row.updated_at.at_or_after(row.created_at)
    }

    /// Whether the statement only reads.
    pub open spec fn is_read(self) -> bool {
        match self {
            StatementView::SelectByName { .. } => true,
            StatementView::SelectById { .. } => true,
            StatementView::SelectAll => true,
            StatementView::CountByName { .. } => true,
            _ => false,
        }
    }
}

impl Database {
    /// Runs a statement that only reads, and hands back the reply.
    pub(crate) fn read(&self, statement: Statement) -> (reply: Reply)
        requires
            self.wf(),
            statement@.is_read(),
        ensures
            reply@ == self@.reply_to(statement@),
    {
        match statement {
            Statement::SelectByName { name } => match self.select_by_name(name.as_str()) {
                Ok(found) => Reply::Row(found),
                Err(e) => Reply::Failed(e),
            },
            Statement::SelectById { id } => match self.select_by_id(id.as_str()) {
                Ok(found) => Reply::Row(found),
                Err(e) => Reply::Failed(e),
            },
            Statement::SelectAll => match self.select_all() {
                Ok(rows) => Reply::Rows(rows),
                Err(e) => Reply::Failed(e),
            },
            Statement::CountByName { name } => match self.count_by_name(name.as_str()) {
                Ok(count) => Reply::Count(count),
                Err(e) => Reply::Failed(e),
            },
            _ => Reply::Affected(0),
        }
    }

    /// Runs a statement and hands back the reply.
    pub fn execute(&mut self, statement: Statement) -> (reply: Reply)
        requires
            old(self).wf(),
        ensures
            final(self).wf(),
            reply@ == old(self)@.reply_to(statement@),
            final(self)@ == old(self)@.after(statement@),
            old(self)@.chronological() && statement@.chronological()
                ==> final(self)@.chronological(),
    {
        match statement {
            Statement::Insert { row } => match self.insert(row) {
                Ok(_) => Reply::Affected(1),
                Err(e) => Reply::Failed(e),
            },
            Statement::UpdateStatus { status, updated_at, name } => match self.update_status(
                name.as_str(),
                status.as_str(),
                updated_at,
            ) {
                Ok(count) => Reply::Affected(count),
                Err(e) => Reply::Failed(e),
            },
            Statement::DeleteByName { name } => match self.delete_by_name(name.as_str()) {
                Ok(count) => Reply::Affected(count),
                Err(e) => Reply::Failed(e),
            },
            statement => self.read(statement),
        }
    }
}

} // verus!
