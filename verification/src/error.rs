//! The failures that the model and the repository report.

use vstd::prelude::*;

verus! {

/// A failure of the domain model.
#[derive(Debug)]
pub enum ModelError {
    ValidationError(String),
    InvalidContainerName(String),
    InvalidResourceLimit(String),
    InternalError,
}

impl ModelError {
    /// The text that describes this failure.
    pub open spec fn text(&self) -> Seq<char> {
        match self {
            ModelError::ValidationError(detail) => "Validation error: "@ + detail@,
            ModelError::InvalidContainerName(detail) => "Invalid container name: "@ + detail@,
            ModelError::InvalidResourceLimit(detail) => "Invalid resource limit: "@ + detail@,
            ModelError::InternalError => "Internal error"@,
        }
    }

    /// Describes this failure in words.
    pub fn message(&self) -> (text: String)
        ensures
            text@ == self.text(),
    {
        match self {
            ModelError::ValidationError(detail) => {
                String::from_str("Validation error: ").concat(detail.as_str())
            },
            ModelError::InvalidContainerName(detail) => {
                String::from_str("Invalid container name: ").concat(detail.as_str())
            },
            ModelError::InvalidResourceLimit(detail) => {
                String::from_str("Invalid resource limit: ").concat(detail.as_str())
            },
            ModelError::InternalError => String::from_str("Internal error"),
        }
    }
}

impl Clone for ModelError {
    fn clone(&self) -> (copy: Self)
        ensures
            copy == *self,
    {
        match self {
            ModelError::ValidationError(detail) => ModelError::ValidationError(detail.clone()),
            ModelError::InvalidContainerName(detail) => ModelError::InvalidContainerName(
                detail.clone(),
            ),
            ModelError::InvalidResourceLimit(detail) => ModelError::InvalidResourceLimit(
                detail.clone(),
            ),
            ModelError::InternalError => ModelError::InternalError,
        }
    }
}

/// The kinds of failure that a storage driver tells apart.
#[derive(Debug, Clone, Copy, PartialEq, Eq, Structural, Hash)]
pub enum DriverErrorKind {
    /// A row with the same identifier or the same name is already stored.
    UniqueViolation,
    ForeignKeyViolation,
    NotNullViolation,
    /// A value is outside the set that its column admits.
    CheckViolation,
    Other,
}

/// A failure of the storage driver, passed through as it was reported.
#[derive(Debug, PartialEq, Eq)]
pub struct DriverError {
    pub kind: DriverErrorKind,
    pub message: String,
}

/// What a `DriverError` holds.
pub struct DriverErrorView {
    pub kind: DriverErrorKind,
    pub message: Seq<char>,
}

impl View for DriverError {
    type V = DriverErrorView;

    open spec fn view(&self) -> DriverErrorView {
        DriverErrorView { kind: self.kind, message: self.message@ }
    }
}

impl DriverError {
    /// A failure of this kind, in the driver's words.
    pub fn new(kind: DriverErrorKind, message: &str) -> (e: Self)
        ensures
            e@ == (DriverErrorView { kind, message: message@ }),
    {
        DriverError { kind, message: message.to_owned() }
    }
}

impl Clone for DriverError {
    fn clone(&self) -> (copy: Self)
        ensures
            copy@ == self@,
    {
        DriverError { kind: self.kind, message: self.message.clone() }
    }
}

/// A failure of the repository.
#[derive(Debug, PartialEq, Eq)]
pub enum DbError {
    /// The storage driver failed.
    SqlxError(DriverError),
    /// No container has the name or the identifier that was looked up.
    ContainerNotFound(String),
    /// Kept for a strict create; no operation reports it.
    ContainerAlreadyExists(String),
    /// A stored row does not hold what the schema promises.
    InvalidData(String),
    /// The schema could not be provisioned.
    MigrationError(String),
    InternalError,
}

/// What a `DbError` holds.
pub enum DbErrorView {
    SqlxError(DriverErrorView),
    ContainerNotFound(Seq<char>),
    ContainerAlreadyExists(Seq<char>),
    InvalidData(Seq<char>),
    MigrationError(Seq<char>),
    InternalError,
}

impl View for DbError {
    type V = DbErrorView;

    open spec fn view(&self) -> DbErrorView {
        match self {
            DbError::SqlxError(e) => DbErrorView::SqlxError(e@),
            DbError::ContainerNotFound(key) => DbErrorView::ContainerNotFound(key@),
            DbError::ContainerAlreadyExists(name) => DbErrorView::ContainerAlreadyExists(name@),
            DbError::InvalidData(detail) => DbErrorView::InvalidData(detail@),
            DbError::MigrationError(detail) => DbErrorView::MigrationError(detail@),
            DbError::InternalError => DbErrorView::InternalError,
        }
    }
}

impl DbErrorView {
    /// The text that describes this failure.
    pub open spec fn text(self) -> Seq<char> {
        match self {
            DbErrorView::SqlxError(e) => "Database error: "@ + e.message,
            DbErrorView::ContainerNotFound(key) => "Container not found: "@ + key,
            DbErrorView::ContainerAlreadyExists(name) => "Container already exists: "@ + name,
            DbErrorView::InvalidData(detail) => "Invalid container data: "@ + detail,
            DbErrorView::MigrationError(detail) => "Migration error: "@ + detail,
            DbErrorView::InternalError => "Internal server error"@,
        }
    }
}

impl DbError {
    /// Describes this failure in words.
    pub fn message(&self) -> (text: String)
        ensures
            text@ == self@.text(),
    {
        match self {
            DbError::SqlxError(e) => String::from_str("Database error: ").concat(
                e.message.as_str(),
            ),
            DbError::ContainerNotFound(key) => String::from_str("Container not found: ").concat(
                key.as_str(),
            ),
            DbError::ContainerAlreadyExists(name) => String::from_str(
                "Container already exists: ",
            ).concat(name.as_str()),
            DbError::InvalidData(detail) => String::from_str("Invalid container data: ").concat(
                detail.as_str(),
            ),
            DbError::MigrationError(detail) => String::from_str("Migration error: ").concat(
                detail.as_str(),
            ),
            DbError::InternalError => String::from_str("Internal server error"),
        }
    }
}

impl Clone for DbError {
    fn clone(&self) -> (copy: Self)
        ensures
            copy@ == self@,
    {
        match self {
            DbError::SqlxError(e) => DbError::SqlxError(e.clone()),
            DbError::ContainerNotFound(key) => DbError::ContainerNotFound(key.clone()),
            DbError::ContainerAlreadyExists(name) => DbError::ContainerAlreadyExists(name.clone()),
            DbError::InvalidData(detail) => DbError::InvalidData(detail.clone()),
            DbError::MigrationError(detail) => DbError::MigrationError(detail.clone()),
            DbError::InternalError => DbError::InternalError,
        }
    }
}

} // verus!
