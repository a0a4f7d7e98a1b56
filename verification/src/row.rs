//! The persisted form of a container, one row of the `containers` table, and
//! the reading of rows as entities.

use crate::error::{DbError, DbErrorView};
use crate::ident::{hyphenated, id_text, parse_id, uuid_parse};
use crate::model::{
    ConfigView, Container, ContainerConfig, ContainerId, ContainerStatus, ContainerView, Timestamp,
};
use vstd::prelude::*;

verus! {

/// The `config` column as the codec hands it over: the configuration that the
/// stored document decodes to, or the codec's complaint about the document.
#[derive(Debug, PartialEq, Eq)]
pub enum ConfigBlob {
    Parsed(ContainerConfig),
    Malformed(String),
}

/// What a `ConfigBlob` holds.
#[verifier::ext_equal]
pub enum ConfigBlobView {
    Parsed(ConfigView),
    Malformed(Seq<char>),
}

impl View for ConfigBlob {
    type V = ConfigBlobView;

    open spec fn view(&self) -> ConfigBlobView {
        match self {
            ConfigBlob::Parsed(config) => ConfigBlobView::Parsed(config@),
            ConfigBlob::Malformed(complaint) => ConfigBlobView::Malformed(complaint@),
        }
    }
}

impl Clone for ConfigBlob {
    fn clone(&self) -> (copy: Self)
        ensures
            copy@ == self@,
    {
        match self {
            ConfigBlob::Parsed(config) => ConfigBlob::Parsed(config.clone()),
            ConfigBlob::Malformed(complaint) => ConfigBlob::Malformed(complaint.clone()),
        }
    }
}

/// One row of the `containers` table, column by column.
#[derive(Debug, PartialEq, Eq)]
pub struct ContainerRow {
    pub id: String,
    pub name: String,
    pub status: String,
    pub template: String,
    pub node_id: Option<String>,
    pub created_at: Timestamp,
    pub updated_at: Timestamp,
    pub config: ConfigBlob,
}

/// What a `ContainerRow` holds.
#[verifier::ext_equal]
pub struct RowView {
    pub id: Seq<char>,
    pub name: Seq<char>,
    pub status: Seq<char>,
    pub template: Seq<char>,
    pub node_id: Option<Seq<char>>,
    pub created_at: Timestamp,
    pub updated_at: Timestamp,
    pub config: ConfigBlobView,
}

impl View for ContainerRow {
    type V = RowView;

    open spec fn view(&self) -> RowView {
        RowView {
            id: self.id@,
            name: self.name@,
            status: self.status@,
            template: self.template@,
            node_id: match self.node_id {
                Some(node) => Some(node@),
                None => None,
            },
            created_at: self.created_at,
            updated_at: self.updated_at,
            config: self.config@,
        }
    }
}

impl Clone for ContainerRow {
    fn clone(&self) -> (copy: Self)
        ensures
            copy@ == self@,
    {
        ContainerRow {
            id: self.id.clone(),
            name: self.name.clone(),
            status: self.status.clone(),
            template: self.template.clone(),
            node_id: match &self.node_id {
                Some(node) => Some(node.clone()),
                None => None,
            },
            created_at: self.created_at,
            updated_at: self.updated_at,
            config: self.config.clone(),
        }
    }
}

/// What the outcome of a lookup holds.
pub open spec fn outcome_view(outcome: Result<Container, DbError>) -> Result<
    ContainerView,
    DbErrorView,
> {
    match outcome {
        Ok(container) => Ok(container@),
        Err(e) => Err(e@),
    }
}

/// The node that a stored `node_id` names. A text that is no identifier
/// names none.
pub open spec fn decode_node(node_id: Option<Seq<char>>) -> Option<ContainerId> {
    match node_id {
        Some(text) => match uuid_parse(text) {
            Ok(value) => Some(ContainerId(value)),
            Err(_) => None,
        },
        None => None,
    }
}

/// The entity that a row stands for. A row whose `id` is no identifier, or
/// whose `config` is malformed, stands for none: it is invalid data, and the
/// identifier is looked at first. The status is read leniently.
pub open spec fn decode_row(row: RowView) -> Result<ContainerView, DbErrorView> {
    match uuid_parse(row.id) {
        Err(complaint) => Err(DbErrorView::InvalidData("Invalid UUID: "@ + complaint)),
        Ok(value) => match row.config {
            ConfigBlobView::Malformed(complaint) => Err(
                DbErrorView::InvalidData("Invalid config JSON: "@ + complaint),
            ),
            ConfigBlobView::Parsed(config) => Ok(
                ContainerView {
                    id: ContainerId(value),
                    name: row.name,
                    status: ContainerStatus::of_text(row.status),
                    template: row.template,
                    node_id: decode_node(row.node_id),
                    created_at: row.created_at,
                    updated_at: row.updated_at,
                    config,
                },
            ),
        },
    }
}

/// The row under which a container is first stored: stopped, on no node,
/// created and updated at the same instant.
pub open spec fn fresh_row(
    name: Seq<char>,
    template: Seq<char>,
    config: ConfigView,
    id: ContainerId,
    now: Timestamp,
) -> RowView {
    RowView {
        id: hyphenated(id.0),
        name,
        status: ContainerStatus::Stopped.text(),
        template,
        node_id: None,
        created_at: now,
        updated_at: now,
        config: ConfigBlobView::Parsed(config),
    }
}

/// The entity that a fresh row stands for.
pub open spec fn fresh_container(
    name: Seq<char>,
    template: Seq<char>,
    config: ConfigView,
    id: ContainerId,
    now: Timestamp,
) -> ContainerView {
    ContainerView {
        id,
        name,
        status: ContainerStatus::Stopped,
        template,
        node_id: None,
        created_at: now,
        updated_at: now,
        config,
    }
}

/// Reads a stored row as the entity it stands for.
pub fn row_to_container(row: ContainerRow) -> (outcome: Result<Container, DbError>)
    ensures
        outcome_view(outcome) == decode_row(row@),
{
    let id = match parse_id(row.id.as_str()) {
        Ok(id) => id,
        Err(complaint) => {
            return Err(
                DbError::InvalidData(String::from_str("Invalid UUID: ").concat(complaint.as_str())),
            );
        },
    };
    let status = ContainerStatus::from_text(row.status.as_str());
    let config = match row.config {
        ConfigBlob::Parsed(config) => config,
        ConfigBlob::Malformed(complaint) => {
            return Err(
                DbError::InvalidData(
                    String::from_str("Invalid config JSON: ").concat(complaint.as_str()),
                ),
            );
        },
    };
    let node_id = match row.node_id {
        Some(text) => match parse_id(text.as_str()) {
            Ok(node) => Some(node),
            Err(_) => None,
        },
        None => None,
    };
    Ok(
        Container {
            id,
            name: row.name,
            status,
            template: row.template,
            node_id,
            created_at: row.created_at,
            updated_at: row.updated_at,
            config,
        },
    )
}

/// Makes the row under which a new container is stored. The row reads back
/// as the container that was asked for.
pub fn new_row(
    name: &str,
    template: &str,
    config: ContainerConfig,
    id: ContainerId,
    now: Timestamp,
) -> (row: ContainerRow)
    ensures
        row@ == fresh_row(name@, template@, config@, id, now),
        decode_row(row@) == Ok::<ContainerView, DbErrorView>(
            fresh_container(name@, template@, config@, id, now),
        ),
{
    proof {
        ContainerStatus::lemma_text_round_trip(ContainerStatus::Stopped);
    }
    ContainerRow {
        id: id_text(id),
        name: name.to_owned(),
        status: ContainerStatus::Stopped.as_str().to_owned(),
        template: template.to_owned(),
        node_id: None,
        created_at: now,
        updated_at: now,
        config: ConfigBlob::Parsed(config),
    }
}

} // verus!
