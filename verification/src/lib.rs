//! Persistence rules for container metadata: field validation, the row
//! format of the `containers` table, and the repository operations over it.
//!
//! The repository is written against statements and replies. `Database` is a
//! backend in memory that replies as the schema prescribes; the contracts of
//! `ContainerStore` are stated over it. A caller that keeps the table
//! elsewhere runs the same statements there and hands the replies to the
//! same decisions: `Creation` for the creation of a container, the
//! `*_outcome` functions for the other operations, `migrations::next_step`
//! for provisioning.

pub mod clock;
pub mod container_store;
pub mod database;
pub mod error;
pub mod ident;
pub mod migrations;
pub mod model;
pub mod pool;
pub mod row;
pub mod statement;
pub mod validation;

pub use container_store::ContainerStore;
pub use database::Database;
pub use error::{DbError, DriverError, DriverErrorKind, ModelError};
pub use model::{
    Container, ContainerConfig, ContainerId, ContainerNetworkInterface, ContainerStatus, Timestamp,
};
pub use pool::PoolConfig;
pub use validation::ValidationError;
