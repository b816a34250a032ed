//! Steampipe plugin code generator.
//!
//! Turns a platform-independent description of resources and data sources
//! into the Go sources of a Steampipe plugin: one table file per entity,
//! a `plugin.go` registering every table, and a test stub per resource.
//! Every generator is verified against a specification of the exact text
//! it emits.
pub mod backend;
pub mod column;
pub mod escape;
pub mod model;
pub mod naming;
pub mod table_gen;

pub use backend::{SteampipeBackend, SteampipeNaming};
pub use column::{iac_type_to_column_type, ColumnType};
pub use model::{
    ArtifactKind, GeneratedArtifact, IacAttribute, IacDataSource, IacProvider, IacResource,
    IacType, TableSource,
};
