//! Index configuration as a developer specifies it — database, full text
//! search, or vector — and its serialized document form, convertible in both
//! directions without loss.

use vstd::prelude::*;

verus! {

/// Configuration of a standard database index: the field paths it indexes.
#[derive(PartialEq, Eq, Debug)]
pub struct DeveloperDatabaseIndexConfig {
    pub fields: Vec<String>,
}

/// Configuration of a full text search index.
#[derive(PartialEq, Eq, Debug)]
pub struct DeveloperTextIndexConfig {
    pub search_field: String,
    pub filter_fields: Vec<String>,
}

/// Configuration of a vector index.
#[derive(PartialEq, Eq, Debug)]
pub struct DeveloperVectorIndexConfig {
    pub dimensions: u32,
    pub vector_field: String,
    pub filter_fields: Vec<String>,
}

/// Where an index stands on disk: still being backfilled, or serving reads.
#[derive(Clone, Copy, PartialEq, Eq, Structural, Debug)]
pub enum IndexOnDiskState {
    Backfilling,
    Enabled,
}

/// A whole index configuration as the database tracks it: what the developer
/// specified, plus the on-disk state of the index.
#[derive(PartialEq, Eq, Debug)]
pub enum IndexConfig {
    Database { developer_config: DeveloperDatabaseIndexConfig, on_disk_state: IndexOnDiskState },
    Text { developer_config: DeveloperTextIndexConfig, on_disk_state: IndexOnDiskState },
    Vector { developer_config: DeveloperVectorIndexConfig, on_disk_state: IndexOnDiskState },
}

/// Index configuration as specified by the developer.
#[derive(PartialEq, Eq, Debug)]
pub enum DeveloperIndexConfig {
    /// Standard database index.
    Database(DeveloperDatabaseIndexConfig),
    /// Full text search index.
    Search(DeveloperTextIndexConfig),
    Vector(DeveloperVectorIndexConfig),
}

/// The serialized document form of a developer index configuration.
#[derive(PartialEq, Eq, Debug)]
pub enum SerializedDeveloperIndexConfig {
    Database { fields: Vec<String> },
    Search { search_field: String, filter_fields: Vec<String> },
    Vector { dimensions: u32, vector_field: String, filter_fields: Vec<String> },
}

/// A serialized developer index configuration together with the index name.
#[derive(PartialEq, Eq, Debug)]
pub struct SerializedNamedDeveloperIndexConfig {
    pub name: String,
    pub index_config: SerializedDeveloperIndexConfig,
}

impl DeveloperIndexConfig {
    /// Drops the on-disk state from a full index configuration, keeping only
    /// what the developer specified.
    pub fn from_index_config(value: IndexConfig) -> (r: Self)
        ensures
            (match value {
                IndexConfig::Database { developer_config, .. } => r
                    == DeveloperIndexConfig::Database(developer_config),
                IndexConfig::Text { developer_config, .. } => r == DeveloperIndexConfig::Search(
                    developer_config,
                ),
                IndexConfig::Vector { developer_config, .. } => r == DeveloperIndexConfig::Vector(
                    developer_config,
                ),
            }),
    {
        match value {
            IndexConfig::Database { developer_config, .. } => DeveloperIndexConfig::Database(
                developer_config,
            ),
            IndexConfig::Text { developer_config, .. } => DeveloperIndexConfig::Search(
                developer_config,
            ),
            IndexConfig::Vector { developer_config, .. } => DeveloperIndexConfig::Vector(
                developer_config,
            ),
        }
    }

    /// Encodes the configuration as its serialized document form, variant
    /// for variant and field for field.
    pub fn to_serialized(self) -> (r: SerializedDeveloperIndexConfig)
        ensures
            (match self {
                DeveloperIndexConfig::Database(c) => r == (SerializedDeveloperIndexConfig::Database {
                    fields: c.fields,
                }),
                DeveloperIndexConfig::Search(c) => r == (SerializedDeveloperIndexConfig::Search {
                    search_field: c.search_field,
                    filter_fields: c.filter_fields,
                }),
                DeveloperIndexConfig::Vector(c) => r == (SerializedDeveloperIndexConfig::Vector {
                    dimensions: c.dimensions,
                    vector_field: c.vector_field,
                    filter_fields: c.filter_fields,
                }),
            }),
    {
        match self {
            DeveloperIndexConfig::Database(c) => SerializedDeveloperIndexConfig::Database {
                fields: c.fields,
            },
            DeveloperIndexConfig::Search(c) => SerializedDeveloperIndexConfig::Search {
                search_field: c.search_field,
                filter_fields: c.filter_fields,
            },
            DeveloperIndexConfig::Vector(c) => SerializedDeveloperIndexConfig::Vector {
                dimensions: c.dimensions,
                vector_field: c.vector_field,
                filter_fields: c.filter_fields,
            },
        }
    }

    /// Decodes the serialized document form, variant for variant and field
    /// for field.
    pub fn from_serialized(index_config: SerializedDeveloperIndexConfig) -> (r: Self)
        ensures
            (match index_config {
                SerializedDeveloperIndexConfig::Database { fields } => r
                    == DeveloperIndexConfig::Database(DeveloperDatabaseIndexConfig { fields }),
                SerializedDeveloperIndexConfig::Search { search_field, filter_fields } => r
                    == DeveloperIndexConfig::Search(
                    DeveloperTextIndexConfig { search_field, filter_fields },
                ),
                SerializedDeveloperIndexConfig::Vector {
                    dimensions,
                    vector_field,
                    filter_fields,
                } => r == DeveloperIndexConfig::Vector(
                    DeveloperVectorIndexConfig { dimensions, vector_field, filter_fields },
                ),
            }),
    {
        match index_config {
            SerializedDeveloperIndexConfig::Database { fields } => DeveloperIndexConfig::Database(
                DeveloperDatabaseIndexConfig { fields },
            ),
            SerializedDeveloperIndexConfig::Search {
                search_field,
                filter_fields,
            } => DeveloperIndexConfig::Search(
                DeveloperTextIndexConfig { search_field, filter_fields },
            ),
            SerializedDeveloperIndexConfig::Vector {
                dimensions,
                vector_field,
                filter_fields,
            } => DeveloperIndexConfig::Vector(
                DeveloperVectorIndexConfig { dimensions, vector_field, filter_fields },
            ),
        }
    }
}

} // verus!
