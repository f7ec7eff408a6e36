//! Verified core of a Rust client for the zvec vector database.
use vstd::prelude::*;

pub mod build_support;
pub mod collection;
pub mod config;
pub mod doc;
pub mod error;
pub mod multi_query;
pub mod query;
pub mod schema;
pub mod types;

pub use collection::WriteResult;
pub use config::ConfigBuilder;
pub use error::{Error, ErrorCode, Result};
pub use query::SearchQueryBuilder;
pub use schema::CollectionSchemaBuilder;
pub use types::{DataType, DocOperator, IndexType, LogLevel, MetricType, QuantizeType};
