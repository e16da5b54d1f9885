//! The closed vocabulary of dimensions and metrics, and the query compiler.

pub mod builder;
pub mod dimensions;
pub mod metrics;
pub mod safety;

pub use builder::PivotQueryBuilder;
pub use dimensions::Dimension;
pub use metrics::Metric;
